//! What holds across the library's operations: the bounded history, reading
//! back what was written into a map or a JSON object, updates that keep what
//! they are not given, the routes of the dispatcher and the parts of a path.
use vstd::prelude::*;
use crate::core_engine::agents::{
    AgentRole, AgentView, ChoiceTool, HISTORY_CAPACITY, MessageView, MessagesSentView,
    ModelSettingsView, SchemaView, TaskCompletion, agent_updated, history_after_append,
    settings_updated, updated_text,
};
use crate::core_logic::dispatcher::{lemma_route_index, route_index};
use crate::json::{
    JsonView, json_get, json_get_str, json_parse, json_set, lemma_members_get_first, lemma_members_get_none,
    members_get, members_set,
};
use crate::core_engine::agents::{
    SchemaFieldType, choice_tool_name, field_type_name, maps_json, payload_json, provider_json,
    schema_properties,
};
use crate::core_engine::machine::{ToolRequestView, history_message_map, planned_tool, tool_arguments};
use crate::core_logic::node_steps::{request_route, trimmed_str_field};
use crate::keyed::{distinct_keys, has_key, insert_spec, lemma_lookup_absent, lemma_lookup_at, lookup};
use crate::text::{last_index_of, last_segment, lemma_last_index_of, parent_of};

verus! {

/// A history that holds at most `HISTORY_CAPACITY` messages still does after
/// an append; the appended message comes last, and before it stand the newest
/// of the old messages, in their order.
pub proof fn law_history_append_bounded(h: Seq<MessageView>, m: MessageView)
    requires
        h.len() <= HISTORY_CAPACITY,
    ensures
        history_after_append(h, m).len() <= HISTORY_CAPACITY,
        history_after_append(h, m).last() == m,
        history_after_append(h, m).drop_last() == h.subrange(
            h.len() - (history_after_append(h, m).len() - 1),
            h.len() as int,
        ),
{
    let n = history_after_append(h, m);
    if h.len() >= HISTORY_CAPACITY {
        assert(n.drop_last() =~= h.subrange(1, h.len() as int));
    } else {
        assert(n.drop_last() =~= h.subrange(0, h.len() as int));
    }
}

/// Inserting into a map with distinct keys keeps its keys distinct; reading
/// the key back gives the value inserted, every other key reads as before,
/// and the map grows by one entry exactly when the key was new.
pub proof fn law_keyed_read_after_insert<V>(s: Seq<(Seq<char>, V)>, k: Seq<char>, v: V, other: Seq<char>)
    requires
        distinct_keys(s),
        other != k,
    ensures
        distinct_keys(insert_spec(s, k, v)),
        lookup(insert_spec(s, k, v), k) == Some(v),
        lookup(insert_spec(s, k, v), other) == lookup(s, other),
        insert_spec(s, k, v).len() == (if has_key(s, k) {
            s.len()
        } else {
            s.len() + 1
        }),
{
    let t = insert_spec(s, k, v);
    if has_key(s, k) {
        let i = choose|i: int| 0 <= i < s.len() && s[i].0 == k;
        assert(t == s.update(i, (k, v)));
        assert forall|a: int, b: int| 0 <= a < b < t.len() implies #[trigger] t[a].0 != #[trigger] t[b].0 by {
            assert(t[a].0 == s[a].0 && t[b].0 == s[b].0);
        }
        lemma_lookup_at(t, k, i);
        if has_key(s, other) {
            let j = choose|j: int| 0 <= j < s.len() && s[j].0 == other;
            assert(t[j] == s[j]);
            lemma_lookup_at(t, other, j);
            lemma_lookup_at(s, other, j);
        } else {
            assert(!has_key(t, other)) by {
                if has_key(t, other) {
                    let j = choose|j: int| 0 <= j < t.len() && t[j].0 == other;
                    assert(s[j].0 == other);
                }
            }
            lemma_lookup_absent(t, other);
            lemma_lookup_absent(s, other);
        }
    } else {
        assert(t == s.push((k, v)));
        assert forall|a: int, b: int| 0 <= a < b < t.len() implies #[trigger] t[a].0 != #[trigger] t[b].0 by {
            if b == s.len() {
                assert(s[a].0 != k);
            } else {
                assert(t[a] == s[a] && t[b] == s[b]);
            }
        }
        lemma_lookup_at(t, k, s.len() as int);
        if has_key(s, other) {
            let j = choose|j: int| 0 <= j < s.len() && s[j].0 == other;
            assert(t[j] == s[j]);
            lemma_lookup_at(t, other, j);
            lemma_lookup_at(s, other, j);
        } else {
            assert(!has_key(t, other)) by {
                if has_key(t, other) {
                    let j = choose|j: int| 0 <= j < t.len() && t[j].0 == other;
                    if j < s.len() {
                        assert(s[j].0 == other);
                    }
                }
            }
            lemma_lookup_absent(t, other);
            lemma_lookup_absent(s, other);
        }
    }
}

proof fn lemma_members_read_after_set(m: Seq<(Seq<char>, JsonView)>, k: Seq<char>, v: JsonView, other: Seq<char>)
    requires
        other != k,
    ensures
        members_get(members_set(m, k, v), k) == Some(v),
        members_get(members_set(m, k, v), other) == members_get(m, other),
    decreases m.len(),
{
    let t = members_set(m, k, v);
    if m.len() == 0 {
        assert(t[0] == (k, v));
        assert(t.drop_first() =~= Seq::<(Seq<char>, JsonView)>::empty());
        assert(members_get(t.drop_first(), other) == None::<JsonView>);
    } else if m[0].0 == k {
        assert(t[0] == (k, v));
        assert(t.drop_first() =~= m.drop_first());
        assert(members_get(t, other) == members_get(t.drop_first(), other));
        assert(members_get(m, other) == members_get(m.drop_first(), other));
    } else {
        lemma_members_read_after_set(m.drop_first(), k, v, other);
        assert(t[0] == m[0]);
        assert(t.drop_first() =~= members_set(m.drop_first(), k, v));
        if m[0].0 != other {
            assert(members_get(t, other) == members_get(t.drop_first(), other));
            assert(members_get(m, other) == members_get(m.drop_first(), other));
        }
        assert(members_get(t, k) == members_get(t.drop_first(), k));
    }
}

/// Setting a member of a JSON object and reading it back gives the value set;
/// every other member reads as before.
pub proof fn law_json_read_after_set(o: JsonView, k: Seq<char>, v: JsonView, other: Seq<char>)
    requires
        o is Object,
        other != k,
    ensures
        json_get(json_set(o, k, v), k) == Some(v),
        json_get(json_set(o, k, v), other) == json_get(o, other),
{
    lemma_members_read_after_set(o->Object_0, k, v, other);
}

/// Updating model settings with nothing given leaves them as they were, and
/// updating twice with the same values is updating once.
pub proof fn law_settings_update(
    s: ModelSettingsView,
    name: Option<Seq<char>>,
    max_completion: Option<u64>,
    temperature: Option<u64>,
    message: Option<Seq<Seq<(Seq<char>, Seq<char>)>>>,
    tool_choice: Option<ChoiceTool>,
    tools: Option<Option<Seq<JsonView>>>,
    kind: Option<Seq<char>>,
)
    ensures
        settings_updated(s, None, None, None, None, None, None, None) == s,
        settings_updated(
            settings_updated(s, name, max_completion, temperature, message, tool_choice, tools, kind),
            name,
            max_completion,
            temperature,
            message,
            tool_choice,
            tools,
            kind,
        ) == settings_updated(s, name, max_completion, temperature, message, tool_choice, tools, kind),
{
}

/// Updating an agent with nothing given leaves it as it was, and updating
/// twice with the same parts is updating once.
pub proof fn law_agent_update(
    a: AgentView,
    role: Option<AgentRole>,
    communication_message: Option<JsonView>,
    prompt: Option<MessagesSentView>,
    structured_output: Option<SchemaView>,
    task_state: Option<TaskCompletion>,
    llm: Option<ModelSettingsView>,
)
    ensures
        agent_updated(a, None, None, None, None, None, None) == a,
        agent_updated(
            agent_updated(a, role, communication_message, prompt, structured_output, task_state, llm),
            role,
            communication_message,
            prompt,
            structured_output,
            task_state,
            llm,
        ) == agent_updated(a, role, communication_message, prompt, structured_output, task_state, llm),
{
}

/// Updating a worker's task with nothing given keeps it, and giving the same
/// task twice is giving it once.
pub proof fn law_task_update(task: Seq<char>, given: Option<&str>)
    ensures
        updated_text(None, task) == task,
        updated_text(given, updated_text(given, task)) == updated_text(given, task),
{
}

/// A message for a node is handed to a route registered under that name, the
/// first one, exactly when such a route exists; otherwise it is refused.
pub proof fn law_dispatch_finds_registered(routes: Seq<Seq<char>>, name: Seq<char>)
    ensures
        (exists|k: int| 0 <= k < routes.len() && routes[k] == name) <==> route_index(routes, name) is Some,
        route_index(routes, name) matches Some(i) ==> routes[i] == name && forall|k: int|
            0 <= k < i ==> routes[k] != name,
{
    lemma_route_index(routes, name);
}

/// A path that holds a `/` is its directory, a `/`, and its file name; the
/// file name holds no `/`.
pub proof fn law_path_split(p: Seq<char>)
    requires
        last_index_of(p, '/') >= 0,
    ensures
        parent_of(p) + seq!['/'] + last_segment(p) == p,
        forall|k: int| 0 <= k < last_segment(p).len() ==> last_segment(p)[k] != '/',
{
    lemma_last_index_of(p, '/');
    let i = last_index_of(p, '/');
    assert(parent_of(p) + seq!['/'] + last_segment(p) =~= p);
    assert forall|k: int| 0 <= k < last_segment(p).len() implies last_segment(p)[k] != '/' by {
        assert(last_segment(p)[k] == p[i + 1 + k]);
    }
}

/// The arguments of a tool call: a JSON text is parsed (its parse error, with
/// a prefix, is the refusal); any other value is taken as it is.
pub proof fn law_tool_arguments(arguments: JsonView)
    ensures
        arguments matches JsonView::Str(s) ==> (match json_parse(s) {
            Ok(v) => tool_arguments(arguments) == Ok::<JsonView, Seq<char>>(v),
            Err(e) => tool_arguments(arguments) == Err::<JsonView, Seq<char>>(
                "Failed to parse arguments JSON string: "@ + e,
            ),
        }),
        !(arguments is Str) ==> tool_arguments(arguments) == Ok::<JsonView, Seq<char>>(arguments),
{
}

/// A write call writes, to the file that its `file_path` argument names, the
/// content that its `yaml_manifest_content` argument gives.
pub proof fn law_plan_write(arguments: JsonView, args: JsonView, path: Seq<char>, content: Seq<char>)
    requires
        tool_arguments(arguments) == Ok::<JsonView, Seq<char>>(args),
        json_get_str(args, "file_path"@) == Some(path),
        json_get_str(args, "yaml_manifest_content"@) == Some(content),
    ensures
        planned_tool("write_file_tool"@, arguments) == Ok::<ToolRequestView, Seq<char>>(
            ToolRequestView::WriteFile { file_path: path, yaml_manifest_content: content },
        ),
{
    reveal_strlit("write_file_tool");
    reveal_strlit("read_file_tool");
    assert("write_file_tool"@.len() != "read_file_tool"@.len());
}

/// A read call reads the file that its `file_path` argument names.
pub proof fn law_plan_read(arguments: JsonView, args: JsonView, path: Seq<char>)
    requires
        tool_arguments(arguments) == Ok::<JsonView, Seq<char>>(args),
        json_get_str(args, "file_path"@) == Some(path),
    ensures
        planned_tool("read_file_tool"@, arguments) == Ok::<ToolRequestView, Seq<char>>(
            ToolRequestView::ReadFile { file_path: path },
        ),
{
}

/// The analysis of a request goes to the first worker whenever its
/// instructions are not blank, else to the second when its are not, and to
/// no one when both are blank. The routed message is
/// `{"instructions": v}`, where `v` is the analysis's member named by the
/// worker it goes to.
pub proof fn law_request_route(analysis: JsonView)
    ensures
        request_route(analysis) is None <==> (trimmed_str_field(analysis, "sre1_agent"@).len() == 0
            && trimmed_str_field(analysis, "sre2_agent"@).len() == 0),
        trimmed_str_field(analysis, "sre1_agent"@).len() > 0 ==> (request_route(analysis) matches Some(m)
            && m.next_node == "sre1_agent"@),
        trimmed_str_field(analysis, "sre1_agent"@).len() == 0 && trimmed_str_field(analysis, "sre2_agent"@).len()
            > 0 ==> (request_route(analysis) matches Some(m) && m.next_node == "sre2_agent"@),
        request_route(analysis) matches Some(m) ==> (json_get(analysis, m.next_node) is Some && m.message
            == JsonView::Object(seq![("instructions"@, json_get(analysis, m.next_node)->Some_0)])
            && json_get(m.message, "instructions"@) == json_get(analysis, m.next_node)),
{
}

/// Each field type has its own JSON-schema name (text `string`, a whole number
/// `integer`, a truth value `boolean`), and each property of a schema built
/// from fields keeps its field's name and says that field's type under `type`.
pub proof fn law_field_type_names(d: Seq<(Seq<char>, SchemaFieldType)>)
    ensures
        field_type_name(SchemaFieldType::String) == "string"@,
        field_type_name(SchemaFieldType::Int) == "integer"@,
        field_type_name(SchemaFieldType::Bool) == "boolean"@,
        "string"@ != "integer"@ && "string"@ != "boolean"@ && "integer"@ != "boolean"@,
        schema_properties(d).len() == d.len(),
        forall|i: int| 0 <= i < d.len() ==> (#[trigger] schema_properties(d)[i]).0 == d[i].0 && lookup(
            schema_properties(d)[i].1,
            "type"@,
        ) == Some(field_type_name(d[i].1)),
{
    reveal_strlit("string");
    reveal_strlit("integer");
    reveal_strlit("boolean");
    assert("string"@.len() != "integer"@.len());
    assert("string"@.len() != "boolean"@.len());
    assert("integer"@[0] != "boolean"@[0]);
}

/// The map sent for a history message holds its role and its content, and
/// holds its tool call id exactly when it has one, so a tool's answer stays
/// tied to the call it answers.
pub proof fn law_history_message_map(m: MessageView)
    ensures
        lookup(history_message_map(m), "role"@) == Some(m.role),
        lookup(history_message_map(m), "content"@) == Some(m.content),
        m.tool_call_id.len() > 0 ==> lookup(history_message_map(m), "tool_call_id"@) == Some(m.tool_call_id),
        m.tool_call_id.len() == 0 ==> lookup(history_message_map(m), "tool_call_id"@) is None,
{
    reveal_strlit("role");
    reveal_strlit("content");
    reveal_strlit("tool_call_id");
    assert("role"@.len() != "content"@.len());
    assert("role"@.len() != "tool_call_id"@.len());
    assert("content"@.len() != "tool_call_id"@.len());
    let s = history_message_map(m);
    assert(distinct_keys(s));
    lemma_lookup_at(s, "role"@, 0);
    lemma_lookup_at(s, "content"@, 1);
    if m.tool_call_id.len() > 0 {
        lemma_lookup_at(s, "tool_call_id"@, 2);
    } else {
        lemma_lookup_absent(s, "tool_call_id"@);
    }
}

/// The payload carries what it was built from: the model, the messages, and
/// exactly the tools, the tool choice (by its API name) and the response
/// format that were given, each under its own member; a part that was not
/// given is absent.
pub proof fn law_payload_members(
    model: Seq<char>,
    messages: Seq<Seq<(Seq<char>, Seq<char>)>>,
    tool_choice: Option<ChoiceTool>,
    tools: Option<Seq<JsonView>>,
    response_format: Option<JsonView>,
)
    ensures
        json_get(payload_json(model, messages, tool_choice, tools, response_format), "model"@)
            == Some(JsonView::Str(model)),
        json_get(payload_json(model, messages, tool_choice, tools, response_format), "messages"@)
            == Some(maps_json(messages)),
        json_get(payload_json(model, messages, tool_choice, tools, response_format), "tools"@)
            == (match tools {
            Some(ts) => Some(JsonView::Array(ts)),
            None => None,
        }),
        json_get(payload_json(model, messages, tool_choice, tools, response_format), "tool_choice"@)
            == (match tool_choice {
            Some(c) => Some(JsonView::Str(choice_tool_name(c))),
            None => None,
        }),
        json_get(payload_json(model, messages, tool_choice, tools, response_format), "response_format"@)
            == response_format,
        choice_tool_name(ChoiceTool::NoTool) == "none"@,
        choice_tool_name(ChoiceTool::Auto) == "auto"@,
        choice_tool_name(ChoiceTool::Required) == "required"@,
{
    reveal_strlit("model");
    reveal_strlit("provider");
    reveal_strlit("messages");
    reveal_strlit("tools");
    reveal_strlit("tool_choice");
    reveal_strlit("response_format");
    assert("model"@.len() != "provider"@.len());
    assert("model"@.len() != "messages"@.len());
    assert("model"@[0] != "tools"@[0]);
    assert("model"@.len() != "tool_choice"@.len());
    assert("model"@.len() != "response_format"@.len());
    assert("provider"@[0] != "messages"@[0]);
    assert("provider"@.len() != "tools"@.len());
    assert("provider"@.len() != "tool_choice"@.len());
    assert("provider"@.len() != "response_format"@.len());
    assert("messages"@.len() != "tools"@.len());
    assert("messages"@.len() != "tool_choice"@.len());
    assert("messages"@.len() != "response_format"@.len());
    assert("tools"@.len() != "tool_choice"@.len());
    assert("tools"@.len() != "response_format"@.len());
    assert("tool_choice"@.len() != "response_format"@.len());
    if tools is Some && tool_choice is Some && response_format is Some {
        let m = seq![("model"@, JsonView::Str(model)), ("provider"@, provider_json()), ("messages"@, maps_json(messages)), ("tools"@, JsonView::Array(tools->Some_0)), ("tool_choice"@, JsonView::Str(choice_tool_name(tool_choice->Some_0))), ("response_format"@, response_format->Some_0)];
        assert(payload_json(model, messages, tool_choice, tools, response_format)->Object_0 =~= m);
        lemma_members_get_first(m, "model"@, 0);
        lemma_members_get_first(m, "messages"@, 2);
        lemma_members_get_first(m, "tools"@, 3);
        lemma_members_get_first(m, "tool_choice"@, 4);
        lemma_members_get_first(m, "response_format"@, 5);
    }
    if tools is Some && tool_choice is Some && response_format is None {
        let m = seq![("model"@, JsonView::Str(model)), ("provider"@, provider_json()), ("messages"@, maps_json(messages)), ("tools"@, JsonView::Array(tools->Some_0)), ("tool_choice"@, JsonView::Str(choice_tool_name(tool_choice->Some_0)))];
        assert(payload_json(model, messages, tool_choice, tools, response_format)->Object_0 =~= m);
        lemma_members_get_first(m, "model"@, 0);
        lemma_members_get_first(m, "messages"@, 2);
        lemma_members_get_first(m, "tools"@, 3);
        lemma_members_get_first(m, "tool_choice"@, 4);
        lemma_members_get_none(m, "response_format"@);
    }
    if tools is Some && tool_choice is None && response_format is Some {
        let m = seq![("model"@, JsonView::Str(model)), ("provider"@, provider_json()), ("messages"@, maps_json(messages)), ("tools"@, JsonView::Array(tools->Some_0)), ("response_format"@, response_format->Some_0)];
        assert(payload_json(model, messages, tool_choice, tools, response_format)->Object_0 =~= m);
        lemma_members_get_first(m, "model"@, 0);
        lemma_members_get_first(m, "messages"@, 2);
        lemma_members_get_first(m, "tools"@, 3);
        lemma_members_get_none(m, "tool_choice"@);
        lemma_members_get_first(m, "response_format"@, 4);
    }
    if tools is Some && tool_choice is None && response_format is None {
        let m = seq![("model"@, JsonView::Str(model)), ("provider"@, provider_json()), ("messages"@, maps_json(messages)), ("tools"@, JsonView::Array(tools->Some_0))];
        assert(payload_json(model, messages, tool_choice, tools, response_format)->Object_0 =~= m);
        lemma_members_get_first(m, "model"@, 0);
        lemma_members_get_first(m, "messages"@, 2);
        lemma_members_get_first(m, "tools"@, 3);
        lemma_members_get_none(m, "tool_choice"@);
        lemma_members_get_none(m, "response_format"@);
    }
    if tools is None && tool_choice is Some && response_format is Some {
        let m = seq![("model"@, JsonView::Str(model)), ("provider"@, provider_json()), ("messages"@, maps_json(messages)), ("tool_choice"@, JsonView::Str(choice_tool_name(tool_choice->Some_0))), ("response_format"@, response_format->Some_0)];
        assert(payload_json(model, messages, tool_choice, tools, response_format)->Object_0 =~= m);
        lemma_members_get_first(m, "model"@, 0);
        lemma_members_get_first(m, "messages"@, 2);
        lemma_members_get_none(m, "tools"@);
        lemma_members_get_first(m, "tool_choice"@, 3);
        lemma_members_get_first(m, "response_format"@, 4);
    }
    if tools is None && tool_choice is Some && response_format is None {
        let m = seq![("model"@, JsonView::Str(model)), ("provider"@, provider_json()), ("messages"@, maps_json(messages)), ("tool_choice"@, JsonView::Str(choice_tool_name(tool_choice->Some_0)))];
        assert(payload_json(model, messages, tool_choice, tools, response_format)->Object_0 =~= m);
        lemma_members_get_first(m, "model"@, 0);
        lemma_members_get_first(m, "messages"@, 2);
        lemma_members_get_none(m, "tools"@);
        lemma_members_get_first(m, "tool_choice"@, 3);
        lemma_members_get_none(m, "response_format"@);
    }
    if tools is None && tool_choice is None && response_format is Some {
        let m = seq![("model"@, JsonView::Str(model)), ("provider"@, provider_json()), ("messages"@, maps_json(messages)), ("response_format"@, response_format->Some_0)];
        assert(payload_json(model, messages, tool_choice, tools, response_format)->Object_0 =~= m);
        lemma_members_get_first(m, "model"@, 0);
        lemma_members_get_first(m, "messages"@, 2);
        lemma_members_get_none(m, "tools"@);
        lemma_members_get_none(m, "tool_choice"@);
        lemma_members_get_first(m, "response_format"@, 3);
    }
    if tools is None && tool_choice is None && response_format is None {
        let m = seq![("model"@, JsonView::Str(model)), ("provider"@, provider_json()), ("messages"@, maps_json(messages))];
        assert(payload_json(model, messages, tool_choice, tools, response_format)->Object_0 =~= m);
        lemma_members_get_first(m, "model"@, 0);
        lemma_members_get_first(m, "messages"@, 2);
        lemma_members_get_none(m, "tools"@);
        lemma_members_get_none(m, "tool_choice"@);
        lemma_members_get_none(m, "response_format"@);
    }
}

} // verus!
