//! Errors of the agent nodes, commands and channels.
use vstd::prelude::*;

verus! {

/// The errors of the agent engine; each carries its message.
/// Its display text is `display_text`: a fixed prefix per kind, then the message.
#[derive(Debug)]
pub enum AppError {
    Exit(String),
    Cli(String),
    Env(String),
    EnvSecret(String),
    Stream(String),
    Input(String),
    FileRead(String),
    Notify(String),
    Agent(String),
    Messages(String),
    Settings(String),
    Payload(String),
    FunctionParam(String),
    CustomJson(String),
    HistoryUpdate(String),
    AgentMachine(String),
    CreatePayloadMachine(String),
    CallApiMachine(String),
    PromptMachine(String),
    ApiCallEngine(String),
    PayloadEngine(String),
    AgentEngine(String),
    PromptEngine(String),
    GetPromptUserContentEngine(String),
    SchemaEngine(String),
    GetSchemaEngine(String),
    CreateToolEngine(String),
    ExecuteToolEngine(String),
    MessagesFormatEngine(String),
    CreateModelSettingsEngine(String),
    ResponseFormatPart(String),
    ToolLoopUntilFinalAnswer(String),
    StructureFinalOutputFromRaw(String),
    RequestAnalysisNode(String),
    Sre1AgentNode(String),
    Sre2AgentNode(String),
    AgentNode(String),
    EndNode(String),
    ChannelSendError(String),
    JoinError(String),
    UnknownNode(String),
    CommitCommandError(String),
    PullCommandError(String),
    MergeCommandError(String),
}

impl AppError {
    /// The text that the error displays: its kind's prefix, then its message.
    pub open spec fn display_text(&self) -> Seq<char> {
        match self {
            AppError::Exit(m) => "Exit: "@ + m@,
            AppError::Cli(m) => "cli error: "@ + m@,
            AppError::Env(m) => "Env Var Error: "@ + m@,
            AppError::EnvSecret(m) => "Env Var Error: "@ + m@,
            AppError::Stream(m) => "Stream Error: "@ + m@,
            AppError::Input(m) => "Input Error: "@ + m@,
            AppError::FileRead(m) => "Read File Error: "@ + m@,
            AppError::Notify(m) => "Discord Notifier Error: "@ + m@,
            AppError::Agent(m) => "Agent Error: "@ + m@,
            AppError::Messages(m) => "Message Formatting Error: "@ + m@,
            AppError::Settings(m) => "Settings Error: "@ + m@,
            AppError::Payload(m) => "Payload Error: "@ + m@,
            AppError::FunctionParam(m) => "Function Param Error: "@ + m@,
            AppError::CustomJson(m) => "(CustomJson) Error: "@ + m@,
            AppError::HistoryUpdate(m) => "History Message Update Error: "@ + m@,
            AppError::AgentMachine(m) => "Agent Creation Machine Error: "@ + m@,
            AppError::CreatePayloadMachine(m) => "Payload Creation Machine Error: "@ + m@,
            AppError::CallApiMachine(m) => "Call API Machine Error: "@ + m@,
            AppError::PromptMachine(m) => "Prompt Machine Error: "@ + m@,
            AppError::ApiCallEngine(m) => "Api Call Engine Error: "@ + m@,
            AppError::PayloadEngine(m) => "Payload Creation Engine Error: "@ + m@,
            AppError::AgentEngine(m) => "Agent Creation Engine Error: "@ + m@,
            AppError::PromptEngine(m) => "Prompt Engine Error: "@ + m@,
            AppError::GetPromptUserContentEngine(m) => "Get Prompt User/Content Engine Error: "@ + m@,
            AppError::SchemaEngine(m) => "Schema Creation Engine Error: "@ + m@,
            AppError::GetSchemaEngine(m) => "Get Schema Engine Error: "@ + m@,
            AppError::CreateToolEngine(m) => "Create Tool Creation Engine Error: "@ + m@,
            AppError::ExecuteToolEngine(m) => "Excecute Tool Creation Engine Error: "@ + m@,
            AppError::MessagesFormatEngine(m) => "Messages Formatting Engine Error: "@ + m@,
            AppError::CreateModelSettingsEngine(m) => "Model Settings Creation Engine Error: "@ + m@,
            AppError::ResponseFormatPart(m) => "Response Format Part Creation Engine Error: "@ + m@,
            AppError::ToolLoopUntilFinalAnswer(m) => "Tool Only Api Call Loop Engine Error: "@ + m@,
            AppError::StructureFinalOutputFromRaw(m) => "Structured Output Only Api Call Engine Error: "@ + m@,
            AppError::RequestAnalysisNode(m) => "Human Request Analysis Node Error: "@ + m@,
            AppError::Sre1AgentNode(m) => "Sre1 Agent Node Error: "@ + m@,
            AppError::Sre2AgentNode(m) => "Sre2 Agent Node Error: "@ + m@,
            AppError::AgentNode(m) => "Agent Node Error: "@ + m@,
            AppError::EndNode(m) => "End Node Error: "@ + m@,
            AppError::ChannelSendError(m) => "Channel Send Error: "@ + m@,
            AppError::JoinError(m) => "Channel Join Error: "@ + m@,
            AppError::UnknownNode(m) => "Channel Unknown Node Error: "@ + m@,
            AppError::CommitCommandError(m) => "Commit Command Error: "@ + m@,
            AppError::PullCommandError(m) => "Pull Command Error: "@ + m@,
            AppError::MergeCommandError(m) => "Merge Command Error: "@ + m@,
        }
    }

    /// The message that the error carries.
    pub open spec fn message(&self) -> Seq<char> {
        match self {
            AppError::Exit(m) => m@,
            AppError::Cli(m) => m@,
            AppError::Env(m) => m@,
            AppError::EnvSecret(m) => m@,
            AppError::Stream(m) => m@,
            AppError::Input(m) => m@,
            AppError::FileRead(m) => m@,
            AppError::Notify(m) => m@,
            AppError::Agent(m) => m@,
            AppError::Messages(m) => m@,
            AppError::Settings(m) => m@,
            AppError::Payload(m) => m@,
            AppError::FunctionParam(m) => m@,
            AppError::CustomJson(m) => m@,
            AppError::HistoryUpdate(m) => m@,
            AppError::AgentMachine(m) => m@,
            AppError::CreatePayloadMachine(m) => m@,
            AppError::CallApiMachine(m) => m@,
            AppError::PromptMachine(m) => m@,
            AppError::ApiCallEngine(m) => m@,
            AppError::PayloadEngine(m) => m@,
            AppError::AgentEngine(m) => m@,
            AppError::PromptEngine(m) => m@,
            AppError::GetPromptUserContentEngine(m) => m@,
            AppError::SchemaEngine(m) => m@,
            AppError::GetSchemaEngine(m) => m@,
            AppError::CreateToolEngine(m) => m@,
            AppError::ExecuteToolEngine(m) => m@,
            AppError::MessagesFormatEngine(m) => m@,
            AppError::CreateModelSettingsEngine(m) => m@,
            AppError::ResponseFormatPart(m) => m@,
            AppError::ToolLoopUntilFinalAnswer(m) => m@,
            AppError::StructureFinalOutputFromRaw(m) => m@,
            AppError::RequestAnalysisNode(m) => m@,
            AppError::Sre1AgentNode(m) => m@,
            AppError::Sre2AgentNode(m) => m@,
            AppError::AgentNode(m) => m@,
            AppError::EndNode(m) => m@,
            AppError::ChannelSendError(m) => m@,
            AppError::JoinError(m) => m@,
            AppError::UnknownNode(m) => m@,
            AppError::CommitCommandError(m) => m@,
            AppError::PullCommandError(m) => m@,
            AppError::MergeCommandError(m) => m@,
        }
    }

    /// Renders the error as its display text.
    pub fn to_display_string(&self) -> (r: String)
        ensures
            r@ == self.display_text(),
    {
        let (prefix, m): (&str, &String) = match self {
            AppError::Exit(m) => ("Exit: ", m),
            AppError::Cli(m) => ("cli error: ", m),
            AppError::Env(m) => ("Env Var Error: ", m),
            AppError::EnvSecret(m) => ("Env Var Error: ", m),
            AppError::Stream(m) => ("Stream Error: ", m),
            AppError::Input(m) => ("Input Error: ", m),
            AppError::FileRead(m) => ("Read File Error: ", m),
            AppError::Notify(m) => ("Discord Notifier Error: ", m),
            AppError::Agent(m) => ("Agent Error: ", m),
            AppError::Messages(m) => ("Message Formatting Error: ", m),
            AppError::Settings(m) => ("Settings Error: ", m),
            AppError::Payload(m) => ("Payload Error: ", m),
            AppError::FunctionParam(m) => ("Function Param Error: ", m),
            AppError::CustomJson(m) => ("(CustomJson) Error: ", m),
            AppError::HistoryUpdate(m) => ("History Message Update Error: ", m),
            AppError::AgentMachine(m) => ("Agent Creation Machine Error: ", m),
            AppError::CreatePayloadMachine(m) => ("Payload Creation Machine Error: ", m),
            AppError::CallApiMachine(m) => ("Call API Machine Error: ", m),
            AppError::PromptMachine(m) => ("Prompt Machine Error: ", m),
            AppError::ApiCallEngine(m) => ("Api Call Engine Error: ", m),
            AppError::PayloadEngine(m) => ("Payload Creation Engine Error: ", m),
            AppError::AgentEngine(m) => ("Agent Creation Engine Error: ", m),
            AppError::PromptEngine(m) => ("Prompt Engine Error: ", m),
            AppError::GetPromptUserContentEngine(m) => ("Get Prompt User/Content Engine Error: ", m),
            AppError::SchemaEngine(m) => ("Schema Creation Engine Error: ", m),
            AppError::GetSchemaEngine(m) => ("Get Schema Engine Error: ", m),
            AppError::CreateToolEngine(m) => ("Create Tool Creation Engine Error: ", m),
            AppError::ExecuteToolEngine(m) => ("Excecute Tool Creation Engine Error: ", m),
            AppError::MessagesFormatEngine(m) => ("Messages Formatting Engine Error: ", m),
            AppError::CreateModelSettingsEngine(m) => ("Model Settings Creation Engine Error: ", m),
            AppError::ResponseFormatPart(m) => ("Response Format Part Creation Engine Error: ", m),
            AppError::ToolLoopUntilFinalAnswer(m) => ("Tool Only Api Call Loop Engine Error: ", m),
            AppError::StructureFinalOutputFromRaw(m) => ("Structured Output Only Api Call Engine Error: ", m),
            AppError::RequestAnalysisNode(m) => ("Human Request Analysis Node Error: ", m),
            AppError::Sre1AgentNode(m) => ("Sre1 Agent Node Error: ", m),
            AppError::Sre2AgentNode(m) => ("Sre2 Agent Node Error: ", m),
            AppError::AgentNode(m) => ("Agent Node Error: ", m),
            AppError::EndNode(m) => ("End Node Error: ", m),
            AppError::ChannelSendError(m) => ("Channel Send Error: ", m),
            AppError::JoinError(m) => ("Channel Join Error: ", m),
            AppError::UnknownNode(m) => ("Channel Unknown Node Error: ", m),
            AppError::CommitCommandError(m) => ("Commit Command Error: ", m),
            AppError::PullCommandError(m) => ("Pull Command Error: ", m),
            AppError::MergeCommandError(m) => ("Merge Command Error: ", m),
        };
        let r = String::from_str(prefix);
        r.concat(m.as_str())
    }
}

} // verus!
