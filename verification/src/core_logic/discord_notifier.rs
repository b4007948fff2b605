//! Notifying the human on a Discord channel: the message posted, and what a
//! reply's status means.
use vstd::prelude::*;
use crate::core_logic::errors::AppError;
use crate::json::{JsonValue, JsonView, make_object};

verus! {

/// `{"content": <message>}`.
pub open spec fn notification_json(message: Seq<char>) -> JsonView {
    JsonView::Object(seq![("content"@, JsonView::Str(message))])
}

/// The body posted to the channel's webhook.
pub fn notification_payload(message: &str) -> (r: JsonValue)
    ensures
        r@ == notification_json(message@),
{
    let mut m: Vec<(String, JsonValue)> = Vec::new();
    m.push((String::from_str("content"), JsonValue::Str(message.to_owned())));
    assert(m@.map_values(|p: (String, JsonValue)| (p.0@, p.1@)) =~= seq![("content"@, JsonView::Str(message@))]);
    make_object(m)
}

/// A reply other than `200 OK` is a `Notify` error carrying the status's text.
pub fn check_notification_status(status: u16, status_text: &str) -> (r: Result<(), AppError>)
    ensures
        status == 200 ==> r is Ok,
        status != 200 ==> (r matches Err(AppError::Notify(m)) && m@ == status_text@),
{
    if status != 200 {
        Err(AppError::Notify(status_text.to_owned()))
    } else {
        Ok(())
    }
}

} // verus!
