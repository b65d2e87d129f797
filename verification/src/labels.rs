//! The short texts that a front end shows for the state: labels, icons and
//! shortened previews.
use crate::api::{ContextKnowledge, ContextKnowledgeView};
use crate::models::{ConnectionStatus, ConnectionView, MessageRole, ToolStatus};
use crate::text::{chars_of, push_chars};
use vstd::prelude::*;

verus! {

/// The name under which messages of the role `role` are shown.
pub open spec fn role_label_text(role: MessageRole) -> Seq<char> {
    match role {
        MessageRole::User => "You"@,
        MessageRole::Assistant => "Assistant"@,
        MessageRole::System => "System"@,
    }
}

/// The name under which messages of the role `role` are shown.
pub fn role_label(role: MessageRole) -> (r: &'static str)
    ensures
        r@ == role_label_text(role),
{
    match role {
        MessageRole::User => "You",
        MessageRole::Assistant => "Assistant",
        MessageRole::System => "System",
    }
}

/// The icon of a tool call with the status `status`.
pub open spec fn status_icon_text(status: ToolStatus) -> Seq<char> {
    match status {
        ToolStatus::Running => "⏳"@,
        ToolStatus::Completed => "✅"@,
        ToolStatus::Failed => "❌"@,
    }
}

/// The icon of a tool call with the status `status`.
pub fn status_icon(status: ToolStatus) -> (r: &'static str)
    ensures
        r@ == status_icon_text(status),
{
    match status {
        ToolStatus::Running => "⏳",
        ToolStatus::Completed => "✅",
        ToolStatus::Failed => "❌",
    }
}

/// What the header says of the link to the backend.
pub open spec fn connection_label_text(status: ConnectionView) -> Seq<char> {
    match status {
        ConnectionView::Connected => "Connected"@,
        ConnectionView::Connecting => "Connecting..."@,
        ConnectionView::Disconnected => "Disconnected"@,
        ConnectionView::Error(_) => "Error"@,
    }
}

/// What the header says of the link to the backend.
pub fn connection_label(status: &ConnectionStatus) -> (r: &'static str)
    ensures
        r@ == connection_label_text(status@),
{
    match status {
        ConnectionStatus::Connected => "Connected",
        ConnectionStatus::Connecting => "Connecting...",
        ConnectionStatus::Disconnected => "Disconnected",
        ConnectionStatus::Error(_) => "Error",
    }
}

/// What an unfolded tool call shows as its result: the result if there is
/// one, else a word on why there is none.
pub open spec fn result_text(result: Option<Seq<char>>, status: ToolStatus) -> Seq<char> {
    match result {
        Some(r) => r,
        None => if status == ToolStatus::Running {
            "Executing..."@
        } else {
            "No result"@
        },
    }
}

/// What an unfolded tool call shows as its result.
pub fn result_label(result: &Option<String>, status: ToolStatus) -> (r: String)
    ensures
        r@ == result_text(crate::api::opt_view(*result), status),
{
    match result {
        Some(r) => r.clone(),
        None => match status {
            ToolStatus::Running => "Executing...".to_owned(),
            _ => "No result".to_owned(),
        },
    }
}

/// `text` cut to `limit` characters: a longer text keeps its first `limit`
/// characters, followed by three dots.
pub open spec fn shortened(text: Seq<char>, limit: nat) -> Seq<char> {
    if text.len() > limit {
        text.subrange(0, limit as int) + "..."@
    } else {
        text
    }
}

/// Cuts `text` to `limit` characters for a preview.
pub fn preview(text: &str, limit: usize) -> (r: String)
    ensures
        r@ == shortened(text@, limit as nat),
{
    let v = chars_of(text);
    if v.len() > limit {
        let mut out = String::new();
        push_chars(&mut out, &v, 0, limit);
        assert(out@ =~= text@.subrange(0, limit as int));
        out.append("...");
        out
    } else {
        text.to_owned()
    }
}

/// The line under the title: the model and its provider, or a general
/// name while the model is not known.
pub open spec fn subtitle_text(model: Seq<char>, provider: Seq<char>) -> Seq<char> {
    if model.len() == 0 {
        "AI Assistant"@
    } else {
        model + " • "@ + provider
    }
}

/// The line under the title.
pub fn agent_subtitle(model: &str, provider: &str) -> (r: String)
    ensures
        r@ == subtitle_text(model@, provider@),
{
    if model.is_empty() {
        "AI Assistant".to_owned()
    } else {
        let mut out = model.to_owned();
        out.append(" • ");
        out.append(provider);
        out
    }
}

/// A fact as the sidebar lists it: subject, predicate and object in
/// brackets.
pub open spec fn fact_text(k: ContextKnowledgeView) -> Seq<char> {
    "("@ + k.subject + ", "@ + k.predicate + ", "@ + k.object + ")"@
}

/// A fact as the sidebar lists it.
pub fn knowledge_label(k: &ContextKnowledge) -> (r: String)
    ensures
        r@ == fact_text(k@),
{
    let mut out = "(".to_owned();
    out.append(k.subject.as_str());
    out.append(", ");
    out.append(k.predicate.as_str());
    out.append(", ");
    out.append(k.object.as_str());
    out.append(")");
    out
}

} // verus!
