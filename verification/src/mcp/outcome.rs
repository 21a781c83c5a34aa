//! What a tool answers and records.
use vstd::prelude::*;
use vstd::string::*;

use crate::json::{JsonObject, JsonView};
use crate::text::option_view;

verus! {

/// A record of what a tool did.
#[derive(Debug)]
pub struct Interaction {
    pub tool: String,
    pub terminal_id: Option<String>,
    pub params: JsonObject,
    pub success: bool,
    pub summary: Option<String>,
}

/// A record of what a tool did, as text.
pub struct InteractionView {
    pub tool: Seq<char>,
    pub terminal_id: Option<Seq<char>>,
    pub params: Seq<(Seq<char>, JsonView)>,
    pub success: bool,
    pub summary: Option<Seq<char>>,
}

impl View for Interaction {
    type V = InteractionView;

    open spec fn view(&self) -> InteractionView {
        InteractionView {
            tool: self.tool@,
            terminal_id: option_view(self.terminal_id),
            params: self.params@,
            success: self.success,
            summary: option_view(self.summary),
        }
    }
}

/// What a tool answers, what it records, and whether it may have changed which
/// terminals there are.
#[derive(Debug)]
pub struct Outcome {
    pub reply: Result<String, String>,
    pub interaction: Option<Interaction>,
    pub list_changed: bool,
}

/// What a tool answers and records, as text.
pub struct OutcomeView {
    pub reply: Result<Seq<char>, Seq<char>>,
    pub interaction: Option<InteractionView>,
    pub list_changed: bool,
}

/// A result with its texts.
pub open spec fn result_view(res: Result<String, String>) -> Result<Seq<char>, Seq<char>> {
    match res {
        Ok(s) => Ok(s@),
        Err(e) => Err(e@),
    }
}

/// A result without a value, with the text of its error.
pub open spec fn unit_view(res: Result<(), String>) -> Result<(), Seq<char>> {
    match res {
        Ok(u) => Ok(u),
        Err(e) => Err(e@),
    }
}

impl View for Outcome {
    type V = OutcomeView;

    open spec fn view(&self) -> OutcomeView {
        OutcomeView {
            reply: result_view(self.reply),
            interaction: match self.interaction {
                Some(interaction) => Some(interaction@),
                None => None,
            },
            list_changed: self.list_changed,
        }
    }
}

/// The record of a tool that was used on the terminal `id`.
pub open spec fn record(
    tool: Seq<char>,
    id: Seq<char>,
    params: Seq<(Seq<char>, JsonView)>,
    summary: Seq<char>,
) -> InteractionView {
    InteractionView { tool, terminal_id: Some(id), params, success: true, summary: Some(summary) }
}

/// The answer of a tool that did its work on the terminal `id`.
pub open spec fn done(
    reply: Seq<char>,
    tool: Seq<char>,
    id: Seq<char>,
    params: Seq<(Seq<char>, JsonView)>,
    summary: Seq<char>,
) -> OutcomeView {
    OutcomeView {
        reply: Ok(reply),
        interaction: Some(record(tool, id, params, summary)),
        list_changed: false,
    }
}

/// The answer of a tool that failed without leaving a record.
pub open spec fn failed(message: Seq<char>) -> OutcomeView {
    OutcomeView { reply: Err(message), interaction: None, list_changed: false }
}

/// The record of a tool that was used on the terminal `id`.
pub(crate) fn make_record(tool: &str, id: &str, params: JsonObject, summary: String) -> (res:
    Interaction)
    ensures
        res@ == record(tool@, id@, params@, summary@),
{
    Interaction {
        tool: tool.to_string(),
        terminal_id: Some(id.to_string()),
        params,
        success: true,
        summary: Some(summary),
    }
}

/// The answer of a tool that did its work on the terminal `id`.
pub(crate) fn make_done(
    reply: String,
    tool: &str,
    id: &str,
    params: JsonObject,
    summary: String,
) -> (res: Outcome)
    ensures
        res@ == done(reply@, tool@, id@, params@, summary@),
{
    Outcome {
        reply: Ok(reply),
        interaction: Some(make_record(tool, id, params, summary)),
        list_changed: false,
    }
}

/// The answer of a tool that failed without leaving a record.
pub(crate) fn make_failed(message: String) -> (res: Outcome)
    ensures
        res@ == failed(message@),
{
    Outcome { reply: Err(message), interaction: None, list_changed: false }
}

/// `prefix` and `rest`, one behind the other.
pub(crate) fn joined(prefix: &str, rest: &str) -> (res: String)
    ensures
        res@ == prefix@ + rest@,
{
    let mut res = prefix.to_string();
    res.append(rest);
    res
}

} // verus!
