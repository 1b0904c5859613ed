//! The decisions of the tools that act in several steps: what to do next
//! once the editor has answered, and what to tell the caller at the end.

use vstd::prelude::*;
use vstd::string::*;
use crate::neovim::client::{CodeAction, Position, Range, TextEdit, WorkspaceEdit, PrepareRenameResult};
use crate::neovim::error::NeovimError;
use crate::server::registry::{NeovimMcpServer, ToolError, ToolErrorKind};
use crate::server::resources::is_fault;
use crate::server::targets::find_get_all_targets;

verus! {

/// Whether `outcome` passes on a session's failure `why` to the caller.
pub open spec fn passes_on<T>(outcome: Result<T, ToolError>, why: NeovimError) -> bool {
    is_fault(outcome, ToolError::from_neovim_spec(why).0, ToolError::from_neovim_spec(why).1)
}

/// An invalid request with the given message.
fn invalid_request<T>(message: &str) -> (outcome: Result<T, ToolError>)
    ensures
        is_fault(outcome, ToolErrorKind::InvalidRequest, message@),
{
    Err(ToolError { kind: ToolErrorKind::InvalidRequest, message: String::from_str(message) })
}

/// The targets to report to a caller who asks for them: the targets that
/// were found, or an invalid request where there is none.
pub fn targets_found(targets: Vec<String>) -> (outcome: Result<Vec<String>, ToolError>)
    ensures
        if targets@.len() == 0 {
            is_fault(outcome, ToolErrorKind::InvalidRequest, "No Neovim targets found"@)
        } else {
            outcome == Ok::<Vec<String>, ToolError>(targets)
        },
{
    if targets.len() == 0 {
        invalid_request("No Neovim targets found")
    } else {
        Ok(targets)
    }
}

/// What a caller is told after a connection was opened or closed.
#[derive(Debug, Clone)]
pub struct ConnectionReport {
    pub connection_id: String,
    pub target: String,
    pub message: String,
}

/// The range between two positions given by their coordinates.
pub fn range_between(start_line: u64, start_character: u64, end_line: u64, end_character: u64) -> (range:
    Range)
    ensures
        range.start.line == start_line,
        range.start.character == start_character,
        range.end.line == end_line,
        range.end.character == end_character,
{
    Range {
        start: Position { line: start_line, character: start_character },
        end: Position { line: end_line, character: end_character },
    }
}

/// The line to jump to: the one that was asked for, or the first.
pub fn navigation_line(line: Option<u64>) -> (target: u64)
    ensures
        target == match line {
            Some(n) => n,
            None => 1,
        },
{
    match line {
        Some(n) => n,
        None => 1,
    }
}

impl NeovimMcpServer {
    /// Looks for the editor sockets that the configured socket path
    /// addresses and reports them; finding none is an invalid request.
    pub fn get_targets(&self) -> (outcome: Result<Vec<String>, ToolError>)
        ensures
            match outcome {
                Ok(targets) => targets@.len() > 0,
                Err(fault) => fault.has(ToolErrorKind::InvalidRequest, "No Neovim targets found"@),
            },
    {
        let mode = self.socket_mode();
        targets_found(find_get_all_targets(self.socket_path(), &mode))
    }

    /// Registers a session to `target`, given what the transport answered,
    /// and reports the connection to the caller. The registry changes as
    /// `connect_or_replace` says.
    pub fn connect(&mut self, target: &str, transport: Result<(), NeovimError>) -> (outcome: Result<
        ConnectionReport,
        ToolError,
    >)
        ensures
            old(self).wf() ==> final(self).wf(),
            final(self).path() == old(self).path(),
            final(self).mode() == old(self).mode(),
            match transport {
                Ok(_) => outcome matches Ok(report) && report.connection_id@
                    == crate::server::registry::connection_id(old(self).sessions(), target@)
                    && report.target@ == target@ && report.message@ == "Connected to Neovim at "@
                    + target@ && final(self).sessions() == old(self).sessions().insert(
                    report.connection_id@,
                    Some(target@),
                ),
                Err(why) => passes_on(outcome, why) && final(self).sessions()
                    == crate::server::registry::closed_under(
                    old(self).sessions(),
                    crate::server::registry::connection_id(old(self).sessions(), target@),
                ),
            },
    {
        match self.connect_or_replace(target, transport) {
            Ok(connection_id) => Ok(
                ConnectionReport {
                    connection_id,
                    target: String::from_str(target),
                    message: String::from_str("Connected to Neovim at ").concat(target),
                },
            ),
            Err(fault) => Err(fault),
        }
    }

    /// Registers a session to the TCP endpoint `address`; as `connect`.
    pub fn connect_tcp(&mut self, address: &str, transport: Result<(), NeovimError>) -> (outcome:
        Result<ConnectionReport, ToolError>)
        ensures
            old(self).wf() ==> final(self).wf(),
            final(self).path() == old(self).path(),
            final(self).mode() == old(self).mode(),
            match transport {
                Ok(_) => outcome matches Ok(report) && report.connection_id@
                    == crate::server::registry::connection_id(old(self).sessions(), address@)
                    && report.target@ == address@ && report.message@ == "Connected to Neovim at "@
                    + address@ && final(self).sessions() == old(self).sessions().insert(
                    report.connection_id@,
                    Some(address@),
                ),
                Err(why) => passes_on(outcome, why) && final(self).sessions()
                    == crate::server::registry::closed_under(
                    old(self).sessions(),
                    crate::server::registry::connection_id(old(self).sessions(), address@),
                ),
            },
    {
        self.connect(address, transport)
    }

    /// Removes the session under `connection_id` and reports the
    /// disconnection to the caller. The registry changes, and the call
    /// fails, as `remove` says.
    pub fn disconnect(&mut self, connection_id: &str) -> (outcome: Result<ConnectionReport, ToolError>)
        ensures
            old(self).wf() ==> final(self).wf(),
            final(self).path() == old(self).path(),
            final(self).mode() == old(self).mode(),
            final(self).sessions() == old(self).sessions().remove(connection_id@),
            crate::server::registry::is_removal(
                old(self).sessions(),
                connection_id@,
                match outcome {
                    Ok(report) => Ok(report.target),
                    Err(fault) => Err(fault),
                },
            ),
            outcome matches Ok(report) ==> report.connection_id@ == connection_id@ && report.message@
                == "Disconnected from Neovim at "@ + report.target@,
    {
        match self.remove(connection_id) {
            Ok(target) => {
                let message = String::from_str("Disconnected from Neovim at ").concat(
                    target.as_str(),
                );
                Ok(ConnectionReport { connection_id: String::from_str(connection_id), target, message })
            },
            Err(fault) => Err(fault),
        }
    }
}

/// What a tool hands to its caller on success.
#[derive(Debug, Clone)]
pub enum ToolOutput<T> {
    /// A message.
    Text(String),
    /// A value, to be shown as JSON.
    Json(T),
}

/// What organizing imports does next.
#[derive(Debug, Clone)]
pub enum OrganizeImportsStep {
    /// Nothing more: this goes to the caller.
    Finished(ToolOutput<Vec<CodeAction>>),
    /// The action has no edit yet: have the server resolve it.
    Resolve(CodeAction),
    /// Apply this workspace edit.
    Apply(WorkspaceEdit),
}

/// The first decision of organizing imports, on the code actions that were
/// found.
///
/// A failure of the query is passed on. Without actions the call ends in
/// success with a message that says so. Where the edits are not to be
/// applied, the actions go to the caller for inspection. Otherwise the
/// first action is taken: its edit is applied if it has one, and it is
/// resolved first if it has none.
pub fn organize_imports_start(actions: Result<Vec<CodeAction>, NeovimError>, apply_edits: bool) -> (outcome:
    Result<OrganizeImportsStep, ToolError>)
    ensures
        match actions {
            Err(why) => passes_on(outcome, why),
            Ok(found) => if found@.len() == 0 {
                outcome matches Ok(OrganizeImportsStep::Finished(ToolOutput::Text(message)))
                    && message@ == "No organize imports actions available for this document"@
            } else if !apply_edits {
                outcome matches Ok(OrganizeImportsStep::Finished(ToolOutput::Json(shown)))
                    && shown@ == found@
            } else {
                match found@[0].edit {
                    Some(edit) => outcome matches Ok(OrganizeImportsStep::Apply(e)) && e == edit,
                    None => outcome matches Ok(OrganizeImportsStep::Resolve(action)) && action
                        == found@[0],
                }
            },
        },
{
    match actions {
        Err(why) => Err(ToolError::from_neovim(why)),
        Ok(found) => {
            let mut found = found;
            if found.len() == 0 {
                Ok(
                    OrganizeImportsStep::Finished(
                        ToolOutput::Text(
                            String::from_str(
                                "No organize imports actions available for this document",
                            ),
                        ),
                    ),
                )
            } else if !apply_edits {
                Ok(OrganizeImportsStep::Finished(ToolOutput::Json(found)))
            } else {
                let action = found.swap_remove(0);
                if action.has_edit() {
                    match action.edit {
                        Some(edit) => Ok(OrganizeImportsStep::Apply(edit)),
                        None => Ok(OrganizeImportsStep::Resolve(action)),
                    }
                } else {
                    Ok(OrganizeImportsStep::Resolve(action))
                }
            }
        },
    }
}

/// The decision of organizing imports once the action has been resolved:
/// the edit of the resolved action is to be applied; an action that still
/// has no edit is an invalid request; a failure to resolve is passed on.
pub fn organize_imports_resolved(resolved: Result<CodeAction, NeovimError>) -> (outcome: Result<
    WorkspaceEdit,
    ToolError,
>)
    ensures
        match resolved {
            Err(why) => passes_on(outcome, why),
            Ok(action) => match action.edit {
                Some(edit) => outcome == Ok::<WorkspaceEdit, ToolError>(edit),
                None => is_fault(
                    outcome,
                    ToolErrorKind::InvalidRequest,
                    "Organize imports action does not contain workspace edit"@,
                ),
            },
        },
{
    match resolved {
        Err(why) => Err(ToolError::from_neovim(why)),
        Ok(action) => match action.edit {
            Some(edit) => Ok(edit),
            None => invalid_request("Organize imports action does not contain workspace edit"),
        },
    }
}

/// The message of success once an edit has been applied, or its failure
/// passed on.
fn finish_with(outcome_of_apply: Result<(), NeovimError>, message: &str) -> (outcome: Result<
    String,
    ToolError,
>)
    ensures
        match outcome_of_apply {
            Ok(_) => outcome matches Ok(text) && text@ == message@,
            Err(why) => passes_on(outcome, why),
        },
{
    match outcome_of_apply {
        Ok(_) => Ok(String::from_str(message)),
        Err(why) => Err(ToolError::from_neovim(why)),
    }
}

/// The end of organizing imports, once the edit has been applied: the
/// message of success, or the failure passed on.
pub fn organize_imports_applied(outcome_of_apply: Result<(), NeovimError>) -> (outcome: Result<
    String,
    ToolError,
>)
    ensures
        match outcome_of_apply {
            Ok(_) => outcome matches Ok(text) && text@ == "Imports organized successfully"@,
            Err(why) => passes_on(outcome, why),
        },
{
    finish_with(outcome_of_apply, "Imports organized successfully")
}

/// The decision of a rename on what preparing it gave: a position that the
/// server accepts lets the rename go on; a position that it does not accept,
/// and a failure to ask, are invalid requests.
pub fn rename_prepared(prepared: Result<Option<PrepareRenameResult>, NeovimError>) -> (outcome: Result<
    (),
    ToolError,
>)
    ensures
        match prepared {
            Ok(Some(_)) => outcome.is_ok(),
            Ok(None) => is_fault(
                outcome,
                ToolErrorKind::InvalidRequest,
                "Position is not renameable according to prepare rename"@,
            ),
            Err(why) => is_fault(
                outcome,
                ToolErrorKind::InvalidRequest,
                "Prepare rename failed: "@ + why.message_spec(),
            ),
        },
{
    match prepared {
        Ok(Some(_)) => Ok(()),
        Ok(None) => invalid_request("Position is not renameable according to prepare rename"),
        Err(why) => {
            let message = String::from_str("Prepare rename failed: ").concat(why.message().as_str());
            invalid_request(message.as_str())
        },
    }
}

/// The decision of a rename on the server's answer: the edit that it sent
/// is to be applied; no edit means that the rename is not valid there; a
/// failure is passed on.
pub fn rename_answered(answer: Result<Option<WorkspaceEdit>, NeovimError>) -> (outcome: Result<
    WorkspaceEdit,
    ToolError,
>)
    ensures
        match answer {
            Ok(Some(edit)) => outcome == Ok::<WorkspaceEdit, ToolError>(edit),
            Ok(None) => is_fault(
                outcome,
                ToolErrorKind::InvalidRequest,
                "Rename operation is not valid at this position"@,
            ),
            Err(why) => passes_on(outcome, why),
        },
{
    match answer {
        Ok(Some(edit)) => Ok(edit),
        Ok(None) => invalid_request("Rename operation is not valid at this position"),
        Err(why) => Err(ToolError::from_neovim(why)),
    }
}

/// The end of a rename, once its edit has been applied.
pub fn rename_applied(outcome_of_apply: Result<(), NeovimError>) -> (outcome: Result<
    String,
    ToolError,
>)
    ensures
        match outcome_of_apply {
            Ok(_) => outcome matches Ok(text) && text@ == "Rename completed successfully"@,
            Err(why) => passes_on(outcome, why),
        },
{
    finish_with(outcome_of_apply, "Rename completed successfully")
}

/// What formatting does with the edits that the server proposed.
#[derive(Debug, Clone)]
pub enum FormattingStep {
    /// Apply these edits to the document.
    Apply(Vec<TextEdit>),
    /// Hand the edits to the caller for inspection.
    Finished(Vec<TextEdit>),
}

/// The decision of formatting on the server's answer: the edits are
/// applied or handed to the caller, as the caller asked; a failure is
/// passed on.
pub fn formatting_answered(edits: Result<Vec<TextEdit>, NeovimError>, apply_edits: bool) -> (outcome:
    Result<FormattingStep, ToolError>)
    ensures
        match edits {
            Err(why) => passes_on(outcome, why),
            Ok(found) => if apply_edits {
                outcome matches Ok(FormattingStep::Apply(e)) && e == found
            } else {
                outcome matches Ok(FormattingStep::Finished(e)) && e == found
            },
        },
{
    match edits {
        Err(why) => Err(ToolError::from_neovim(why)),
        Ok(found) => if apply_edits {
            Ok(FormattingStep::Apply(found))
        } else {
            Ok(FormattingStep::Finished(found))
        },
    }
}

/// The end of formatting, once the edits have been applied; `ranged` tells
/// whether a range or the whole document was formatted.
pub fn formatting_applied(outcome_of_apply: Result<(), NeovimError>, ranged: bool) -> (outcome: Result<
    String,
    ToolError,
>)
    ensures
        match outcome_of_apply {
            Ok(_) => outcome matches Ok(text) && text@ == if ranged {
                "Range formatting applied successfully"@
            } else {
                "Formatting applied successfully"@
            },
            Err(why) => passes_on(outcome, why),
        },
{
    if ranged {
        finish_with(outcome_of_apply, "Range formatting applied successfully")
    } else {
        finish_with(outcome_of_apply, "Formatting applied successfully")
    }
}

} // verus!
