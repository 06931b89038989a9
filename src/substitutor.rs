use vstd::prelude::*;

use crate::substitute::substitute_spec;
use crate::variables::{
    VariablesError,
    document_colors,
    has_colors_table,
    substitute_text,
    toml_document,
};

verus! {

/// Why a file handle was closed.
#[derive(Debug, Clone, Copy, PartialEq, Eq, Structural)]
pub enum CloseMode {
    Any,
    Execute,
    Read,
    Write,
    Other,
}

/// A filesystem notification on a watched path, as the watch loop sees it.
#[derive(Debug, Clone, Copy, PartialEq, Eq, Structural)]
pub enum FsEvent {
    /// A file handle was closed.
    Closed(CloseMode),
    /// Any other kind of change: creation, modification, rename, removal, open.
    Changed,
    /// The watcher reported an error while observing the filesystem.
    Failed,
}

/// What the watch loop does with an event.
#[derive(Debug, Clone, Copy, PartialEq, Eq, Structural)]
pub enum WatchAction {
    /// Read both files, substitute and write the output.
    Substitute,
    /// Log the watcher's error and keep watching.
    ReportError,
    /// Nothing.
    Ignore,
}

/// The resolved paths of one run: the template, the variables document and
/// the output file.
pub struct Substitutor {
    pub template_file: String,
    pub variables_file: String,
    pub output_file: String,
}

impl Substitutor {
    pub fn new(template_file: String, variables_file: String, output_file: String) -> (r: Self)
        ensures
            r.template_file == template_file,
            r.variables_file == variables_file,
            r.output_file == output_file,
    {
        Substitutor { template_file, variables_file, output_file }
    }

    /// The decision for one event: only a close after writing triggers a
    /// substitution; a watcher error is reported; all else is ignored.
    pub fn on_event(&self, event: &FsEvent) -> (r: WatchAction)
        ensures
            (r == WatchAction::Substitute) <==> (*event == FsEvent::Closed(CloseMode::Write)),
            (r == WatchAction::ReportError) <==> (*event == FsEvent::Failed),
            (r == WatchAction::Ignore) <==> !(*event == FsEvent::Closed(CloseMode::Write)
                || *event == FsEvent::Failed),
    {
        match event {
            FsEvent::Closed(CloseMode::Write) => WatchAction::Substitute,
            FsEvent::Failed => WatchAction::ReportError,
            _ => WatchAction::Ignore,
        }
    }

    /// The output for the current contents of the template and the variables
    /// document: the template with the document's colors substituted.
    pub fn substitute_variables(&self, template: &str, variables: &str) -> (r: Result<
        String,
        VariablesError,
    >)
        ensures
            match r {
                Ok(out) => toml_document(variables@) is Some && out@ == substitute_spec(
                    template@,
                    document_colors(toml_document(variables@)->0),
                ) && (!has_colors_table(toml_document(variables@)->0) ==> out@ == template@),
                Err(e) => toml_document(variables@) is None && e == VariablesError::InvalidToml,
            },
    {
        substitute_text(template, variables)
    }
}

} // verus!
