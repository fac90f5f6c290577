//! The course of an export of diagnostics: the archive is opened, its
//! description is added, then each file of the plan, then the warnings if
//! there are any, and the archive is finished.
//!
//! Everything that touches the file system is done by the caller:
//! [`export_diagnostics`] says what to do next and takes what came of it.
//! A file that cannot be added leaves a warning in the archive; everything
//! else that fails ends the export.

use crate::diagnostics::{
    check_export_path, entry_list, export_entries, export_path, export_plan, join_warnings,
    joined_lines, warning_line, warning_text, EntryView, ExportEntry, ExportError, META_ENTRY,
    WARNINGS_ENTRY,
};
use vstd::prelude::*;

verus! {

/// Where an export stands.
#[derive(Debug, PartialEq, Eq)]
pub enum ExportState {
    /// The archive is being created.
    Opening,
    /// The description of the export is being added.
    Describing,
    /// The file at this place of the plan is being added.
    Adding { index: usize },
    /// The warnings are being added.
    Noting,
    /// The archive is being finished.
    Finishing,
    /// The archive is written, or the export failed.
    Done(Result<(), String>),
}

/// Where an export stands, as a plain value.
pub enum ExportStateView {
    Opening,
    Describing,
    Adding { index: usize },
    Noting,
    Finishing,
    Done(Result<(), Seq<char>>),
}

impl View for ExportState {
    type V = ExportStateView;

    open spec fn view(&self) -> ExportStateView {
        match self {
            ExportState::Opening => ExportStateView::Opening,
            ExportState::Describing => ExportStateView::Describing,
            ExportState::Adding { index } => ExportStateView::Adding { index: *index },
            ExportState::Noting => ExportStateView::Noting,
            ExportState::Finishing => ExportStateView::Finishing,
            ExportState::Done(Ok(_)) => ExportStateView::Done(Ok(())),
            ExportState::Done(Err(reason)) => ExportStateView::Done(Err(reason@)),
        }
    }
}

/// What the caller is to do next. What comes of it is handed in as `Ok`, or
/// as `Err` with the text of the error.
#[derive(Debug, PartialEq, Eq)]
pub enum ExportAction {
    /// Create the directories that lead to the archive, and the archive.
    Open { archive: String },
    /// Add the description of the export under this name.
    Describe { entry_name: &'static str },
    /// Add this file, unless it does not exist; a file outside the data
    /// directory is an error.
    Add { entry: ExportEntry },
    /// Add the warnings under this name.
    Note { entry_name: &'static str, content: String },
    /// Finish the archive.
    Finish,
    /// The export is over.
    Done(Result<(), String>),
}

/// An action of the export as a plain value.
pub enum ExportActionView {
    Open { archive: Seq<char> },
    Describe { entry_name: Seq<char> },
    Add { entry: EntryView },
    Note { entry_name: Seq<char>, content: Seq<char> },
    Finish,
    Done(Result<(), Seq<char>>),
}

impl View for ExportAction {
    type V = ExportActionView;

    open spec fn view(&self) -> ExportActionView {
        match self {
            ExportAction::Open { archive } => ExportActionView::Open { archive: archive@ },
            ExportAction::Describe { entry_name } => ExportActionView::Describe {
                entry_name: entry_name@,
            },
            ExportAction::Add { entry } => ExportActionView::Add { entry: entry@ },
            ExportAction::Note { entry_name, content } => ExportActionView::Note {
                entry_name: entry_name@,
                content: content@,
            },
            ExportAction::Finish => ExportActionView::Finish,
            ExportAction::Done(Ok(_)) => ExportActionView::Done(Ok(())),
            ExportAction::Done(Err(reason)) => ExportActionView::Done(Err(reason@)),
        }
    }
}

/// An export as a plain value.
pub struct ExportView {
    /// The name of the archive.
    pub archive: Seq<char>,
    pub state: ExportStateView,
    /// The warnings so far, oldest first.
    pub warnings: Seq<Seq<char>>,
}

/// The export into the archive `archive`, at its start.
pub open spec fn export_start(archive: Seq<char>) -> ExportView {
    ExportView { archive, state: ExportStateView::Opening, warnings: Seq::empty() }
}

/// Where the export stands when the files before `index` are dealt with:
/// at the next file, or past the last one at the warnings, or without
/// warnings at the end.
pub open spec fn export_at(index: int, warnings: Seq<Seq<char>>) -> ExportStateView {
    if 0 <= index < export_entries().len() {
        ExportStateView::Adding { index: index as usize }
    } else if warnings.len() > 0 {
        ExportStateView::Noting
    } else {
        ExportStateView::Finishing
    }
}

/// The export that follows `export` when the pending action came to
/// `outcome`.
pub open spec fn export_next(export: ExportView, outcome: Result<(), Seq<char>>) -> ExportView {
    match export.state {
        ExportStateView::Opening => match outcome {
            Ok(_) => ExportView { state: ExportStateView::Describing, ..export },
            Err(reason) => ExportView { state: ExportStateView::Done(Err(reason)), ..export },
        },
        ExportStateView::Describing => match outcome {
            Ok(_) => ExportView { state: export_at(0, export.warnings), ..export },
            Err(reason) => ExportView { state: ExportStateView::Done(Err(reason)), ..export },
        },
        ExportStateView::Adding { index } => if index < export_entries().len() {
            let warnings = match outcome {
                Ok(_) => export.warnings,
                Err(reason) => export.warnings.push(
                    warning_text(export_entries()[index as int].label, reason),
                ),
            };
            ExportView { state: export_at(index + 1, warnings), warnings, ..export }
        } else {
            ExportView { state: export_at(index as int, export.warnings), ..export }
        },
        ExportStateView::Noting => ExportView { state: ExportStateView::Finishing, ..export },
        ExportStateView::Finishing => match outcome {
            Ok(_) => ExportView { state: ExportStateView::Done(Ok(())), ..export },
            Err(reason) => ExportView { state: ExportStateView::Done(Err(reason)), ..export },
        },
        ExportStateView::Done(_) => export,
    }
}

/// What an export asks of its caller.
pub open spec fn export_pending(export: ExportView) -> ExportActionView {
    match export.state {
        ExportStateView::Opening => ExportActionView::Open { archive: export.archive },
        ExportStateView::Describing => ExportActionView::Describe { entry_name: META_ENTRY@ },
        ExportStateView::Adding { index } => if index < export_entries().len() {
            ExportActionView::Add { entry: export_entries()[index as int] }
        } else {
            ExportActionView::Finish
        },
        ExportStateView::Noting => ExportActionView::Note {
            entry_name: WARNINGS_ENTRY@,
            content: joined_lines(export.warnings),
        },
        ExportStateView::Finishing => ExportActionView::Finish,
        ExportStateView::Done(result) => ExportActionView::Done(result),
    }
}

/// An export in progress.
pub struct Export {
    archive: String,
    state: ExportState,
    warnings: Vec<String>,
}

impl View for Export {
    type V = ExportView;

    closed spec fn view(&self) -> ExportView {
        ExportView {
            archive: self.archive@,
            state: self.state@,
            warnings: self.warnings@.map_values(|w: String| w@),
        }
    }
}

/// Where the export stands when the files before `index` are dealt with.
fn state_at(index: usize, warnings: &Vec<String>) -> (state: ExportState)
    ensures
        state@ == export_at(index as int, warnings@.map_values(|w: String| w@)),
{
    if index < 5 {
        ExportState::Adding { index }
    } else if warnings.len() > 0 {
        ExportState::Noting
    } else {
        ExportState::Finishing
    }
}

impl Export {
    /// Begins an export into the archive named `out_path` and says what to
    /// do first. The name is refused as `check_export_path` refuses it.
    pub fn start(out_path: &str) -> (r: Result<(Export, ExportAction), ExportError>)
        ensures
            match r {
                Ok(begun) => export_path(out_path@) is Ok && begun.0@ == export_start(
                    export_path(out_path@)->Ok_0,
                ) && begun.1@ == export_pending(begun.0@),
                Err(error) => export_path(out_path@) is Err && export_path(out_path@)->Err_0
                    == error,
            },
    {
        match check_export_path(out_path) {
            Ok(archive) => {
                let export = Export {
                    archive,
                    state: ExportState::Opening,
                    warnings: Vec::new(),
                };
                assert(export.warnings@.map_values(|w: String| w@) =~= Seq::empty());
                let action = export.action();
                Ok((export, action))
            },
            Err(error) => Err(error),
        }
    }

    /// The name of the archive.
    pub fn archive(&self) -> (name: &str)
        ensures
            name@ == self@.archive,
    {
        self.archive.as_str()
    }

    /// What the export asks of its caller.
    pub fn action(&self) -> (action: ExportAction)
        ensures
            action@ == export_pending(self@),
    {
        match &self.state {
            ExportState::Opening => ExportAction::Open { archive: self.archive.clone() },
            ExportState::Describing => ExportAction::Describe { entry_name: META_ENTRY },
            ExportState::Adding { index } => {
                let mut plan = export_plan();
                if *index < plan.len() {
                    let ghost whole = plan@;
                    let entry = plan.remove(*index);
                    assert(entry@ == entry_list(whole)[*index as int]);
                    ExportAction::Add { entry }
                } else {
                    ExportAction::Finish
                }
            },
            ExportState::Noting => match join_warnings(&self.warnings) {
                Some(content) => ExportAction::Note { entry_name: WARNINGS_ENTRY, content },
                None => ExportAction::Note { entry_name: WARNINGS_ENTRY, content: String::new() },
            },
            ExportState::Finishing => ExportAction::Finish,
            ExportState::Done(Ok(_)) => ExportAction::Done(Ok(())),
            ExportState::Done(Err(reason)) => ExportAction::Done(Err(reason.clone())),
        }
    }
}

/// Takes what came of the last action of an export and says what to do
/// next.
pub fn export_diagnostics(export: Export, outcome: Result<(), String>) -> (r: (
    Export,
    ExportAction,
))
    ensures
        r.0@ == export_next(export@, outcome_view(outcome)),
        r.1@ == export_pending(r.0@),
{
    let Export { archive, state, warnings } = export;
    let mut warnings = warnings;
    let next = match state {
        ExportState::Opening => match outcome {
            Ok(_) => ExportState::Describing,
            Err(reason) => ExportState::Done(Err(reason)),
        },
        ExportState::Describing => match outcome {
            Ok(_) => state_at(0, &warnings),
            Err(reason) => ExportState::Done(Err(reason)),
        },
        ExportState::Adding { index } => {
            let plan = export_plan();
            if index < plan.len() {
                match outcome {
                    Ok(_) => {},
                    Err(reason) => {
                        let ghost before = warnings@.map_values(|w: String| w@);
                        let line = warning_line(plan[index].label, reason.as_str());
                        assert(plan@[index as int]@ == entry_list(plan@)[index as int]);
                        warnings.push(line);
                        assert(warnings@.map_values(|w: String| w@) =~= before.push(
                            warning_text(export_entries()[index as int].label, reason@),
                        ));
                    },
                }
                state_at(index + 1, &warnings)
            } else {
                state_at(index, &warnings)
            }
        },
        ExportState::Noting => ExportState::Finishing,
        ExportState::Finishing => match outcome {
            Ok(_) => ExportState::Done(Ok(())),
            Err(reason) => ExportState::Done(Err(reason)),
        },
        ExportState::Done(result) => ExportState::Done(result),
    };
    let export = Export { archive, state: next, warnings };
    let action = export.action();
    (export, action)
}

/// What came of an action, as a plain value.
pub open spec fn outcome_view(outcome: Result<(), String>) -> Result<(), Seq<char>> {
    match outcome {
        Ok(_) => Ok(()),
        Err(reason) => Err(reason@),
    }
}

/// A sequence of `count` actions that all went well.
pub open spec fn successes(count: nat) -> Seq<Result<(), Seq<char>>> {
    Seq::new(count, |i: int| Ok(()))
}

/// The state of an export after a sequence of outcomes.
pub open spec fn export_run(export: ExportView, outcomes: Seq<Result<(), Seq<char>>>) -> ExportView
    decreases outcomes.len(),
{
    if outcomes.len() == 0 {
        export
    } else {
        export_run(export_next(export, outcomes[0]), outcomes.drop_first())
    }
}

/// An export that is over stays as it is.
pub proof fn lemma_export_done_is_final(export: ExportView, outcome: Result<(), Seq<char>>)
    requires
        export.state is Done,
    ensures
        export_next(export, outcome) == export,
{
}

/// A file that cannot be added never ends the export: it adds one warning,
/// and the export goes on to the next file or to the end.
pub proof fn lemma_failed_file_is_a_warning(export: ExportView, reason: Seq<char>)
    requires
        export.state is Adding,
        export.state->index < export_entries().len(),
    ensures
        !(export_next(export, Err(reason)).state is Done),
        export_next(export, Err(reason)).warnings == export.warnings.push(
            warning_text(export_entries()[export.state->index as int].label, reason),
        ),
        export_next(export, Ok(())).warnings == export.warnings,
{
}

/// An export in which nothing fails writes no warnings: it opens the
/// archive, describes it, adds the five files and finishes.
pub proof fn lemma_export_without_failures(archive: Seq<char>)
    ensures
        export_run(export_start(archive), successes(8)).state == ExportStateView::Done(Ok(())),
        export_run(export_start(archive), successes(8)).warnings.len() == 0,
{
    let all = successes(8);
    reveal_with_fuel(export_run, 9);
    assert(export_entries().len() == 5);
    let s0 = export_start(archive);
    let s1 = export_next(s0, all[0]);
    let s2 = export_next(s1, all[1]);
    let s3 = export_next(s2, all[2]);
    let s4 = export_next(s3, all[3]);
    let s5 = export_next(s4, all[4]);
    let s6 = export_next(s5, all[5]);
    let s7 = export_next(s6, all[6]);
    let s8 = export_next(s7, all[7]);
    assert(s8.state == ExportStateView::Done(Ok(())));
    let r1 = all.drop_first();
    let r2 = r1.drop_first();
    let r3 = r2.drop_first();
    let r4 = r3.drop_first();
    let r5 = r4.drop_first();
    let r6 = r5.drop_first();
    let r7 = r6.drop_first();
    let r8 = r7.drop_first();
    assert(r8.len() == 0);
    assert(r1[0] == all[1] && r2[0] == all[2] && r3[0] == all[3] && r4[0] == all[4] && r5[0]
        == all[5] && r6[0] == all[6] && r7[0] == all[7]);
}

} // verus!
