//! Opening a note: the settings are checked, the path resolved, a missing
//! note made from its template (the index excepted), and the editor asked
//! to open the file. The decisions are steps from what was learned to what
//! to do next; the file system and the editor are driven by the caller.

use crate::config::{opt_view, NoteConfig};
use crate::date::CalendarDate;
use crate::error::{error_view, ErrorKind, NoteError};
use crate::kind::NoteKind;
use crate::resolve::{note_file_path, note_path, template_file_path, template_path};
use crate::store::NoteStore;
use vstd::prelude::*;

verus! {

/// The editor to run and the file to hand it.
#[derive(Clone, Debug)]
pub struct EditorRequest {
    pub editor: String,
    pub path: String,
}

/// What an open of a note works with once the settings are known.
#[derive(Clone, Debug)]
pub struct OpenPlan {
    pub kind: NoteKind,
    /// The note's file.
    pub target: String,
    /// The template a missing note is made from, where the kind has one.
    pub template: Option<String>,
    /// The editor command.
    pub editor: String,
}

/// What to do next.
#[derive(Clone, Debug)]
pub enum Step {
    /// Run the editor on the file.
    Launch(EditorRequest),
    /// Copy the template's contents verbatim to the target, making its
    /// directories first.
    Instantiate { template: String, target: String },
    /// Stop and report.
    Fail(NoteError),
}

/// How copying a template to a new note failed.
#[derive(Clone, Copy, Debug, PartialEq, Eq, Structural)]
pub enum InstantiateFault {
    TemplateUnreadable,
    DirectoryCreateFailed,
    WriteFailed,
}

/// A successful open as (editor, path), or a failure as (kind, subject).
pub type OpenOutcome = Result<(Seq<char>, Seq<char>), (ErrorKind, Seq<char>)>;

/// The outcome of opening a note of `kind` on `date` with the given settings,
/// in a notes tree whose files are `files`.
pub open spec fn open_outcome(
    kind: NoteKind,
    root: Option<Seq<char>>,
    editor: Option<Seq<char>>,
    date: CalendarDate,
    files: Map<Seq<char>, Seq<char>>,
) -> OpenOutcome {
    match root {
        None => Err((ErrorKind::ConfigurationMissing, "data_location"@)),
        Some(r) => match editor {
            None => Err((ErrorKind::ConfigurationMissing, "editor"@)),
            Some(e) => {
                let p = note_path(kind, r, date);
                if files.dom().contains(p) {
                    Ok((e, p))
                } else {
                    match template_path(kind, r) {
                        None => Err((ErrorKind::FileNotFound, p)),
                        Some(t) => if files.dom().contains(t) {
                            Ok((e, p))
                        } else {
                            Err((ErrorKind::TemplateUnreadable, t))
                        },
                    }
                }
            },
        },
    }
}

/// The files after that open: a missing note of a templated kind is added
/// with its template's contents; nothing else changes.
pub open spec fn open_files(
    kind: NoteKind,
    root: Option<Seq<char>>,
    editor: Option<Seq<char>>,
    date: CalendarDate,
    files: Map<Seq<char>, Seq<char>>,
) -> Map<Seq<char>, Seq<char>> {
    match root {
        None => files,
        Some(r) => match editor {
            None => files,
            Some(e) => {
                let p = note_path(kind, r, date);
                if files.dom().contains(p) {
                    files
                } else {
                    match template_path(kind, r) {
                        None => files,
                        Some(t) => if files.dom().contains(t) {
                            files.insert(p, files[t])
                        } else {
                            files
                        },
                    }
                }
            },
        },
    }
}

/// A result of an open as an outcome.
pub open spec fn outcome_view(r: Result<EditorRequest, NoteError>) -> OpenOutcome {
    match r {
        Ok(req) => Ok((req.editor@, req.path@)),
        Err(e) => Err(error_view(e)),
    }
}

/// A step is the launch of `editor` on `path`.
pub open spec fn is_launch(s: Step, editor: Seq<char>, path: Seq<char>) -> bool {
    match s {
        Step::Launch(req) => req.editor@ == editor && req.path@ == path,
        _ => false,
    }
}

/// A step is the failure `kind` about `subject`.
pub open spec fn is_failure(s: Step, kind: ErrorKind, subject: Seq<char>) -> bool {
    match s {
        Step::Fail(e) => error_view(e) == (kind, subject),
        _ => false,
    }
}

fn failure(kind: ErrorKind, subject: &str) -> (r: NoteError)
    ensures
        error_view(r) == (kind, subject@),
{
    NoteError { kind, subject: String::from_str(subject) }
}

/// Checks the settings and resolves the note of `kind` for `date`.
pub fn plan_open(kind: NoteKind, config: &NoteConfig, date: CalendarDate) -> (r: Result<
    OpenPlan,
    NoteError,
>)
    requires
        date.wf(),
    ensures
        r.is_ok() == (config.data_location.is_some() && config.editor.is_some()),
        config.data_location.is_none() ==> r.is_err() && error_view(r->Err_0) == (
            ErrorKind::ConfigurationMissing,
            "data_location"@,
        ),
        config.data_location.is_some() && config.editor.is_none() ==> r.is_err() && error_view(
            r->Err_0,
        ) == (ErrorKind::ConfigurationMissing, "editor"@),
        r.is_ok() ==> r->Ok_0.kind == kind && r->Ok_0.target@ == note_path(
            kind,
            config.root_view().unwrap(),
            date,
        ) && opt_view(r->Ok_0.template) == template_path(kind, config.root_view().unwrap())
            && r->Ok_0.editor@ == config.editor_view().unwrap(),
{
    let root = match &config.data_location {
        Some(root) => root,
        None => {
            return Err(failure(ErrorKind::ConfigurationMissing, "data_location"));
        },
    };
    let editor = match &config.editor {
        Some(editor) => editor,
        None => {
            return Err(failure(ErrorKind::ConfigurationMissing, "editor"));
        },
    };
    let target = note_file_path(kind, root.as_str(), date);
    let template = template_file_path(kind, root.as_str());
    proof {
        assert(opt_view(template) == template_path(kind, root@));
    }
    Ok(OpenPlan { kind, target, template, editor: editor.clone() })
}

impl OpenPlan {
    /// The step once it is known whether the note's file exists: an existing
    /// note is opened; a missing one is made from its template, or, for a kind
    /// without one, reported as not found.
    pub fn next_step(&self, exists: bool) -> (r: Step)
        ensures
            exists ==> is_launch(r, self.editor@, self.target@),
            !exists && self.template.is_none() ==> is_failure(
                r,
                ErrorKind::FileNotFound,
                self.target@,
            ),
            !exists && self.template.is_some() ==> (match r {
                Step::Instantiate { template, target } => template@ == self.template.unwrap()@
                    && target@ == self.target@,
                _ => false,
            }),
    {
        if exists {
            Step::Launch(EditorRequest { editor: self.editor.clone(), path: self.target.clone() })
        } else {
            match &self.template {
                Some(template) => Step::Instantiate {
                    template: template.clone(),
                    target: self.target.clone(),
                },
                None => Step::Fail(failure(ErrorKind::FileNotFound, self.target.as_str())),
            }
        }
    }

    /// What follows the copy of the template, or its failure: the new note
    /// is opened, or the failure reported with the path concerned.
    pub fn after_instantiation(&self, fault: Option<InstantiateFault>) -> (r: Result<
        EditorRequest,
        NoteError,
    >)
        requires
            self.template.is_some(),
        ensures
            fault.is_none() ==> outcome_view(r) == Ok::<_, (ErrorKind, Seq<char>)>(
                (self.editor@, self.target@),
            ),
            fault == Some(InstantiateFault::TemplateUnreadable) ==> outcome_view(r) == Err::<
                (Seq<char>, Seq<char>),
                _,
            >((ErrorKind::TemplateUnreadable, self.template.unwrap()@)),
            fault == Some(InstantiateFault::DirectoryCreateFailed) ==> outcome_view(r) == Err::<
                (Seq<char>, Seq<char>),
                _,
            >((ErrorKind::DirectoryCreateFailed, self.target@)),
            fault == Some(InstantiateFault::WriteFailed) ==> outcome_view(r) == Err::<
                (Seq<char>, Seq<char>),
                _,
            >((ErrorKind::WriteFailed, self.target@)),
    {
        match fault {
            None => Ok(EditorRequest { editor: self.editor.clone(), path: self.target.clone() }),
            Some(InstantiateFault::TemplateUnreadable) => {
                let template = self.template.as_ref().unwrap();
                Err(failure(ErrorKind::TemplateUnreadable, template.as_str()))
            },
            Some(InstantiateFault::DirectoryCreateFailed) => Err(
                failure(ErrorKind::DirectoryCreateFailed, self.target.as_str()),
            ),
            Some(InstantiateFault::WriteFailed) => Err(
                failure(ErrorKind::WriteFailed, self.target.as_str()),
            ),
        }
    }
}

impl EditorRequest {
    /// The failure to report when the editor could not be started.
    pub fn launch_failed(&self) -> (r: NoteError)
        ensures
            error_view(r) == (ErrorKind::EditorLaunchFailed, self.editor@),
    {
        failure(ErrorKind::EditorLaunchFailed, self.editor.as_str())
    }
}

/// Opens the note of `kind` for `date` in the notes tree `store`: the steps
/// of an open, with the store's files as the file system. Returns what the
/// editor is to be run on.
pub fn handle_note(store: &mut NoteStore, kind: NoteKind, config: &NoteConfig, date: CalendarDate) -> (r:
    Result<EditorRequest, NoteError>)
    requires
        date.wf(),
    ensures
        outcome_view(r) == open_outcome(
            kind,
            config.root_view(),
            config.editor_view(),
            date,
            old(store)@,
        ),
        final(store)@ == open_files(
            kind,
            config.root_view(),
            config.editor_view(),
            date,
            old(store)@,
        ),
{
    let plan = match plan_open(kind, config, date) {
        Ok(plan) => plan,
        Err(e) => {
            return Err(e);
        },
    };
    let exists = store.contains(&plan.target);
    match plan.next_step(exists) {
        Step::Launch(req) => Ok(req),
        Step::Fail(e) => Err(e),
        Step::Instantiate { template, target } => {
            let fault = match store.read(&template) {
                Some(content) => {
                    store.write(target, content);
                    None
                },
                None => Some(InstantiateFault::TemplateUnreadable),
            };
            plan.after_instantiation(fault)
        },
    }
}

/// Opening a missing day note, with its template present, creates it with
/// the template's contents verbatim and hands it to the editor.
pub proof fn lemma_new_day_note_copies_template(
    root: Seq<char>,
    editor: Seq<char>,
    date: CalendarDate,
    files: Map<Seq<char>, Seq<char>>,
)
    requires
        !files.dom().contains(note_path(NoteKind::Day, root, date)),
        files.dom().contains(template_path(NoteKind::Day, root).unwrap()),
    ensures
        open_outcome(NoteKind::Day, Some(root), Some(editor), date, files) == Ok::<
            _,
            (ErrorKind, Seq<char>),
        >((editor, note_path(NoteKind::Day, root, date))),
        open_files(NoteKind::Day, Some(root), Some(editor), date, files)[note_path(
            NoteKind::Day,
            root,
            date,
        )] == files[template_path(NoteKind::Day, root).unwrap()],
{
}

/// A note is made from its template at most once: opening it a second time
/// finds it, changes no file, and opens the same path.
pub proof fn lemma_second_open_changes_nothing(
    kind: NoteKind,
    root: Seq<char>,
    editor: Seq<char>,
    date: CalendarDate,
    files: Map<Seq<char>, Seq<char>>,
)
    requires
        open_outcome(kind, Some(root), Some(editor), date, files).is_ok(),
    ensures
        ({
            let after = open_files(kind, Some(root), Some(editor), date, files);
            &&& after.dom().contains(note_path(kind, root, date))
            &&& open_files(kind, Some(root), Some(editor), date, after) == after
            &&& open_outcome(kind, Some(root), Some(editor), date, after) == open_outcome(
                kind,
                Some(root),
                Some(editor),
                date,
                files,
            )
        }),
{
}

/// Opening a missing index note creates nothing, whether or not an editor
/// is configured. With one, the note is reported as not found; without one,
/// the missing setting is reported first.
pub proof fn lemma_missing_index_not_created(
    root: Seq<char>,
    editor: Option<Seq<char>>,
    date: CalendarDate,
    files: Map<Seq<char>, Seq<char>>,
)
    requires
        !files.dom().contains(note_path(NoteKind::Index, root, date)),
    ensures
        open_files(NoteKind::Index, Some(root), editor, date, files) == files,
        editor.is_some() ==> open_outcome(NoteKind::Index, Some(root), editor, date, files)
            == Err::<(Seq<char>, Seq<char>), _>(
            (ErrorKind::FileNotFound, note_path(NoteKind::Index, root, date)),
        ),
        editor.is_none() ==> open_outcome(NoteKind::Index, Some(root), editor, date, files)
            == Err::<(Seq<char>, Seq<char>), _>((ErrorKind::ConfigurationMissing, "editor"@)),
{
}

} // verus!
