//! The two settings: where the notes live and which editor opens them.

use crate::text::{join, join_path};
use vstd::prelude::*;

verus! {

/// The configuration record. Either field may be unset.
#[derive(Clone, Debug)]
pub struct NoteConfig {
    pub data_location: Option<String>,
    pub editor: Option<String>,
}

/// The characters of an optional string.
pub open spec fn opt_view(o: Option<String>) -> Option<Seq<char>> {
    match o {
        Some(s) => Some(s@),
        None => None,
    }
}

/// A setting after an update: the new value where one is given, else the
/// previous one.
pub open spec fn merged(previous: Option<Seq<char>>, given: Option<Seq<char>>) -> Option<Seq<char>> {
    match given {
        Some(v) => Some(v),
        None => previous,
    }
}

impl NoteConfig {
    /// The notes root, as characters.
    pub open spec fn root_view(&self) -> Option<Seq<char>> {
        opt_view(self.data_location)
    }

    /// The editor command, as characters.
    pub open spec fn editor_view(&self) -> Option<Seq<char>> {
        opt_view(self.editor)
    }

    /// A record with neither setting, as used before any has been saved.
    pub fn empty() -> (r: NoteConfig)
        ensures
            r.data_location.is_none(),
            r.editor.is_none(),
    {
        NoteConfig { data_location: None, editor: None }
    }

    /// Overwrites the settings that are given and keeps the others.
    pub fn update(&mut self, data_location: Option<String>, editor: Option<String>)
        ensures
            final(self).root_view() == merged(old(self).root_view(), opt_view(data_location)),
            final(self).editor_view() == merged(old(self).editor_view(), opt_view(editor)),
    {
        if let Some(d) = data_location {
            self.data_location = Some(d);
        }
        if let Some(e) = editor {
            self.editor = Some(e);
        }
    }
}

impl Default for NoteConfig {
    fn default() -> (r: NoteConfig)
        ensures
            r.data_location.is_none(),
            r.editor.is_none(),
    {
        NoteConfig::empty()
    }
}

/// An update that gives one setting leaves the other as it was.
pub proof fn lemma_partial_update_keeps_other(
    root: Option<Seq<char>>,
    editor: Option<Seq<char>>,
    given: Seq<char>,
)
    ensures
        merged(root, None) == root,
        merged(editor, Some(given)) == Some(given),
        merged(root, Some(given)) == Some(given),
        merged(editor, None) == editor,
{
}

/// Where the configuration lives under the user's configuration directory.
pub struct ConfigLocation {
    /// The directory of this tool's configuration.
    pub directory: String,
    /// The configuration file within it.
    pub file: String,
}

/// The directory `<base>/note` that holds the configuration.
pub open spec fn config_directory(base: Seq<char>) -> Seq<char> {
    join(base, "note"@)
}

/// The configuration file `<base>/note/noterc`.
pub open spec fn config_file(base: Seq<char>) -> Seq<char> {
    join(config_directory(base), "noterc"@)
}

/// The configuration's location under the configuration directory `base`.
pub fn config_location_in(base: &str) -> (r: ConfigLocation)
    ensures
        r.directory@ == config_directory(base@),
        r.file@ == config_file(base@),
{
    let directory = join_path(base, "note");
    let file = join_path(directory.as_str(), "noterc");
    ConfigLocation { directory, file }
}

/// The configuration's location under the user's configuration directory,
/// or `None` where the platform has none.
pub fn config_location() -> (r: Option<ConfigLocation>)
    ensures
        r.is_some() ==> exists|base: Seq<char>|
            r.unwrap().directory@ == config_directory(base) && r.unwrap().file@ == config_file(
                base,
            ),
{
    match user_config_dir() {
        Some(base) => Some(config_location_in(base.as_str())),
        None => None,
    }
}

/// Relies on dirs::config_dir: the platform's per-user configuration
/// directory, where there is one and its name is valid Unicode; the result
/// depends on the environment.
#[verifier::external_body]
fn user_config_dir() -> (r: Option<String>) {
    match dirs::config_dir() {
        Some(p) => p.into_os_string().into_string().ok(),
        None => None,
    }
}

} // verus!
