//! The settings of the note-taking side of the tool, as its configuration
//! source gives them.

use vstd::prelude::*;

verus! {

/// The settings that a configuration source holds.
#[derive(Clone, Debug, PartialEq, Eq)]
pub struct Settings {
    /// The directory that holds the notes.
    pub notes_dir: String,
    /// The author to put on new notes, if one is set.
    pub author: Option<String>,
}

/// [`Settings`] as a mathematical value.
pub struct SettingsView {
    pub notes_dir: Seq<char>,
    pub author: Option<Seq<char>>,
}

impl View for Settings {
    type V = SettingsView;

    open spec fn view(&self) -> SettingsView {
        SettingsView { notes_dir: self.notes_dir@, author: self.author.deep_view() }
    }
}

/// Why a configuration source does not give settings.
#[derive(Clone, Copy, Debug, PartialEq, Eq, Structural)]
pub enum SettingsError {
    /// The source has no `notes_dir`.
    MissingNotesDir,
}

/// The settings that a source with these two entries gives, each `None`
/// where the source lacks it. `notes_dir` is required, `author` is not.
pub open spec fn settings_of(notes_dir: Option<Seq<char>>, author: Option<Seq<char>>) -> Result<
    SettingsView,
    SettingsError,
> {
    match notes_dir {
        Some(dir) => Ok(SettingsView { notes_dir: dir, author }),
        None => Err(SettingsError::MissingNotesDir),
    }
}

impl Settings {
    /// Builds the settings from the entries `notes_dir` and `author` of a
    /// configuration source, each `None` where the source lacks it.
    pub fn new(notes_dir: Option<String>, author: Option<String>) -> (r: Result<
        Settings,
        SettingsError,
    >)
        ensures
            match settings_of(notes_dir.deep_view(), author.deep_view()) {
                Ok(settings) => r is Ok && r->Ok_0@ == settings,
                Err(error) => r is Err && r->Err_0 == error,
            },
    {
        match notes_dir {
            Some(dir) => Ok(Settings { notes_dir: dir, author }),
            None => Err(SettingsError::MissingNotesDir),
        }
    }
}

} // verus!
