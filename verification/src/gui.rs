//! State of the graphical front end.
//!
//! The window shows a greeting, a button that opens a native file
//! dialog filtered to `.stl` files, and — once a file has been chosen —
//! a label naming it. Everything the window decides is here:
//! [`AppState`] is the state behind the widgets, [`has_stl_extension`]
//! is the dialog's filter, and the label text comes from
//! [`AppState::display_label`]. The event loop around it only renders
//! and feeds events back in.

use vstd::prelude::*;
use vstd::string::StrSliceExecFns;
use vstd::string::StringExecFns;

verus! {

/// Whether a character sequence names an `.stl` file: it ends in
/// `.stl`, and the dot does not begin the final path component, so
/// that a file named just `.stl` (a bare dotfile, with an empty stem)
/// does not count.
pub open spec fn is_stl_path(s: Seq<char>) -> bool {
    &&& s.len() >= 5
    &&& s[s.len() - 4] == '.'
    &&& s[s.len() - 3] == 's'
    &&& s[s.len() - 2] == 't'
    &&& s[s.len() - 1] == 'l'
    &&& s[s.len() - 5] != '/'
}

/// The file dialog's filter: whether a path names an `.stl` file.
pub fn has_stl_extension(path: &str) -> (r: bool)
    ensures
        r == is_stl_path(path@),
{
    let n = path.unicode_len();
    if n < 5 {
        return false;
    }
    path.get_char(n - 4) == '.' && path.get_char(n - 3) == 's' && path.get_char(n - 2) == 't'
        && path.get_char(n - 1) == 'l' && path.get_char(n - 5) != '/'
}

/// The label shown once a file is loaded.
pub open spec fn loaded_label(path: Seq<char>) -> Seq<char> {
    "Loaded STL file: "@ + path
}

/// The text of the label for a loaded file.
pub fn loaded_label_text(path: &str) -> (r: String)
    ensures
        r@ == loaded_label(path@),
{
    let mut text: String = "Loaded STL file: ".to_owned();
    text.append(path);
    text
}

/// What the window remembers between frames: whether an STL file has
/// been loaded, and which.
pub struct AppState {
    pub stl_loaded: bool,
    pub stl_path: Option<String>,
}

/// A state is well formed when the flag and the remembered path agree:
/// a path is kept exactly while a file counts as loaded.
pub open spec fn state_wf(s: AppState) -> bool {
    s.stl_loaded <==> s.stl_path is Some
}

/// The state after a path has been picked in the dialog: a path naming
/// an `.stl` file becomes the loaded file; any other path (which the
/// dialog's filter keeps from being picked) changes nothing.
pub open spec fn select_spec(s: AppState, path: String) -> AppState {
    if is_stl_path(path@) {
        AppState { stl_loaded: true, stl_path: Some(path) }
    } else {
        s
    }
}

/// The label the window displays: the name of the loaded file, or
/// nothing while no file is loaded.
pub open spec fn label_spec(s: AppState) -> Option<Seq<char>> {
    if s.stl_loaded && s.stl_path is Some {
        Some(loaded_label(s.stl_path->0@))
    } else {
        None
    }
}

impl AppState {
    /// The state the window opens with: no file loaded.
    pub fn new() -> (s: AppState)
        ensures
            !s.stl_loaded,
            s.stl_path is None,
            state_wf(s),
    {
        AppState { stl_loaded: false, stl_path: None }
    }

    /// Take the path picked in the file dialog. Only a path naming an
    /// `.stl` file is accepted; any other leaves the state as it was.
    pub fn select_file(&mut self, path: String)
        ensures
            *final(self) == select_spec(*old(self), path),
            state_wf(*old(self)) ==> state_wf(*final(self)),
    {
        if has_stl_extension(path.as_str()) {
            self.stl_path = Some(path);
            self.stl_loaded = true;
        }
    }

    /// The label to display, if any: the name of the loaded file.
    pub fn display_label(&self) -> (r: Option<String>)
        ensures
            r is Some <==> label_spec(*self) is Some,
            r matches Some(text) ==> label_spec(*self) == Some(text@),
    {
        if self.stl_loaded {
            match &self.stl_path {
                Some(path) => Some(loaded_label_text(path.as_str())),
                None => None,
            }
        } else {
            None
        }
    }
}

impl Default for AppState {
    /// The state the window opens with: no file loaded.
    fn default() -> (s: AppState)
        ensures
            !s.stl_loaded,
            s.stl_path is None,
            state_wf(s),
    {
        AppState::new()
    }
}

/// Picking a file in the dialog moves the display from no label to
/// `Loaded STL file: <path>` when the path names an `.stl` file, and
/// a path that does not is kept out by the filter: it leaves the
/// state, and so the absent label, unchanged.
pub proof fn lemma_selection_shows_label(s: AppState, path: String)
    requires
        !s.stl_loaded,
    ensures
        label_spec(s) is None,
        is_stl_path(path@) ==> label_spec(select_spec(s, path)) == Some(loaded_label(path@)),
        !is_stl_path(path@) ==> select_spec(s, path) == s,
{
}

} // verus!
