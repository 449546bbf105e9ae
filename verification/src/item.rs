//! The selected entry as the engine sees it, and what is derived from it.

use vstd::prelude::*;
use vstd::string::*;
use crate::text::same_text;

verus! {

/// A snapshot of one entry of the selection list.
#[derive(Clone, Debug, PartialEq, Eq)]
pub struct Item {
    /// Tag of the provider that produced the entry.
    pub provider: String,
    /// One of `text`, `pango`, `file`, `command`.
    pub preview_type: String,
    /// Literal text, markup, a file path or a shell command.
    pub preview: String,
    /// Fallback path or label.
    pub text: String,
    /// Identity by which the entry is matched against the selection.
    pub identity: u64,
}

/// The content types that have a renderer.
#[derive(Clone, Copy, Debug, PartialEq, Eq, Structural)]
pub enum PreviewKind {
    Text,
    Pango,
    File,
    Command,
}

/// The renderer that a preview type names, if any.
pub open spec fn kind_of_type(t: Seq<char>) -> Option<PreviewKind> {
    if t == "text"@ {
        Some(PreviewKind::Text)
    } else if t == "pango"@ {
        Some(PreviewKind::Pango)
    } else if t == "file"@ {
        Some(PreviewKind::File)
    } else if t == "command"@ {
        Some(PreviewKind::Command)
    } else {
        None
    }
}

/// Whether a provider is in the set of providers without preview.
pub open spec fn provider_ignored(ignored: Seq<String>, provider: Seq<char>) -> bool {
    exists|i: int| 0 <= i < ignored.len() && (#[trigger] ignored[i])@ == provider
}

/// Whether a path is absolute: it starts at the root.
pub open spec fn absolute_path(path: Seq<char>) -> bool {
    path.len() > 0 && path[0] == '/'
}

impl Item {
    /// The reuse key: preview type, payload and fallback text in a row.
    pub open spec fn fingerprint(&self) -> Seq<char> {
        self.preview_type@ + self.preview@ + self.text@
    }

    /// The path that a file preview shows: the payload, or the fallback text
    /// where the payload is empty.
    pub open spec fn file_target(&self) -> Seq<char> {
        if self.preview@.len() == 0 {
            self.text@
        } else {
            self.preview@
        }
    }

    /// Whether the selection is this entry.
    pub open spec fn selected_by(&self, selected: Option<u64>) -> bool {
        selected == Some(self.identity)
    }

    /// Computes the reuse key.
    pub fn content_fingerprint(&self) -> (key: String)
        ensures
            key@ == self.fingerprint(),
    {
        let mut key = String::from_str(self.preview_type.as_str());
        key.append(self.preview.as_str());
        key.append(self.text.as_str());
        key
    }

    /// The path that a file preview shows.
    pub fn target_path(&self) -> (path: &str)
        ensures
            path@ == self.file_target(),
    {
        if self.preview.as_str().unicode_len() == 0 {
            self.text.as_str()
        } else {
            self.preview.as_str()
        }
    }

    /// Whether the selection is this entry.
    pub fn is_selected(&self, selected: Option<u64>) -> (current: bool)
        ensures
            current == self.selected_by(selected),
    {
        match selected {
            Some(id) => id == self.identity,
            None => false,
        }
    }
}

/// Finds the renderer that a preview type names.
pub fn parse_preview_kind(t: &str) -> (kind: Option<PreviewKind>)
    ensures
        kind == kind_of_type(t@),
{
    if same_text(t, "text") {
        Some(PreviewKind::Text)
    } else if same_text(t, "pango") {
        Some(PreviewKind::Pango)
    } else if same_text(t, "file") {
        Some(PreviewKind::File)
    } else if same_text(t, "command") {
        Some(PreviewKind::Command)
    } else {
        None
    }
}

/// Looks a provider up in the set of providers without preview.
pub fn is_ignored(ignored: &Vec<String>, provider: &str) -> (found: bool)
    ensures
        found == provider_ignored(ignored@, provider@),
{
    let mut i: usize = 0;
    while i < ignored.len()
        invariant
            i <= ignored.len(),
            forall|j: int| 0 <= j < i ==> (#[trigger] ignored@[j])@ != provider@,
        decreases ignored.len() - i,
    {
        if same_text(ignored[i].as_str(), provider) {
            return true;
        }
        i += 1;
    }
    false
}

/// Tells whether a path is absolute.
pub fn is_absolute_path(path: &str) -> (absolute: bool)
    ensures
        absolute == absolute_path(path@),
{
    path.unicode_len() > 0 && path.get_char(0) == '/'
}

} // verus!
