//! Window metadata and the pattern predicate used by rules.
use vstd::prelude::*;

verus! {

/// What is known of a window: each field is absent when it could not be read.
#[derive(Debug, Clone, Default)]
pub struct WindowMetadata {
    pub title: Option<String>,
    pub class: Option<String>,
    /// Full image path of the owning process.
    pub exe: Option<String>,
}

/// Mathematical model of [`WindowMetadata`].
pub struct WindowMetadataView {
    pub title: Option<Seq<char>>,
    pub class: Option<Seq<char>>,
    pub exe: Option<Seq<char>>,
}

pub open spec fn text_view(o: Option<String>) -> Option<Seq<char>> {
    match o {
        Some(s) => Some(s@),
        None => None,
    }
}

impl View for WindowMetadata {
    type V = WindowMetadataView;

    open spec fn view(&self) -> WindowMetadataView {
        WindowMetadataView {
            title: text_view(self.title),
            class: text_view(self.class),
            exe: text_view(self.exe),
        }
    }
}

/// `needle` occurs as a contiguous run inside `hay`.
pub open spec fn is_substring(needle: Seq<char>, hay: Seq<char>) -> bool {
    exists|i: int|
        0 <= i && i + needle.len() <= hay.len() && #[trigger] hay.subrange(i, i + needle.len())
            == needle
}

/// A title or class pattern matches when it is set, non-empty, and found
/// inside the window's value.
pub open spec fn text_field_matches(pattern: Option<Seq<char>>, value: Option<Seq<char>>) -> bool {
    match (pattern, value) {
        (Some(p), Some(v)) => p.len() > 0 && is_substring(p, v),
        _ => false,
    }
}

/// An executable pattern matches when it is set and equal to the window's path.
pub open spec fn exact_field_matches(pattern: Option<Seq<char>>, value: Option<Seq<char>>) -> bool {
    match (pattern, value) {
        (Some(p), Some(v)) => p == v,
        _ => false,
    }
}

/// The pattern predicate: any populated field that matches is enough.
pub open spec fn pattern_matches(pattern: WindowMetadataView, window: WindowMetadataView) -> bool {
    text_field_matches(pattern.title, window.title) || text_field_matches(
        pattern.class,
        window.class,
    ) || exact_field_matches(pattern.exe, window.exe)
}

/// Relies on `str::contains`: true when `needle` matches a sub-slice of `hay`.
#[verifier::external_body]
fn text_contains(hay: &str, needle: &str) -> (r: bool)
    ensures
        r == is_substring(needle@, hay@),
{
    hay.contains(needle)
}

fn text_field_match(pattern: &Option<String>, value: &Option<String>) -> (r: bool)
    ensures
        r == text_field_matches(text_view(*pattern), text_view(*value)),
{
    match (pattern, value) {
        (Some(p), Some(v)) => p.as_str().unicode_len() > 0 && text_contains(v.as_str(), p.as_str()),
        _ => false,
    }
}

fn copy_text(t: &Option<String>) -> (r: Option<String>)
    ensures
        text_view(r) == text_view(*t),
{
    match t {
        Some(s) => Some(s.clone()),
        None => None,
    }
}

impl WindowMetadata {
    /// A copy of this metadata.
    pub fn copy(&self) -> (r: WindowMetadata)
        ensures
            r@ == self@,
    {
        WindowMetadata {
            title: copy_text(&self.title),
            class: copy_text(&self.class),
            exe: copy_text(&self.exe),
        }
    }

    /// Whether this window matches `pattern`.
    ///
    /// Title and class match by non-empty substring containment (the
    /// pattern's value found within this window's), the executable by exact
    /// equality. The fields are OR-ed: one matching field is enough, and a
    /// pattern with every field unset matches nothing.
    pub fn match_any(&self, pattern: &WindowMetadata) -> (r: bool)
        ensures
            r == pattern_matches(pattern@, self@),
    {
        if text_field_match(&pattern.title, &self.title) {
            return true;
        }
        if text_field_match(&pattern.class, &self.class) {
            return true;
        }
        match (&pattern.exe, &self.exe) {
            (Some(p), Some(v)) => *p == *v,
            _ => false,
        }
    }
}

/// A pattern with every field unset matches no window: there is no
/// accidental universal match.
pub proof fn lemma_unset_pattern_matches_nothing(window: WindowMetadataView)
    ensures
        !pattern_matches(WindowMetadataView { title: None, class: None, exe: None }, window),
{
}

} // verus!
