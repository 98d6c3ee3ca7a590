//! The editor's link editor: opening and closing it, the address it starts
//! with, and what applying it does.
use vstd::prelude::*;

use crate::editor::{same_field, MarkdownField};
use crate::text::{is_blank, is_blank_str, string_from_chars, trim, trimmed_chars};

verus! {

/// The link editor, open on side `field` with the address `url` typed.
#[derive(Clone, Debug, PartialEq)]
pub struct LinkEditorState {
    pub field: MarkdownField,
    pub url: String,
}

/// The address the link editor starts with.
pub const DEFAULT_LINK_URL: &'static str = "https://";

fn owned(s: &str) -> (r: String)
    ensures
        r@ == s@,
{
    let mut r = String::new();
    r.append(s);
    r
}

/// The link editor after its button on side `field` is pressed: closed when
/// it was open on that side, else open there with the default address.
pub fn toggle_link_editor(current: &Option<LinkEditorState>, field: MarkdownField) -> (r: Option<
    LinkEditorState,
>)
    ensures
        match current {
            Some(open) => open.field == field ==> r is None,
            None => true,
        },
        !(current matches Some(open) && open.field == field) ==> (r matches Some(s) && s.field
            == field && s.url@ == DEFAULT_LINK_URL@),
{
    if let Some(open) = current {
        if same_field(open.field, field) {
            return None;
        }
    }
    Some(LinkEditorState { field, url: owned(DEFAULT_LINK_URL) })
}

/// The address the link editor shows for the link around the caret: its
/// address, or the default when there is none.
pub open spec fn initial_link_url(href: Seq<char>) -> Seq<char> {
    if is_blank(href) {
        DEFAULT_LINK_URL@
    } else {
        href
    }
}

/// The address the link editor shows for the link address `href` found
/// around the caret (empty when there is none).
pub fn link_url_from_href(href: &str) -> (r: String)
    ensures
        r@ == initial_link_url(href@),
{
    if is_blank_str(href) {
        owned(DEFAULT_LINK_URL)
    } else {
        owned(href)
    }
}

/// The link editor after the address is edited to `value`: unchanged when
/// it is closed.
pub fn update_link_url(current: Option<LinkEditorState>, value: String) -> (r: Option<
    LinkEditorState,
>)
    ensures
        match current {
            Some(open) => r matches Some(s) && s.field == open.field && s.url@ == value@,
            None => r is None,
        },
{
    match current {
        Some(open) => Some(LinkEditorState { field: open.field, url: value }),
        None => None,
    }
}

/// What applying the link editor on side `field` does.
#[derive(Clone, Debug, PartialEq)]
pub enum LinkApply {
    /// Nothing: the editor is closed or open on the other side.
    Ignore,
    /// The address is blank: the editor just closes.
    Close,
    /// The editor closes and the link gets this (trimmed) address.
    Apply(String),
}

/// What applying the link editor on side `field` does.
pub fn link_to_apply(current: &Option<LinkEditorState>, field: MarkdownField) -> (r: LinkApply)
    ensures
        match current {
            Some(open) => if open.field != field {
                r == LinkApply::Ignore
            } else if is_blank(open.url@) {
                r == LinkApply::Close
            } else {
                r matches LinkApply::Apply(url) && url@ == trim(open.url@)
            },
            None => r == LinkApply::Ignore,
        },
{
    match current {
        Some(open) => {
            if !same_field(open.field, field) {
                return LinkApply::Ignore;
            }
            let url = trimmed_chars(open.url.as_str());
            if url.len() == 0 {
                LinkApply::Close
            } else {
                LinkApply::Apply(string_from_chars(url.as_slice()))
            }
        },
        None => LinkApply::Ignore,
    }
}

} // verus!
