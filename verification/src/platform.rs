//! Opening links outside the app.
use vstd::prelude::*;

use crate::text::{string_from_chars, trim, trimmed_chars};

verus! {

/// Opens a link in the system's browser. Implemented by the application for
/// its platform.
pub trait UiLinkOpener: Send + Sync {
    fn open_url(&self, url: &str);
}

/// The address a link opener should open for `url`: the trimmed text, or
/// nothing when it is blank.
pub open spec fn url_target(url: Seq<char>) -> Option<Seq<char>> {
    if trim(url).len() == 0 {
        None
    } else {
        Some(trim(url))
    }
}

/// The address to open for `url`, if any.
pub fn url_to_open(url: &str) -> (r: Option<String>)
    ensures
        match r {
            Some(s) => url_target(url@) == Some(s@),
            None => url_target(url@) is None,
        },
{
    let t = trimmed_chars(url);
    if t.len() == 0 {
        None
    } else {
        Some(string_from_chars(t.as_slice()))
    }
}

} // verus!
