//! The system's colour scheme preference.

use crate::text::{eq_ignoring_ascii_case, same_ignoring_ascii_case};
use vstd::prelude::*;

verus! {

/// Whether the desktop's `color-scheme` setting asks for a dark theme: it
/// does when it reads `prefer-dark`, in whatever case.
pub fn prefers_dark(color_scheme: &str) -> (dark: bool)
    ensures
        dark == same_ignoring_ascii_case(color_scheme@, "prefer-dark"@),
{
    eq_ignoring_ascii_case(color_scheme, "prefer-dark")
}

} // verus!
