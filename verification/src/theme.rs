//! Window themes and the names the front-end gives them.

use vstd::prelude::*;

verus! {

/// A theme the main window can be put in.
#[derive(Clone, Copy, Debug, PartialEq, Eq, Structural)]
pub enum Theme {
    Dark,
    Light,
}

/// The theme that `name` stands for. Names are matched exactly: case counts
/// and nothing is trimmed.
pub open spec fn theme_named(name: Seq<char>) -> Option<Theme> {
    if name == "dark"@ {
        Some(Theme::Dark)
    } else if name == "light"@ {
        Some(Theme::Light)
    } else {
        None
    }
}

/// Whether two strings hold the same characters.
pub fn same_text(a: &str, b: &str) -> (same: bool)
    ensures
        same == (a@ == b@),
{
    let n: usize = a.unicode_len();
    if n != b.unicode_len() {
        return false;
    }
    let mut i: usize = 0;
    while i < n
        invariant
            n == a@.len(),
            n == b@.len(),
            i <= n,
            forall|k: int| 0 <= k < i ==> a@[k] == b@[k],
        decreases n - i,
    {
        if a.get_char(i) != b.get_char(i) {
            return false;
        }
        i += 1;
    }
    assert(a@ =~= b@);
    true
}

impl Theme {
    /// Reads a theme from its name.
    pub fn parse(name: &str) -> (theme: Option<Theme>)
        ensures
            theme == theme_named(name@),
    {
        if same_text(name, "dark") {
            Some(Theme::Dark)
        } else if same_text(name, "light") {
            Some(Theme::Light)
        } else {
            None
        }
    }
}

} // verus!
