use vstd::prelude::*;

verus! {

/// Classification of a 1-indexed page number into the screen it shows.
///
/// The variants come in a fixed order: page 1 is the counter, page 2 the
/// progress bar, page 3 the name input, page 4 the theme picker. An index
/// outside the configured range, or beyond the known screens, is `Unknown`:
/// a benign "page not found" display state, never an error.
#[derive(Debug, Clone, Copy, PartialEq, Eq, Structural)]
pub enum Page {
    Counter,
    ProgressBar,
    NameInput,
    ThemeSelect,
    Unknown,
}

/// The page shown for the 1-indexed `index` in a session of `count` pages.
pub open spec fn spec_page_at(index: int, count: int) -> Page {
    if 1 <= index && index <= count {
        if index == 1 {
            Page::Counter
        } else if index == 2 {
            Page::ProgressBar
        } else if index == 3 {
            Page::NameInput
        } else if index == 4 {
            Page::ThemeSelect
        } else {
            Page::Unknown
        }
    } else {
        Page::Unknown
    }
}

/// Look up which page the 1-indexed `index` shows in a session of `count`
/// pages. Total: every index maps to a variant, out-of-range ones to
/// `Page::Unknown`.
pub fn page_at(index: u8, count: u8) -> (p: Page)
    ensures
        p == spec_page_at(index as int, count as int),
{
    if 1 <= index && index <= count {
        match index {
            1 => Page::Counter,
            2 => Page::ProgressBar,
            3 => Page::NameInput,
            4 => Page::ThemeSelect,
            _ => Page::Unknown,
        }
    } else {
        Page::Unknown
    }
}

} // verus!
