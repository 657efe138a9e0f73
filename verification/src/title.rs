use vstd::prelude::*;
use vstd::string::StringExecFns;

use crate::page::Page;
use crate::page::page_at;
use crate::page::spec_page_at;
use crate::session::Session;

verus! {

/// The display name of a page, as shown in the window title.
pub open spec fn spec_page_name(p: Page) -> Seq<char> {
    match p {
        Page::Counter => "Counter"@,
        Page::ProgressBar => "Progress Bar"@,
        Page::NameInput => "Name Input"@,
        Page::ThemeSelect => "Theme Select"@,
        Page::Unknown => "Page not found"@,
    }
}

/// The window title for a session: the active page's name, then the
/// application name.
pub open spec fn spec_title(s: Session) -> Seq<char> {
    spec_page_name(spec_page_at(s.current_page as int, s.page_count as int)) + " - Iced"@
}

/// The display name of a page.
pub fn page_name(p: Page) -> (r: &'static str)
    ensures
        r@ == spec_page_name(p),
{
    match p {
        Page::Counter => "Counter",
        Page::ProgressBar => "Progress Bar",
        Page::NameInput => "Name Input",
        Page::ThemeSelect => "Theme Select",
        Page::Unknown => "Page not found",
    }
}

impl Session {
    /// The window title: the active page's name, then the application name,
    /// the one externally observable string derived from the state.
    pub fn title(&self) -> (t: String)
        ensures
            t@ == spec_title(*self),
    {
        let name = page_name(page_at(self.current_page, self.page_count));
        name.to_owned().concat(" - Iced")
    }
}

} // verus!
