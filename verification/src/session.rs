use vstd::prelude::*;

use crate::page::Page;
use crate::page::page_at;
use crate::page::spec_page_at;

verus! {

/// The color scheme the user picked. The input control is a two-way radio
/// choice, so no other value can arrive.
#[derive(Debug, Clone, Copy, PartialEq, Eq, Structural)]
pub enum ThemeChoice {
    Light,
    Dark,
}

/// Progress is kept in hundredths of a percent, so the slider's whole domain
/// `0.0 ..= 100.0` at its step of one hundredth maps one-to-one onto
/// `0 ..= PROGRESS_MAX`, exactly and with no rounding.
pub const PROGRESS_MAX: u32 = 10_000;

/// One discrete user action. The vocabulary is closed: one event per
/// interactive control of the form.
#[derive(Debug)]
pub enum Event {
    /// The counter page's increment button.
    IncrementCounter,
    /// The counter page's decrement button.
    DecrementCounter,
    /// The progress page's slider, in hundredths of a percent.
    SetProgress(u32),
    /// The name page's text field, carrying its full new contents.
    SetName(String),
    /// The theme page's radio choice.
    SetTheme(ThemeChoice),
    /// The "next page" button: forward by one, wrapping to the first page.
    AdvancePage,
    /// The "previous page" button: back by one, wrapping to the last page.
    RetreatPage,
}

/// The whole state of one running session of the form.
///
/// A session is created once with `Session::new`, mutated in place by
/// `handle_event` for every incoming event, and read back through
/// `current_page_view` after each event for rendering.
pub struct Session {
    /// The 1-indexed page being shown. Navigation keeps it in
    /// `1 ..= page_count`.
    pub current_page: u8,
    /// How many pages the session was configured with, at least 1.
    pub page_count: u8,
    /// The counter page's value. No bound is imposed on it by the form;
    /// stepping past an end of `i32` wraps around, so every event stays
    /// total.
    pub counter_value: i32,
    /// The progress page's value, in hundredths of a percent,
    /// `0 ..= PROGRESS_MAX`.
    pub progress_value: u32,
    /// The name page's text.
    pub name_text: String,
    /// The chosen color scheme.
    pub theme: ThemeChoice,
}

/// A read-only projection of the session for rendering: the active page's
/// variant together with the fields that page shows.
pub enum PageView {
    Counter { counter_value: i32 },
    ProgressBar { progress_value: u32 },
    NameInput { name_text: String },
    ThemeSelect { theme: ThemeChoice },
    Unknown,
}

/// `counter_value` after the increment button: one more, wrapping at the top
/// of `i32` so the operation is total.
pub open spec fn spec_counter_inc(v: i32) -> i32 {
    if v == i32::MAX {
        i32::MIN
    } else {
        (v + 1) as i32
    }
}

/// `counter_value` after the decrement button: one less, wrapping at the
/// bottom of `i32` so the operation is total.
pub open spec fn spec_counter_dec(v: i32) -> i32 {
    if v == i32::MIN {
        i32::MAX
    } else {
        (v - 1) as i32
    }
}

/// `current_page` after the "next page" button: forward by one, from the
/// last page (or any page beyond it) back to page 1.
pub open spec fn spec_advance(page: u8, count: u8) -> u8 {
    if page < count {
        (page + 1) as u8
    } else {
        1u8
    }
}

/// `current_page` after the "previous page" button: back by one, from
/// page 1 around to the last page.
pub open spec fn spec_retreat(page: u8, count: u8) -> u8 {
    if page > 1 {
        (page - 1) as u8
    } else {
        count
    }
}

/// The progress value actually stored for a slider event: the slider never
/// emits a value outside its domain, but the session clamps as a hardening
/// measure rather than rely on that.
pub open spec fn spec_clamp_progress(v: u32) -> u32 {
    if v > PROGRESS_MAX {
        PROGRESS_MAX
    } else {
        v
    }
}

/// The session that one event turns `s` into. Every event is total: field
/// events overwrite their field whether or not that field's page is showing
/// (deliberately, matching the form's behavior), and navigation wraps.
pub open spec fn transition(s: Session, e: Event) -> Session {
    match e {
        Event::IncrementCounter => Session {
            counter_value: spec_counter_inc(s.counter_value),
            ..s
        },
        Event::DecrementCounter => Session {
            counter_value: spec_counter_dec(s.counter_value),
            ..s
        },
        Event::SetProgress(v) => Session { progress_value: spec_clamp_progress(v), ..s },
        Event::SetName(t) => Session { name_text: t, ..s },
        Event::SetTheme(c) => Session { theme: c, ..s },
        Event::AdvancePage => Session {
            current_page: spec_advance(s.current_page, s.page_count),
            ..s
        },
        Event::RetreatPage => Session {
            current_page: spec_retreat(s.current_page, s.page_count),
            ..s
        },
    }
}

/// The projection `current_page_view` returns for a given session.
pub open spec fn spec_view(s: Session) -> PageView {
    match spec_page_at(s.current_page as int, s.page_count as int) {
        Page::Counter => PageView::Counter { counter_value: s.counter_value },
        Page::ProgressBar => PageView::ProgressBar { progress_value: s.progress_value },
        Page::NameInput => PageView::NameInput { name_text: s.name_text },
        Page::ThemeSelect => PageView::ThemeSelect { theme: s.theme },
        Page::Unknown => PageView::Unknown,
    }
}

impl Session {
    /// A session is well formed when its page index and page count are at
    /// least 1 and its progress value lies in the slider's domain.
    pub open spec fn wf(self) -> bool {
        &&& 1 <= self.current_page
        &&& 1 <= self.page_count
        &&& self.progress_value <= PROGRESS_MAX
    }

    /// A fresh session of `page_count` pages, opened on page 1 with every
    /// field at its default: counter 0, progress 0, empty name, dark theme.
    pub fn new(page_count: u8) -> (s: Session)
        requires
            1 <= page_count,
        ensures
            s.wf(),
            s.current_page == 1,
            s.page_count == page_count,
            s.counter_value == 0,
            s.progress_value == 0,
            s.name_text@ == Seq::<char>::empty(),
            s.theme == ThemeChoice::Dark,
    {
        Session {
            current_page: 1,
            page_count,
            counter_value: 0,
            progress_value: 0,
            name_text: String::new(),
            theme: ThemeChoice::Dark,
        }
    }

    /// Process one event, mutating the session in place. Total over all
    /// events and all states; the result is exactly `transition`, and a well
    /// formed session stays well formed.
    pub fn handle_event(&mut self, event: Event)
        ensures
            *final(self) == transition(*old(self), event),
            old(self).wf() ==> final(self).wf(),
    {
        match event {
            Event::IncrementCounter => {
                self.counter_value = if self.counter_value == i32::MAX {
                    i32::MIN
                } else {
                    self.counter_value + 1
                };
            },
            Event::DecrementCounter => {
                self.counter_value = if self.counter_value == i32::MIN {
                    i32::MAX
                } else {
                    self.counter_value - 1
                };
            },
            Event::SetProgress(v) => {
                self.progress_value = if v > PROGRESS_MAX {
                    PROGRESS_MAX
                } else {
                    v
                };
            },
            Event::SetName(t) => {
                self.name_text = t;
            },
            Event::SetTheme(c) => {
                self.theme = c;
            },
            Event::AdvancePage => {
                self.current_page = if self.current_page < self.page_count {
                    self.current_page + 1
                } else {
                    1
                };
            },
            Event::RetreatPage => {
                self.current_page = if self.current_page > 1 {
                    self.current_page - 1
                } else {
                    self.page_count
                };
            },
        }
    }

    /// The page the session is showing.
    pub fn current_page_kind(&self) -> (p: Page)
        ensures
            p == spec_page_at(self.current_page as int, self.page_count as int),
    {
        page_at(self.current_page, self.page_count)
    }

    /// The active page's variant together with a snapshot of the fields that
    /// page shows: everything a renderer needs after an event.
    pub fn current_page_view(&self) -> (v: PageView)
        ensures
            v == spec_view(*self),
    {
        match page_at(self.current_page, self.page_count) {
            Page::Counter => PageView::Counter { counter_value: self.counter_value },
            Page::ProgressBar => PageView::ProgressBar { progress_value: self.progress_value },
            Page::NameInput => PageView::NameInput { name_text: self.name_text.clone() },
            Page::ThemeSelect => PageView::ThemeSelect { theme: self.theme },
            Page::Unknown => PageView::Unknown,
        }
    }
}

} // verus!
