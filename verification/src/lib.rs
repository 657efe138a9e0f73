//! A small multi-page form session: a counter page, a progress page, a
//! name-input page and a theme-select page, with wrap-around next/previous
//! navigation. The library owns the session state and the event-to-state
//! transition; a host drives it from a GUI event loop and renders the
//! projection that `current_page_view` returns.

mod laws;
mod page;
mod session;
mod title;

pub use laws::apply_events;
pub use laws::lemma_advance_cycle;
pub use laws::lemma_counter_inverse;
pub use laws::lemma_navigation_inverse;
pub use laws::lemma_retreat_cycle;
pub use laws::lemma_theme_idempotent;
pub use laws::lemma_theme_last_wins;
pub use page::Page;
pub use page::page_at;
pub use page::spec_page_at;
pub use session::Event;
pub use session::PageView;
pub use session::Session;
pub use session::ThemeChoice;
pub use session::PROGRESS_MAX;
pub use session::spec_advance;
pub use session::spec_clamp_progress;
pub use session::spec_counter_dec;
pub use session::spec_counter_inc;
pub use session::spec_retreat;
pub use session::spec_view;
pub use session::transition;
pub use title::page_name;
pub use title::spec_page_name;
pub use title::spec_title;
