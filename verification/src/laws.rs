use vstd::prelude::*;

use crate::session::Event;
use crate::session::Session;
use crate::session::ThemeChoice;
use crate::session::transition;

verus! {

/// The session that a whole sequence of events turns `s` into, applied in
/// order.
pub open spec fn apply_events(s: Session, events: Seq<Event>) -> Session
    decreases events.len(),
{
    if events.len() == 0 {
        s
    } else {
        apply_events(transition(s, events[0]), events.skip(1))
    }
}

/// A run of up to `page_count` "next page" events moves the page index
/// forward by the run's length, going around the end at most once. Only the
/// page index changes.
proof fn lemma_advance_run(s: Session, events: Seq<Event>)
    requires
        s.wf(),
        s.current_page <= s.page_count,
        events.len() <= s.page_count,
        forall|i: int| 0 <= i < events.len() ==> events[i] == Event::AdvancePage,
    ensures
        apply_events(s, events) == (Session {
            current_page: (if s.current_page + events.len() <= s.page_count {
                s.current_page + events.len()
            } else {
                s.current_page + events.len() - s.page_count
            }) as u8,
            ..s
        }),
    decreases events.len(),
{
    if events.len() > 0 {
        let s1 = transition(s, events[0]);
        lemma_advance_run(s1, events.skip(1));
    }
}

/// A run of up to `page_count` "previous page" events moves the page index
/// back by the run's length, going around the start at most once. Only the
/// page index changes.
proof fn lemma_retreat_run(s: Session, events: Seq<Event>)
    requires
        s.wf(),
        s.current_page <= s.page_count,
        events.len() <= s.page_count,
        forall|i: int| 0 <= i < events.len() ==> events[i] == Event::RetreatPage,
    ensures
        apply_events(s, events) == (Session {
            current_page: (if s.current_page - events.len() >= 1 {
                s.current_page - events.len()
            } else {
                s.current_page - events.len() + s.page_count
            }) as u8,
            ..s
        }),
    decreases events.len(),
{
    if events.len() > 0 {
        let s1 = transition(s, events[0]);
        lemma_retreat_run(s1, events.skip(1));
    }
}

/// Wraparound cycle closure, forward: a sequence of exactly `page_count`
/// "next page" events returns the session to the very state it started in,
/// from every page.
pub proof fn lemma_advance_cycle(s: Session, events: Seq<Event>)
    requires
        s.wf(),
        s.current_page <= s.page_count,
        events.len() == s.page_count,
        forall|i: int| 0 <= i < events.len() ==> events[i] == Event::AdvancePage,
    ensures
        apply_events(s, events) == s,
{
    lemma_advance_run(s, events);
}

/// Wraparound cycle closure, backward: a sequence of exactly `page_count`
/// "previous page" events returns the session to the very state it started
/// in, from every page.
pub proof fn lemma_retreat_cycle(s: Session, events: Seq<Event>)
    requires
        s.wf(),
        s.current_page <= s.page_count,
        events.len() == s.page_count,
        forall|i: int| 0 <= i < events.len() ==> events[i] == Event::RetreatPage,
    ensures
        apply_events(s, events) == s,
{
    lemma_retreat_run(s, events);
}

/// One step of navigation undoes the other: "next page" followed by
/// "previous page", and the other way round, restore the whole session,
/// from every page.
pub proof fn lemma_navigation_inverse(s: Session)
    requires
        s.wf(),
        s.current_page <= s.page_count,
    ensures
        transition(transition(s, Event::AdvancePage), Event::RetreatPage) == s,
        transition(transition(s, Event::RetreatPage), Event::AdvancePage) == s,
{
}

/// The decrement button undoes the increment button: incrementing and then
/// decrementing restores the whole session, from every counter value,
/// negative ones and the ends of the range included.
pub proof fn lemma_counter_inverse(s: Session)
    ensures
        transition(transition(s, Event::IncrementCounter), Event::DecrementCounter) == s,
{
}

/// The last theme choice wins: after two selections, in any order of values,
/// the observed theme is the second one.
pub proof fn lemma_theme_last_wins(s: Session, first: ThemeChoice, second: ThemeChoice)
    ensures
        transition(transition(s, Event::SetTheme(first)), Event::SetTheme(second)).theme
            == second,
{
}

/// Selecting a theme twice is idempotent: the second selection of the same
/// value changes nothing.
pub proof fn lemma_theme_idempotent(s: Session, choice: ThemeChoice)
    ensures
        transition(transition(s, Event::SetTheme(choice)), Event::SetTheme(choice))
            == transition(s, Event::SetTheme(choice)),
{
}

} // verus!
