//! When to ask the location search: only once the user has stopped typing
//! for a while, and never for a blank query.
use vstd::prelude::*;
use vstd::std_specs::iter::IteratorSpec;

verus! {

/// Whether `c` has the Unicode `White_Space` property: the control chars
/// U+0009 to U+000D, the space U+0020, U+0085, U+00A0, U+1680, the spaces
/// U+2000 to U+200A, the separators U+2028 and U+2029, U+202F, U+205F and
/// U+3000.
pub open spec fn is_white_space(c: char) -> bool {
    let v = c as u32;
    ||| 0x9 <= v <= 0xD
    ||| v == 0x20
    ||| v == 0x85
    ||| v == 0xA0
    ||| v == 0x1680
    ||| 0x2000 <= v <= 0x200A
    ||| v == 0x2028
    ||| v == 0x2029
    ||| v == 0x202F
    ||| v == 0x205F
    ||| v == 0x3000
}

/// Whether `c` is white space, as trimming understands it.
pub fn char_is_whitespace(c: char) -> (b: bool)
    ensures
        b == is_white_space(c),
{
    let v = c as u32;
    (0x9 <= v && v <= 0xD) || v == 0x20 || v == 0x85 || v == 0xA0 || v == 0x1680 || (0x2000 <= v
        && v <= 0x200A) || v == 0x2028 || v == 0x2029 || v == 0x202F || v == 0x205F || v == 0x3000
}

/// Every char of `text` is white space, so that trimming it leaves nothing.
pub open spec fn is_blank(text: Seq<char>) -> bool {
    forall|i: int| 0 <= i < text.len() ==> #[trigger] is_white_space(text[i])
}

/// A text of spaces, tabs and line breaks is blank, the empty text is
/// blank, and a text with any letter or digit in it is not.
pub proof fn law_blank_texts(text: Seq<char>, i: int)
    ensures
        (forall|k: int| 0 <= k < text.len() ==> #[trigger] text[k] == ' ' || text[k] == '\t'
            || text[k] == '\n' || text[k] == '\r') ==> is_blank(text),
        is_blank(Seq::<char>::empty()),
        0 <= i < text.len() && (('a' <= text[i] <= 'z') || ('A' <= text[i] <= 'Z') || ('0'
            <= text[i] <= '9')) ==> !is_blank(text),
{
    if 0 <= i < text.len() && (('a' <= text[i] <= 'z') || ('A' <= text[i] <= 'Z') || ('0'
        <= text[i] <= '9')) {
        assert(!is_white_space(text[i]));
    }
}

/// Whether `query` is empty once trimmed of white space.
pub fn is_blank_query(query: &str) -> (blank: bool)
    ensures
        blank == is_blank(query@),
{
    let mut chars = query.chars();
    let ghost mut n: int = 0;
    loop
        invariant
            0 <= n <= query@.len(),
            chars.remaining() == query@.skip(n),
            forall|i: int| 0 <= i < n ==> #[trigger] is_white_space(query@[i]),
        ensures
            is_blank(query@),
        decreases query@.len() - n,
    {
        match chars.next() {
            Some(c) => {
                assert(c == query@[n]);
                if !char_is_whitespace(c) {
                    return false;
                }
                proof {
                    n = n + 1;
                }
            },
            None => {
                break;
            },
        }
    }
    true
}

/// The debounce timer's state: the latest query and whether the timer runs.
pub struct Debouncer {
    pub current_query: String,
    pub is_timer_active: bool,
}

/// What reaches the debouncer: a new query, the end of the query stream, or
/// the end of the quiet period.
pub enum DebounceEvent {
    Query(String),
    Closed,
    TimerElapsed,
}

/// What the caller is asked to do: restart the quiet period, ask the
/// location search for a query, stop, or keep waiting.
pub enum DebounceAction {
    RestartTimer,
    Fetch(String),
    Stop,
    Wait,
}

/// `new` and `action` are what `event` makes of `old`.
pub open spec fn debounce_post(
    old: Debouncer,
    event: DebounceEvent,
    new: Debouncer,
    action: DebounceAction,
) -> bool {
    match event {
        DebounceEvent::Query(q) => {
            &&& new.current_query == q
            &&& new.is_timer_active
            &&& action is RestartTimer
        },
        DebounceEvent::Closed => new == old && action is Stop,
        DebounceEvent::TimerElapsed => if !old.is_timer_active {
            new == old && action is Wait
        } else {
            &&& new.current_query == old.current_query
            &&& !new.is_timer_active
            &&& if is_blank(old.current_query@) {
                action is Wait
            } else {
                action matches DebounceAction::Fetch(q) && q@ == old.current_query@
            }
        },
    }
}

impl Debouncer {
    /// No query yet and no timer running.
    pub fn new() -> (d: Debouncer)
        ensures
            d.current_query@ == Seq::<char>::empty(),
            !d.is_timer_active,
    {
        Debouncer { current_query: String::new(), is_timer_active: false }
    }

    /// Reacts to `event`.
    pub fn step(&mut self, event: DebounceEvent) -> (action: DebounceAction)
        ensures
            debounce_post(*old(self), event, *final(self), action),
    {
        match event {
            DebounceEvent::Query(q) => {
                self.current_query = q;
                self.is_timer_active = true;
                DebounceAction::RestartTimer
            },
            DebounceEvent::Closed => DebounceAction::Stop,
            DebounceEvent::TimerElapsed => {
                if !self.is_timer_active {
                    DebounceAction::Wait
                } else {
                    self.is_timer_active = false;
                    if is_blank_query(self.current_query.as_str()) {
                        DebounceAction::Wait
                    } else {
                        DebounceAction::Fetch(self.current_query.clone())
                    }
                }
            },
        }
    }
}

/// A search is asked for only when the quiet period ends after a query, only
/// for the latest query, and only for one that is not blank; after it the
/// timer is stopped, so the same quiet period never asks twice.
pub proof fn law_fetch_latest_once(
    old: Debouncer,
    event: DebounceEvent,
    new: Debouncer,
    action: DebounceAction,
)
    requires
        debounce_post(old, event, new, action),
    ensures
        action matches DebounceAction::Fetch(q) ==> {
            &&& event is TimerElapsed
            &&& old.is_timer_active
            &&& q@ == old.current_query@
            &&& !is_blank(q@)
            &&& !new.is_timer_active
        },
        event is TimerElapsed ==> !new.is_timer_active,
{
}

/// `states`, `events` and `actions` are a run of the debouncer from a fresh
/// start: each step takes `states[i]` with `events[i]` to `states[i + 1]` and
/// answers `actions[i]`.
pub open spec fn is_run(
    states: Seq<Debouncer>,
    events: Seq<DebounceEvent>,
    actions: Seq<DebounceAction>,
) -> bool {
    &&& states.len() == events.len() + 1
    &&& actions.len() == events.len()
    &&& !states[0].is_timer_active
    &&& forall|i: int|
        0 <= i < events.len() ==> #[trigger] debounce_post(
            states[i],
            events[i],
            states[i + 1],
            actions[i],
        )
}

/// `event` is a query for `text`.
pub open spec fn is_query_for(event: DebounceEvent, text: Seq<char>) -> bool {
    event matches DebounceEvent::Query(q) && q@ == text
}

/// No query and no end of the quiet period arrives strictly between steps
/// `from` and `to`.
pub open spec fn quiet_between(events: Seq<DebounceEvent>, from: int, to: int) -> bool {
    forall|k: int|
        from < k < to ==> !(#[trigger] events[k] is Query) && !(events[k] is TimerElapsed)
}

/// In a run, a running timer was started by a query that is still the
/// current one, with nothing but the end of the stream since.
proof fn lemma_running_timer_has_query(
    states: Seq<Debouncer>,
    events: Seq<DebounceEvent>,
    actions: Seq<DebounceAction>,
    m: int,
)
    requires
        is_run(states, events, actions),
        0 <= m <= events.len(),
        states[m].is_timer_active,
    ensures
        exists|i: int|
            0 <= i < m && #[trigger] is_query_for(events[i], states[m].current_query@)
                && quiet_between(events, i, m),
    decreases m,
{
    if m > 0 {
        let prev = m - 1;
        assert(debounce_post(states[prev], events[prev], states[prev + 1], actions[prev]));
        match events[m - 1] {
            DebounceEvent::Query(q) => {
                assert(is_query_for(events[m - 1], states[m].current_query@) && quiet_between(
                    events,
                    m - 1,
                    m,
                ));
            },
            DebounceEvent::Closed => {
                lemma_running_timer_has_query(states, events, actions, m - 1);
                let i = choose|i: int|
                    0 <= i < m - 1 && #[trigger] is_query_for(events[i], states[m - 1].current_query@)
                        && quiet_between(events, i, m - 1);
                assert(quiet_between(events, i, m));
            },
            DebounceEvent::TimerElapsed => {},
        }
    }
}

/// In a run, after a step that ended a quiet period the timer stays stopped
/// until the next query.
proof fn lemma_timer_stopped_until_query(
    states: Seq<Debouncer>,
    events: Seq<DebounceEvent>,
    actions: Seq<DebounceAction>,
    j: int,
    m: int,
)
    requires
        is_run(states, events, actions),
        0 <= j < m <= events.len(),
        events[j] is TimerElapsed,
        forall|k: int| j < k < m ==> !(#[trigger] events[k] is Query),
    ensures
        !states[m].is_timer_active,
    decreases m - j,
{
    let prev = m - 1;
    assert(debounce_post(states[prev], events[prev], states[prev + 1], actions[prev]));
    if m - 1 > j {
        lemma_timer_stopped_until_query(states, events, actions, j, m - 1);
    }
}

/// Over any run of the debouncer, every search asked for is for the latest
/// query, asked when the quiet period after that query ended with no other
/// query in between, and only for a query that is not blank; and between two
/// searches there is always a new query, so each quiet period asks at most
/// once.
pub proof fn law_fetch_latest_query_once_per_quiet_period(
    states: Seq<Debouncer>,
    events: Seq<DebounceEvent>,
    actions: Seq<DebounceAction>,
)
    requires
        is_run(states, events, actions),
    ensures
        forall|j: int|
            0 <= j < actions.len() && #[trigger] actions[j] is Fetch ==> {
                &&& events[j] is TimerElapsed
                &&& !is_blank(actions[j]->Fetch_0@)
                &&& exists|i: int|
                    0 <= i < j && #[trigger] is_query_for(events[i], actions[j]->Fetch_0@)
                        && quiet_between(events, i, j)
            },
        forall|j1: int, j2: int|
            0 <= j1 < j2 < actions.len() && #[trigger] actions[j1] is Fetch
                && #[trigger] actions[j2] is Fetch ==> exists|k: int|
                j1 < k < j2 && #[trigger] events[k] is Query,
{
    assert forall|j: int| 0 <= j < actions.len() && #[trigger] actions[j] is Fetch implies {
        &&& events[j] is TimerElapsed
        &&& !is_blank(actions[j]->Fetch_0@)
        &&& exists|i: int|
            0 <= i < j && #[trigger] is_query_for(events[i], actions[j]->Fetch_0@)
                && quiet_between(events, i, j)
    } by {
        assert(debounce_post(states[j], events[j], states[j + 1], actions[j]));
        lemma_running_timer_has_query(states, events, actions, j);
    }
    assert forall|j1: int, j2: int|
        0 <= j1 < j2 < actions.len() && #[trigger] actions[j1] is Fetch
            && #[trigger] actions[j2] is Fetch implies exists|k: int|
        j1 < k < j2 && #[trigger] events[k] is Query by {
        assert(debounce_post(states[j1], events[j1], states[j1 + 1], actions[j1]));
        assert(debounce_post(states[j2], events[j2], states[j2 + 1], actions[j2]));
        if forall|k: int| j1 < k < j2 ==> !(#[trigger] events[k] is Query) {
            lemma_timer_stopped_until_query(states, events, actions, j1, j2);
        }
    }
}

/// A query always restarts the quiet period and replaces the one before it.
pub proof fn law_query_restarts_timer(
    old: Debouncer,
    q: String,
    new: Debouncer,
    action: DebounceAction,
)
    requires
        debounce_post(old, DebounceEvent::Query(q), new, action),
    ensures
        new.current_query == q,
        new.is_timer_active,
        action is RestartTimer,
{
}

} // verus!
