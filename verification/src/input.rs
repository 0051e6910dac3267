//! The autocomplete controller: one per input field.
//!
//! Raw keystrokes become at-most-one-outstanding, debounced,
//! stale-safe fetches. An edit never cancels an in-flight fetch; the
//! fetch becomes implicitly stale, and its result is applied only if
//! its originating query text still equals the field's current text at
//! the moment of application.

use crate::decode::{Place, PlaceV};
use crate::error::{SncfAPIError, SncfAPIErrorV};
use crate::strutil::str_eq;
use vstd::prelude::*;
use vstd::string::*;

verus! {

/// Milliseconds that must pass after the last edit before a query is
/// issued.
pub const DEBOUNCE_MS: u64 = 300;

/// Per-field autocomplete state.
#[derive(Debug)]
pub struct InputState {
    pub text: String,
    pub cursor: usize,
    pub suggestions: Vec<Place>,
    pub selected: Option<usize>,
    pub last_edit_at: u64,
    pub last_queried: String,
    pub loading: bool,
    pub in_flight: Option<String>,
    pub error: Option<String>,
}

/// Spec-level image of `InputState`.
#[verifier::ext_equal]
pub struct InputStateV {
    pub text: Seq<char>,
    pub cursor: int,
    pub suggestions: Seq<PlaceV>,
    pub selected: Option<int>,
    pub last_edit_at: u64,
    pub last_queried: Seq<char>,
    pub loading: bool,
    pub in_flight: Option<Seq<char>>,
    pub error: Option<Seq<char>>,
}

impl View for InputState {
    type V = InputStateV;

    open spec fn view(&self) -> InputStateV {
        InputStateV {
            text: self.text@,
            cursor: self.cursor as int,
            suggestions: self.suggestions.deep_view(),
            selected: match self.selected {
                Some(i) => Some(i as int),
                None => None,
            },
            last_edit_at: self.last_edit_at,
            last_queried: self.last_queried@,
            loading: self.loading,
            in_flight: match self.in_flight {
                Some(ref k) => Some(k@),
                None => None,
            },
            error: match self.error {
                Some(ref e) => Some(e@),
                None => None,
            },
        }
    }
}

impl InputStateV {
    /// The field's invariants: the cursor clamped into the text, the
    /// selection valid for the candidate count and absent exactly where
    /// the list is empty, and the loading flag tracking the in-flight
    /// key.
    pub open spec fn inv(self) -> bool {
        &&& 0 <= self.cursor <= self.text.len()
        &&& (match self.selected {
            Some(i) => 0 <= i < self.suggestions.len(),
            None => self.suggestions.len() == 0,
        })
        &&& (self.loading <==> self.in_flight is Some)
    }
}

/// The state a field starts in.
pub open spec fn initial_input() -> InputStateV {
    InputStateV {
        text: Seq::empty(),
        cursor: 0,
        suggestions: Seq::empty(),
        selected: None,
        last_edit_at: 0,
        last_queried: Seq::empty(),
        loading: false,
        in_flight: None,
        error: None,
    }
}

pub open spec fn clamp_cursor(c: int, len: int) -> int {
    if c < 0 {
        0
    } else if c > len {
        len
    } else {
        c
    }
}

/// A text edit replaces the text, clamps the cursor into it and records
/// the edit time; everything else — an in-flight fetch included — is
/// left as it stands.
pub open spec fn edit_step(s: InputStateV, text: Seq<char>, cursor: int, now: u64) -> InputStateV {
    InputStateV {
        text: text,
        cursor: clamp_cursor(cursor, text.len() as int),
        last_edit_at: now,
        ..s
    }
}

/// A tick issues a query exactly when no fetch is outstanding, the text
/// is non-empty and differs from the last queried text, and the
/// debounce threshold has passed since the last edit.
pub open spec fn tick_fires(s: InputStateV, now: u64) -> bool {
    &&& !s.loading
    &&& s.text.len() > 0
    &&& s.text != s.last_queried
    &&& now >= s.last_edit_at
    &&& now - s.last_edit_at >= DEBOUNCE_MS
}

/// The state after a tick, and the query to issue if one fires; the
/// issued text is remembered as the in-flight key.
pub open spec fn tick_step(s: InputStateV, now: u64) -> (InputStateV, Option<Seq<char>>) {
    if tick_fires(s, now) {
        (InputStateV { loading: true, in_flight: Some(s.text), ..s }, Some(s.text))
    } else {
        (s, None)
    }
}

/// The state after a fetch completion for the query `key`. Where the
/// key no longer equals the current text, the result is discarded —
/// loading is still cleared if it was tracking this key. Where it still
/// matches: candidates are replaced and the selection reset on success,
/// the field-level error is set on failure, and the key becomes the
/// last queried text either way.
pub open spec fn complete_step(
    s: InputStateV,
    key: Seq<char>,
    result: Result<Seq<PlaceV>, Seq<char>>,
) -> InputStateV {
    let s1 = if s.in_flight == Some(key) {
        InputStateV { loading: false, in_flight: None, ..s }
    } else {
        s
    };
    if key == s.text {
        match result {
            Ok(cands) => InputStateV {
                suggestions: cands,
                selected: if cands.len() == 0 {
                    None
                } else {
                    Some(0)
                },
                last_queried: key,
                error: None,
                ..s1
            },
            Err(msg) => InputStateV { last_queried: key, error: Some(msg), ..s1 },
        }
    } else {
        s1
    }
}

/// Moving the selection clamps at both ends; there is no wraparound.
pub open spec fn navigate_step(s: InputStateV, forward: bool) -> InputStateV {
    match s.selected {
        None => s,
        Some(i) => InputStateV {
            selected: Some(
                if forward {
                    if i + 1 < s.suggestions.len() {
                        i + 1
                    } else {
                        i
                    }
                } else {
                    if i > 0 {
                        i - 1
                    } else {
                        0
                    }
                },
            ),
            ..s
        },
    }
}

/// An event a field's controller handles.
pub enum EventV {
    Edit { text: Seq<char>, cursor: int, now: u64 },
    Tick { now: u64 },
    Complete { key: Seq<char>, result: Result<Seq<PlaceV>, Seq<char>> },
    Navigate { forward: bool },
}

/// One controller step.
pub open spec fn step(s: InputStateV, e: EventV) -> InputStateV {
    match e {
        EventV::Edit { text, cursor, now } => edit_step(s, text, cursor, now),
        EventV::Tick { now } => tick_step(s, now).0,
        EventV::Complete { key, result } => complete_step(s, key, result),
        EventV::Navigate { forward } => navigate_step(s, forward),
    }
}

/// The state after a sequence of events, applied in order.
pub open spec fn run_events(s: InputStateV, es: Seq<EventV>) -> InputStateV
    decreases es.len(),
{
    if es.len() == 0 {
        s
    } else {
        step(run_events(s, es.drop_last()), es.last())
    }
}

/// Every controller step preserves the field's invariants.
pub proof fn lemma_step_preserves_inv(s: InputStateV, e: EventV)
    requires
        s.inv(),
    ensures
        step(s, e).inv(),
{
}

/// Any sequence of events keeps a valid field valid.
pub proof fn lemma_run_events_inv(s0: InputStateV, es: Seq<EventV>)
    requires
        s0.inv(),
    ensures
        run_events(s0, es).inv(),
    decreases es.len(),
{
    if es.len() > 0 {
        lemma_run_events_inv(s0, es.drop_last());
        lemma_step_preserves_inv(run_events(s0, es.drop_last()), es.last());
    }
}

/// The stale-response guard: a completion changes the candidate list
/// only where its query key is exactly the text current at the moment
/// of application.
pub proof fn lemma_no_stale_apply(
    s: InputStateV,
    key: Seq<char>,
    result: Result<Seq<PlaceV>, Seq<char>>,
)
    ensures
        complete_step(s, key, result).suggestions != s.suggestions ==> key == s.text,
{
}

/// The stale-response guard over any sequence of edits and
/// completions: whenever the candidate list changes at a completion,
/// the completion's key equals the text of the state it was applied to
/// — a stale result is never observable.
pub proof fn lemma_trace_stale_guard(s0: InputStateV, es: Seq<EventV>, i: int)
    requires
        0 <= i < es.len(),
        es[i] is Complete,
        run_events(s0, es.take(i + 1)).suggestions != run_events(s0, es.take(i)).suggestions,
    ensures
        es[i]->Complete_key == run_events(s0, es.take(i)).text,
{
    assert(es.take(i + 1).drop_last() =~= es.take(i));
    assert(es.take(i + 1).last() == es[i]);
    lemma_no_stale_apply(
        run_events(s0, es.take(i)),
        es[i]->Complete_key,
        es[i]->Complete_result,
    );
}

impl InputState {
    /// A fresh field.
    pub fn new() -> (r: InputState)
        ensures
            r@ == initial_input(),
            r@.inv(),
    {
        let r = InputState {
            text: String::new(),
            cursor: 0,
            suggestions: Vec::new(),
            selected: None,
            last_edit_at: 0,
            last_queried: String::new(),
            loading: false,
            in_flight: None,
            error: None,
        };
        proof {
            assert(r@ =~= initial_input());
        }
        r
    }

    /// Replaces text and cursor and records the edit time. Does not
    /// cancel an in-flight fetch; it becomes implicitly stale.
    pub fn edit(&mut self, text: String, cursor: usize, now: u64)
        requires
            old(self)@.inv(),
        ensures
            final(self)@ == edit_step(old(self)@, text@, cursor as int, now),
            final(self)@.inv(),
    {
        let len = text.unicode_len();
        self.cursor = if cursor > len {
            len
        } else {
            cursor
        };
        self.text = text;
        self.last_edit_at = now;
        proof {
            assert(self@ =~= edit_step(old(self)@, self.text@, cursor as int, now));
        }
    }

    /// Called once per render cycle; issues the debounced query where
    /// the conditions of `tick_fires` hold, marking the text as the
    /// in-flight key.
    pub fn tick(&mut self, now: u64) -> (r: Option<String>)
        requires
            old(self)@.inv(),
        ensures
            final(self)@ == tick_step(old(self)@, now).0,
            final(self)@.inv(),
            match r {
                Some(q) => tick_step(old(self)@, now).1 == Some(q@),
                None => tick_step(old(self)@, now).1 is None,
            },
    {
        let quiet = now >= self.last_edit_at && now - self.last_edit_at >= DEBOUNCE_MS;
        if !self.loading && self.text.unicode_len() > 0 && !str_eq(
            self.text.as_str(),
            self.last_queried.as_str(),
        ) && quiet {
            self.loading = true;
            self.in_flight = Some(self.text.clone());
            let q = self.text.clone();
            proof {
                assert(self@ =~= tick_step(old(self)@, now).0);
            }
            Some(q)
        } else {
            proof {
                assert(self@ =~= old(self)@);
            }
            None
        }
    }

    /// Applies a fetch completion for the query `key`; see
    /// `complete_step`. A failure becomes the field-level error text.
    pub fn apply_fetch(&mut self, key: String, result: Result<Vec<Place>, SncfAPIError>)
        requires
            old(self)@.inv(),
        ensures
            final(self)@ == complete_step(
                old(self)@,
                key@,
                match result {
                    Ok(v) => Ok::<Seq<PlaceV>, Seq<char>>(v.deep_view()),
                    Err(e) => Err::<Seq<PlaceV>, Seq<char>>(e@.text()),
                },
            ),
            final(self)@.inv(),
    {
        let was_tracking = match &self.in_flight {
            Some(k) => str_eq(k.as_str(), key.as_str()),
            None => false,
        };
        if was_tracking {
            self.loading = false;
            self.in_flight = None;
        }
        let ghost s1 = self@;
        if str_eq(key.as_str(), self.text.as_str()) {
            match result {
                Ok(cands) => {
                    self.selected = if cands.len() == 0 {
                        None
                    } else {
                        Some(0)
                    };
                    self.suggestions = cands;
                    self.last_queried = key;
                    self.error = None;
                },
                Err(e) => {
                    self.last_queried = key;
                    self.error = Some(e.message());
                },
            }
        }
        proof {
            assert(self@ =~= complete_step(
                old(self)@,
                key@,
                match result {
                    Ok(v) => Ok::<Seq<PlaceV>, Seq<char>>(v.deep_view()),
                    Err(e) => Err::<Seq<PlaceV>, Seq<char>>(e@.text()),
                },
            ));
        }
    }

    /// Moves the selection, clamped at the boundaries.
    pub fn navigate(&mut self, forward: bool)
        requires
            old(self)@.inv(),
        ensures
            final(self)@ == navigate_step(old(self)@, forward),
            final(self)@.inv(),
    {
        match self.selected {
            None => {
            },
            Some(i) => {
                let n = self.suggestions.len();
                let ni: usize = if forward {
                    if i + 1 < n {
                        i + 1
                    } else {
                        i
                    }
                } else {
                    if i > 0 {
                        i - 1
                    } else {
                        0
                    }
                };
                self.selected = Some(ni);
            },
        }
        proof {
            assert(self@ =~= navigate_step(old(self)@, forward));
        }
    }

    /// The place a Confirm would commit: the selected candidate where a
    /// selection is present, nothing otherwise.
    pub fn confirm(&self) -> (r: Option<Place>)
        requires
            self@.inv(),
        ensures
            match r {
                Some(p) => (self@.selected matches Some(i) && p@ == self@.suggestions[i]),
                None => self@.selected is None,
            },
    {
        match self.selected {
            Some(i) => Some(self.suggestions[i].duplicate()),
            None => None,
        }
    }
}

} // verus!
