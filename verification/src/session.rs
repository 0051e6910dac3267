//! The session mode state machine and its render contract.
//!
//! Two modes are evidenced — choosing the origin, choosing the
//! destination — each with its own input field. Confirm with a
//! selection present carries the chosen place forward; every other
//! event is routed to the active mode's controller and the mode held.
//! The state after the destination is confirmed is an open extension
//! point: the mode is held and the choice recorded.

use crate::decode::{Place, PlaceV};
use crate::error::SncfAPIError;
use crate::input::{
    complete_step, edit_step, initial_input, navigate_step, tick_step, InputState, InputStateV,
};
use vstd::prelude::*;
use vstd::string::*;

verus! {

/// Milliseconds the loop waits for input each iteration before the
/// next render.
pub const INPUT_POLL_MS: u64 = 120;

/// Which stop the session is choosing.
#[derive(Clone, Copy, Debug, PartialEq, Eq, Structural)]
pub enum Mode {
    ChoosingOrigin,
    ChoosingDestination,
}

/// The session: one input field per mode, the chosen stops, and the
/// active mode.
#[derive(Debug)]
pub struct Session {
    pub mode: Mode,
    pub origin: InputState,
    pub destination: InputState,
    pub chosen_origin: Option<Place>,
    pub chosen_destination: Option<Place>,
}

/// Spec-level image of `Session`.
#[verifier::ext_equal]
pub struct SessionV {
    pub mode: Mode,
    pub origin: InputStateV,
    pub destination: InputStateV,
    pub chosen_origin: Option<PlaceV>,
    pub chosen_destination: Option<PlaceV>,
}

impl View for Session {
    type V = SessionV;

    open spec fn view(&self) -> SessionV {
        SessionV {
            mode: self.mode,
            origin: self.origin@,
            destination: self.destination@,
            chosen_origin: match self.chosen_origin {
                Some(ref p) => Some(p@),
                None => None,
            },
            chosen_destination: match self.chosen_destination {
                Some(ref p) => Some(p@),
                None => None,
            },
        }
    }
}

impl SessionV {
    /// Both fields valid.
    pub open spec fn inv(self) -> bool {
        self.origin.inv() && self.destination.inv()
    }

    /// The input field of the active mode.
    pub open spec fn active(self) -> InputStateV {
        match self.mode {
            Mode::ChoosingOrigin => self.origin,
            Mode::ChoosingDestination => self.destination,
        }
    }
}

/// The session with the active mode's field replaced.
pub open spec fn with_active(s: SessionV, inp: InputStateV) -> SessionV {
    match s.mode {
        Mode::ChoosingOrigin => SessionV { origin: inp, ..s },
        Mode::ChoosingDestination => SessionV { destination: inp, ..s },
    }
}

/// What Confirm does: with a selection present in origin mode, the
/// chosen place is committed and the session moves to choosing the
/// destination; in destination mode the choice is recorded and the
/// mode held (extension point); without a selection, nothing changes.
pub open spec fn confirm_step(s: SessionV) -> SessionV {
    match s.mode {
        Mode::ChoosingOrigin => match s.origin.selected {
            Some(i) => SessionV {
                mode: Mode::ChoosingDestination,
                chosen_origin: Some(s.origin.suggestions[i]),
                ..s
            },
            None => s,
        },
        Mode::ChoosingDestination => match s.destination.selected {
            Some(i) => SessionV {
                chosen_destination: Some(s.destination.suggestions[i]),
                ..s
            },
            None => s,
        },
    }
}

/// The title shown for a mode.
pub open spec fn mode_title(m: Mode) -> Seq<char> {
    match m {
        Mode::ChoosingOrigin => "Origin stop"@,
        Mode::ChoosingDestination => "Destination stop"@,
    }
}

/// What the view layer draws for the active mode: the title, the raw
/// text with the cursor position, and the ordered candidate labels
/// with the highlighted index.
#[derive(Debug)]
pub struct RenderModel {
    pub title: String,
    pub text: String,
    pub cursor: usize,
    pub labels: Vec<String>,
    pub highlighted: Option<usize>,
}

impl Session {
    /// A fresh session, choosing the origin.
    pub fn new() -> (r: Session)
        ensures
            r@.inv(),
            r@.mode == Mode::ChoosingOrigin,
            r@.origin == initial_input(),
            r@.destination == initial_input(),
            r@.chosen_origin is None,
            r@.chosen_destination is None,
    {
        Session {
            mode: Mode::ChoosingOrigin,
            origin: InputState::new(),
            destination: InputState::new(),
            chosen_origin: None,
            chosen_destination: None,
        }
    }

    /// Routes a text edit to the active mode's field.
    pub fn edit(&mut self, text: String, cursor: usize, now: u64)
        requires
            old(self)@.inv(),
        ensures
            final(self)@ == with_active(
                old(self)@,
                edit_step(old(self)@.active(), text@, cursor as int, now),
            ),
            final(self)@.inv(),
    {
        match self.mode {
            Mode::ChoosingOrigin => self.origin.edit(text, cursor, now),
            Mode::ChoosingDestination => self.destination.edit(text, cursor, now),
        }
        proof {
            assert(self@ =~= with_active(
                old(self)@,
                edit_step(old(self)@.active(), text@, cursor as int, now),
            ));
        }
    }

    /// Drives the active mode's debounce; gives the query to issue, if
    /// one fires.
    pub fn tick(&mut self, now: u64) -> (r: Option<String>)
        requires
            old(self)@.inv(),
        ensures
            final(self)@ == with_active(old(self)@, tick_step(old(self)@.active(), now).0),
            final(self)@.inv(),
            match r {
                Some(q) => tick_step(old(self)@.active(), now).1 == Some(q@),
                None => tick_step(old(self)@.active(), now).1 is None,
            },
    {
        let r = match self.mode {
            Mode::ChoosingOrigin => self.origin.tick(now),
            Mode::ChoosingDestination => self.destination.tick(now),
        };
        proof {
            assert(self@ =~= with_active(old(self)@, tick_step(old(self)@.active(), now).0));
        }
        r
    }

    /// Applies a fetch completion to the active mode's field.
    pub fn apply_fetch(&mut self, key: String, result: Result<Vec<Place>, SncfAPIError>)
        requires
            old(self)@.inv(),
        ensures
            final(self)@ == with_active(
                old(self)@,
                complete_step(
                    old(self)@.active(),
                    key@,
                    match result {
                        Ok(v) => Ok::<Seq<PlaceV>, Seq<char>>(v.deep_view()),
                        Err(e) => Err::<Seq<PlaceV>, Seq<char>>(e@.text()),
                    },
                ),
            ),
            final(self)@.inv(),
    {
        let ghost rv: Result<Seq<PlaceV>, Seq<char>> = match result {
            Ok(ref v) => Ok(v.deep_view()),
            Err(ref e) => Err(e@.text()),
        };
        match self.mode {
            Mode::ChoosingOrigin => self.origin.apply_fetch(key, result),
            Mode::ChoosingDestination => self.destination.apply_fetch(key, result),
        }
        proof {
            assert(self@ =~= with_active(
                old(self)@,
                complete_step(old(self)@.active(), key@, rv),
            ));
        }
    }

    /// Moves the active mode's selection.
    pub fn navigate(&mut self, forward: bool)
        requires
            old(self)@.inv(),
        ensures
            final(self)@ == with_active(old(self)@, navigate_step(old(self)@.active(), forward)),
            final(self)@.inv(),
    {
        match self.mode {
            Mode::ChoosingOrigin => self.origin.navigate(forward),
            Mode::ChoosingDestination => self.destination.navigate(forward),
        }
        proof {
            assert(self@ =~= with_active(old(self)@, navigate_step(old(self)@.active(), forward)));
        }
    }

    /// Confirms the active mode's selection; see `confirm_step`.
    pub fn confirm(&mut self)
        requires
            old(self)@.inv(),
        ensures
            final(self)@ == confirm_step(old(self)@),
            final(self)@.inv(),
    {
        match self.mode {
            Mode::ChoosingOrigin => {
                match self.origin.confirm() {
                    Some(p) => {
                        self.chosen_origin = Some(p);
                        self.mode = Mode::ChoosingDestination;
                    },
                    None => {
                    },
                }
            },
            Mode::ChoosingDestination => {
                match self.destination.confirm() {
                    Some(p) => {
                        self.chosen_destination = Some(p);
                    },
                    None => {
                    },
                }
            },
        }
        proof {
            assert(self@ =~= confirm_step(old(self)@));
        }
    }

    /// What the view layer draws for the active mode.
    pub fn render_model(&self) -> (r: RenderModel)
        requires
            self@.inv(),
        ensures
            r.title@ == mode_title(self@.mode),
            r.text@ == self@.active().text,
            r.cursor == self@.active().cursor,
            r.labels.deep_view().len() == self@.active().suggestions.len(),
            forall|i: int|
                0 <= i < self@.active().suggestions.len() ==> r.labels.deep_view()[i]
                    == self@.active().suggestions[i].name,
            match r.highlighted {
                Some(h) => self@.active().selected == Some(h as int),
                None => self@.active().selected is None,
            },
    {
        let title = match self.mode {
            Mode::ChoosingOrigin => String::from_str("Origin stop"),
            Mode::ChoosingDestination => String::from_str("Destination stop"),
        };
        let active = match self.mode {
            Mode::ChoosingOrigin => &self.origin,
            Mode::ChoosingDestination => &self.destination,
        };
        let mut labels: Vec<String> = Vec::new();
        let n = active.suggestions.len();
        let mut i: usize = 0;
        while i < n
            invariant
                n == active.suggestions.len(),
                i <= n,
                labels.deep_view().len() == i,
                forall|j: int|
                    0 <= j < i ==> labels.deep_view()[j] == active.suggestions.deep_view()[j].name,
            decreases n - i,
        {
            let ghost prev = labels.deep_view();
            labels.push(active.suggestions[i].name.clone());
            proof {
                assert(labels.deep_view() =~= prev.push(
                    active.suggestions.deep_view()[i as int].name,
                ));
            }
            i += 1;
        }
        RenderModel {
            title,
            text: active.text.clone(),
            cursor: active.cursor,
            labels,
            highlighted: active.selected,
        }
    }
}

} // verus!
