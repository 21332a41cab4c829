//! Debouncing of one push button.
//!
//! A button line is sampled once per interval: while released at the base
//! scan cadence, after a first low reading once more after the debounce
//! guard, and while held at the coarse hold-poll cadence. Feeding each raw
//! sample to [`DebouncedButton::sample`] yields at most one [`PressEvent`]
//! per physical press, however long the line stays low.

use vstd::prelude::*;

verus! {

/// Raw digital level of an input line. The wiring is active low: `Low` means
/// the button is physically pressed.
#[derive(Clone, Copy, Debug, PartialEq, Eq, Structural)]
pub enum Level {
    High,
    Low,
}

/// Emitted exactly once per accepted press.
#[derive(Clone, Copy, Debug, PartialEq, Eq, Structural)]
pub struct PressEvent;

/// Debounce sub-state of one button.
///
/// `Released`: the line read high at the last sample. `Debouncing`: a low
/// reading was seen and the guard interval is running. `Held`: the press was
/// confirmed and the line has not returned to high yet.
#[derive(Clone, Copy, Debug, PartialEq, Eq, Structural)]
pub enum ButtonState {
    Released,
    Debouncing,
    Held,
}

/// State reached after feeding one raw sample to a button in state `s`.
///
/// A low reading out of `Released` starts the guard; a second low reading
/// confirms the press and enters `Held`; any high reading releases the
/// button, in particular a bounce back to high within the guard interval
/// drops the press as noise.
pub open spec fn button_step(s: ButtonState, raw_level: Level) -> ButtonState {
    match (s, raw_level) {
        (ButtonState::Released, Level::Low) => ButtonState::Debouncing,
        (ButtonState::Debouncing, Level::Low) => ButtonState::Held,
        (ButtonState::Held, Level::Low) => ButtonState::Held,
        (_, Level::High) => ButtonState::Released,
    }
}

/// A press event is emitted exactly when a low reading confirms a running
/// guard interval, that is on the second consecutive low sample of a press.
pub open spec fn button_emits(s: ButtonState, raw_level: Level) -> bool {
    s is Debouncing && raw_level is Low
}

/// One debounced push button.
pub struct DebouncedButton {
    state: ButtonState,
}

impl View for DebouncedButton {
    type V = ButtonState;

    closed spec fn view(&self) -> ButtonState {
        self.state
    }
}

impl DebouncedButton {
    /// A button starts released.
    pub fn new() -> (b: Self)
        ensures
            b@ is Released,
    {
        DebouncedButton { state: ButtonState::Released }
    }

    /// Feed one raw sample; the state advances by [`button_step`] and an
    /// event comes back exactly when [`button_emits`] says so.
    pub fn sample(&mut self, raw_level: Level) -> (event: Option<PressEvent>)
        ensures
            final(self)@ == button_step(old(self)@, raw_level),
            event is Some <==> button_emits(old(self)@, raw_level),
    {
        match (self.state, raw_level) {
            (ButtonState::Released, Level::Low) => {
                self.state = ButtonState::Debouncing;
                None
            },
            (ButtonState::Debouncing, Level::Low) => {
                self.state = ButtonState::Held;
                Some(PressEvent)
            },
            (ButtonState::Held, Level::Low) => None,
            (_, Level::High) => {
                self.state = ButtonState::Released;
                None
            },
        }
    }

    /// Whether the line read high at the last sample.
    pub fn is_released(&self) -> (r: bool)
        ensures
            r == (self@ is Released),
    {
        match self.state {
            ButtonState::Released => true,
            _ => false,
        }
    }
}

/// Number of press events emitted when the samples `levels` are fed, in
/// order, to a button starting in state `s`.
pub open spec fn events_emitted(s: ButtonState, levels: Seq<Level>) -> nat
    decreases levels.len(),
{
    if levels.len() == 0 {
        0
    } else {
        (if button_emits(s, levels[0]) {
            1nat
        } else {
            0nat
        }) + events_emitted(button_step(s, levels[0]), levels.skip(1))
    }
}

/// Number of confirmed presses in a sample sequence, read directly off the
/// samples: one per contiguous run of low readings that is at least two
/// samples long, that is one per press whose low time covers the debounce
/// guard; a lone low sample, a press that bounced back within the guard,
/// counts nothing.
pub open spec fn confirmed_press_count(levels: Seq<Level>) -> nat
    decreases levels.len(),
{
    if levels.len() < 2 {
        0
    } else if levels[0] is Low && levels[1] is Low {
        1 + press_count_while_held(levels.skip(2))
    } else {
        confirmed_press_count(levels.skip(1))
    }
}

/// Presses confirmed after an already-confirmed press whose low run may
/// still be in progress: the remaining low samples of that run count
/// nothing, and counting starts over after the first high reading.
pub open spec fn press_count_while_held(levels: Seq<Level>) -> nat
    decreases levels.len(),
{
    if levels.len() == 0 {
        0
    } else if levels[0] is Low {
        press_count_while_held(levels.skip(1))
    } else {
        confirmed_press_count(levels.skip(1))
    }
}

/// For every sequence of raw level samples, a button starting released emits
/// exactly one press event per contiguous low run of at least two samples —
/// one per press held low for at least the debounce guard — and none for a
/// low run of a single sample.
pub proof fn lemma_one_event_per_press(levels: Seq<Level>)
    ensures
        events_emitted(ButtonState::Released, levels) == confirmed_press_count(levels),
    decreases levels.len(),
{
    reveal_with_fuel(events_emitted, 3);
    reveal_with_fuel(confirmed_press_count, 3);
    if levels.len() == 0 {
    } else if levels[0] is High {
        lemma_one_event_per_press(levels.skip(1));
    } else {
        // levels[0] is Low: the guard interval starts.
        if levels.len() == 1 {
            assert(events_emitted(ButtonState::Debouncing, levels.skip(1)) == 0);
        } else {
            assert(levels.skip(1).skip(1) =~= levels.skip(2));
            if levels[1] is Low {
                // The press is confirmed on the second low sample.
                assert(levels.skip(1)[0] == levels[1]);
                lemma_no_event_while_held(levels.skip(2));
            } else {
                // Bounce back within the guard: dropped as noise.
                assert(levels.skip(1)[0] == levels[1]);
                lemma_one_event_per_press(levels.skip(2));
                if levels.skip(1).len() >= 2 {
                    assert(confirmed_press_count(levels.skip(1)) == confirmed_press_count(
                        levels.skip(2),
                    ));
                }
            }
        }
    }
}

/// While a confirmed press is still held low, no further event is emitted;
/// after release the button counts presses as from the start.
pub proof fn lemma_no_event_while_held(levels: Seq<Level>)
    ensures
        events_emitted(ButtonState::Held, levels) == press_count_while_held(levels),
    decreases levels.len(),
{
    if levels.len() == 0 {
    } else if levels[0] is Low {
        lemma_no_event_while_held(levels.skip(1));
    } else {
        lemma_one_event_per_press(levels.skip(1));
    }
}

} // verus!
