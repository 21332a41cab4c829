//! The orchestration state machine behind the device's polling loop.
//!
//! Once per tick the surrounding loop samples the four button lines and the
//! encoder count and hands them to [`Poller::tick`], which decides
//! everything: which input is serviced, how the selection moves, whether a
//! render is issued, and which wait the loop performs before the next tick.
//! The loop itself only performs the returned action — it draws the index
//! given by `render`, then sleeps for the returned wait — so one call of
//! `tick` is one iteration of the loop.
//!
//! Buttons are scanned in fixed priority order 1 > 2 > 3 > 4, and a button
//! that has started its debounce guard owns the loop until its line reads
//! high again: while it is serviced, the other three buttons and the encoder
//! are not looked at. Concurrent multi-input interaction is out of scope by
//! design.

use vstd::prelude::*;

use crate::TOTAL_IMAGES;
use crate::button::{button_emits, button_step, ButtonState, DebouncedButton, Level};
use crate::rotary::{RotaryDelta, RotationEvent};
use crate::selection::{spec_rotate, Direction, SelectionController};

verus! {

/// Which timed wait the loop performs after a tick.
#[derive(Clone, Copy, Debug, PartialEq, Eq, Structural)]
pub enum WaitKind {
    /// The debounce guard interval: a press is pending confirmation.
    Guard,
    /// The coarse hold-poll interval: a held button is watched for release.
    HoldPoll,
    /// The base scan interval between two full input scans.
    Tick,
}

/// What the loop does after one tick: draw at most one image, then wait.
///
/// `render` carries the index to draw, or nothing; at most one render is
/// issued per tick, so renders follow the sequence of detected events with
/// no reordering or batching.
#[derive(Clone, Copy, Debug, PartialEq, Eq)]
pub struct TickOutcome {
    pub render: Option<u8>,
    pub wait: WaitKind,
}

/// The poller's state, as the contracts speak of it.
///
/// `engaged` is 0 while no button owns the loop, else the number (1 to 4) of
/// the button being serviced, whose debounce state is `button`. `halted` is
/// set when the render sink failed to initialize: the device then does
/// nothing ever after.
pub struct PollerModel {
    pub selected: u8,
    pub last_observed: int,
    pub engaged: u8,
    pub button: ButtonState,
    pub halted: bool,
}

impl PollerModel {
    /// The selection is a valid index, and a button owns the loop exactly
    /// while its debounce state is away from `Released`.
    pub open spec fn wf(self) -> bool {
        &&& self.selected < TOTAL_IMAGES
        &&& (self.engaged == 0 <==> self.button is Released)
        &&& self.engaged <= 4
    }
}

/// The state a freshly started device is in: default image selected, no
/// button engaged, the encoder reference at the reading taken at startup,
/// halted exactly when the render sink failed to initialize.
pub open spec fn init_model(initial_count: i32, init_ok: bool) -> PollerModel {
    PollerModel {
        selected: 0,
        last_observed: initial_count as int,
        engaged: 0,
        button: ButtonState::Released,
        halted: !init_ok,
    }
}

/// The raw level of the button line numbered `n`, out of the four sampled
/// lines.
pub open spec fn level_of(n: u8, k1: Level, k2: Level, k3: Level, k4: Level) -> Level {
    if n == 1 {
        k1
    } else if n == 2 {
        k2
    } else if n == 3 {
        k3
    } else {
        k4
    }
}

/// One tick of the polling loop, as a function of the sampled inputs.
///
/// A halted device ignores its inputs and never renders. Otherwise, while no
/// button is engaged, the four lines are scanned in priority order and the
/// first low one starts its debounce guard, suppressing the others and the
/// encoder for this tick; if all read high, the encoder is polled and a step
/// beyond the dead band moves the selection one place in the step's
/// direction and renders the new index. While a button is engaged, only its
/// own line is sampled: a low reading during the guard confirms the press,
/// selects that button's image and renders it once; any high reading
/// releases the button; a confirmed press then holds the loop, rendering
/// nothing more, until release.
pub open spec fn spec_tick(
    m: PollerModel,
    k1: Level,
    k2: Level,
    k3: Level,
    k4: Level,
    count: i32,
) -> (PollerModel, TickOutcome)
    recommends
        m.wf(),
{
    if m.halted {
        (m, TickOutcome { render: None, wait: WaitKind::Tick })
    } else if m.engaged == 0 {
        if k1 is Low {
            (PollerModel { engaged: 1, button: ButtonState::Debouncing, ..m },
            TickOutcome { render: None, wait: WaitKind::Guard })
        } else if k2 is Low {
            (PollerModel { engaged: 2, button: ButtonState::Debouncing, ..m },
            TickOutcome { render: None, wait: WaitKind::Guard })
        } else if k3 is Low {
            (PollerModel { engaged: 3, button: ButtonState::Debouncing, ..m },
            TickOutcome { render: None, wait: WaitKind::Guard })
        } else if k4 is Low {
            (PollerModel { engaged: 4, button: ButtonState::Debouncing, ..m },
            TickOutcome { render: None, wait: WaitKind::Guard })
        } else {
            let diff = count - m.last_observed;
            if diff > crate::ROTATION_DEAD_BAND {
                let i = spec_rotate(m.selected, Direction::Right);
                (PollerModel { selected: i, last_observed: count as int, ..m },
                TickOutcome { render: Some(i), wait: WaitKind::Tick })
            } else if diff < -crate::ROTATION_DEAD_BAND {
                let i = spec_rotate(m.selected, Direction::Left);
                (PollerModel { selected: i, last_observed: count as int, ..m },
                TickOutcome { render: Some(i), wait: WaitKind::Tick })
            } else {
                (m, TickOutcome { render: None, wait: WaitKind::Tick })
            }
        }
    } else {
        let lvl = level_of(m.engaged, k1, k2, k3, k4);
        let stepped = PollerModel { button: button_step(m.button, lvl), ..m };
        if button_emits(m.button, lvl) {
            (PollerModel { selected: m.engaged, ..stepped },
            TickOutcome { render: Some(m.engaged), wait: WaitKind::HoldPoll })
        } else if button_step(m.button, lvl) is Released {
            (PollerModel { engaged: 0, ..stepped },
            TickOutcome { render: None, wait: WaitKind::Tick })
        } else {
            (stepped, TickOutcome { render: None, wait: WaitKind::HoldPoll })
        }
    }
}

/// The polling loop's state: the selection, the encoder tracker, and the
/// debounce state of the button currently owning the loop, if any.
pub struct Poller {
    selection: SelectionController,
    rotary: RotaryDelta,
    engaged: u8,
    button: DebouncedButton,
    halted: bool,
}

impl View for Poller {
    type V = PollerModel;

    closed spec fn view(&self) -> PollerModel {
        PollerModel {
            selected: self.selection@,
            last_observed: self.rotary@,
            engaged: self.engaged,
            button: self.button@,
            halted: self.halted,
        }
    }
}

impl Poller {
    /// Set up a freshly started device: selection at the default image,
    /// encoder reference at the reading just taken, and halted when the
    /// render sink's initialization failed.
    pub fn new(initial_count: i32, init_ok: bool) -> (p: Self)
        ensures
            p@ == init_model(initial_count, init_ok),
            p@.wf(),
    {
        Poller {
            selection: SelectionController::new(),
            rotary: RotaryDelta::new(initial_count),
            engaged: 0,
            button: DebouncedButton::new(),
            halted: !init_ok,
        }
    }

    /// The index the loop draws once at startup, before the first tick:
    /// the default image — unless initialization failed, in which case
    /// nothing is ever drawn.
    pub fn startup_render(&self) -> (r: Option<u8>)
        ensures
            self@.halted ==> r is None,
            !self@.halted ==> r == Some(self@.selected),
    {
        if self.halted {
            None
        } else {
            Some(self.selection.current())
        }
    }

    /// The currently selected image index.
    pub fn current_index(&self) -> (i: u8)
        ensures
            i == self@.selected,
    {
        self.selection.current()
    }

    /// Whether the device is halted for good.
    pub fn is_halted(&self) -> (h: bool)
        ensures
            h == self@.halted,
    {
        self.halted
    }

    /// Run one iteration of the polling loop on the sampled inputs; the
    /// state and the outcome are exactly those of [`spec_tick`].
    pub fn tick(&mut self, k1: Level, k2: Level, k3: Level, k4: Level, count: i32) -> (outcome:
        TickOutcome)
        requires
            old(self)@.wf(),
        ensures
            final(self)@ == spec_tick(old(self)@, k1, k2, k3, k4, count).0,
            outcome == spec_tick(old(self)@, k1, k2, k3, k4, count).1,
            final(self)@.wf(),
    {
        if self.halted {
            return TickOutcome { render: None, wait: WaitKind::Tick };
        }
        if self.engaged == 0 {
            let pressed: u8 = if matches!(k1, Level::Low) {
                1
            } else if matches!(k2, Level::Low) {
                2
            } else if matches!(k3, Level::Low) {
                3
            } else if matches!(k4, Level::Low) {
                4
            } else {
                0
            };
            if pressed != 0 {
                let _ = self.button.sample(Level::Low);
                self.engaged = pressed;
                return TickOutcome { render: None, wait: WaitKind::Guard };
            }
            let ev = self.rotary.update(count);
            match ev {
                RotationEvent::StepRight(_) => {
                    let i = self.selection.apply_rotation(Direction::Right);
                    TickOutcome { render: Some(i), wait: WaitKind::Tick }
                },
                RotationEvent::StepLeft(_) => {
                    let i = self.selection.apply_rotation(Direction::Left);
                    TickOutcome { render: Some(i), wait: WaitKind::Tick }
                },
                RotationEvent::NoStep => TickOutcome { render: None, wait: WaitKind::Tick },
            }
        } else {
            let lvl = level_of_line(self.engaged, k1, k2, k3, k4);
            let ev = self.button.sample(lvl);
            if ev.is_some() {
                let i = self.selection.apply_button(self.engaged);
                TickOutcome { render: Some(i), wait: WaitKind::HoldPoll }
            } else if self.button.is_released() {
                self.engaged = 0;
                TickOutcome { render: None, wait: WaitKind::Tick }
            } else {
                TickOutcome { render: None, wait: WaitKind::HoldPoll }
            }
        }
    }
}

/// Pick the raw level of line `n` out of the four sampled lines.
fn level_of_line(n: u8, k1: Level, k2: Level, k3: Level, k4: Level) -> (lvl: Level)
    ensures
        lvl == level_of(n, k1, k2, k3, k4),
{
    if n == 1 {
        k1
    } else if n == 2 {
        k2
    } else if n == 3 {
        k3
    } else {
        k4
    }
}

/// A tick of a well-formed state leaves the state well formed: in
/// particular the selection never leaves `[0, TOTAL_IMAGES)`.
pub proof fn lemma_tick_preserves_wf(
    m: PollerModel,
    k1: Level,
    k2: Level,
    k3: Level,
    k4: Level,
    count: i32,
)
    requires
        m.wf(),
    ensures
        spec_tick(m, k1, k2, k3, k4, count).0.wf(),
{
}

/// Whenever a tick issues a render, it renders exactly the new selection,
/// and that index is valid: every draw the loop performs shows the image
/// the controller just selected.
pub proof fn lemma_render_is_selected(
    m: PollerModel,
    k1: Level,
    k2: Level,
    k3: Level,
    k4: Level,
    count: i32,
)
    requires
        m.wf(),
    ensures
        spec_tick(m, k1, k2, k3, k4, count).1.render matches Some(i) ==> {
            &&& i == spec_tick(m, k1, k2, k3, k4, count).0.selected
            &&& i < TOTAL_IMAGES
        },
{
}

/// A halted device stays halted and never renders, whatever its inputs: a
/// failed render-sink initialization silences the device for good.
pub proof fn lemma_halted_never_renders(
    m: PollerModel,
    k1: Level,
    k2: Level,
    k3: Level,
    k4: Level,
    count: i32,
)
    requires
        m.halted,
    ensures
        spec_tick(m, k1, k2, k3, k4, count).0 == m,
        spec_tick(m, k1, k2, k3, k4, count).1.render is None,
{
}

} // verus!
