use vstd::prelude::*;
use crate::error::OglError;

verus! {

/// SDL's key code of the Escape key.
pub const SDL_KEY_ESCAPE: i32 = 27;

/// Linux input-event code of the Escape key, as the compositor reports it.
pub const EVDEV_KEY_ESC: u32 = 1;

/// An input or window event, as the windowing backends hand it over.
#[derive(Debug, Clone, Copy, PartialEq, Eq, Structural)]
pub enum InputEvent {
    /// The window was asked to close.
    Quit,
    /// A key went down in the SDL backend, with SDL's key code.
    SdlKeyDown(i32),
    /// A key was pressed in the compositor backend, with its input-event code.
    WaylandKeyPressed(u32),
    /// Anything else.
    Other,
}

/// Whether an event asks the render loop to stop.
pub open spec fn event_stops(e: InputEvent) -> bool {
    match e {
        InputEvent::Quit => true,
        InputEvent::SdlKeyDown(k) => k == SDL_KEY_ESCAPE,
        InputEvent::WaylandKeyPressed(k) => k == EVDEV_KEY_ESC,
        InputEvent::Other => false,
    }
}

/// Whether an event asks the render loop to stop.
pub fn requests_stop(e: &InputEvent) -> (r: bool)
    ensures
        r == event_stops(*e),
{
    match e {
        InputEvent::Quit => true,
        InputEvent::SdlKeyDown(k) => *k == SDL_KEY_ESCAPE,
        InputEvent::WaylandKeyPressed(k) => *k == EVDEV_KEY_ESC,
        InputEvent::Other => false,
    }
}

/// The state of one run of the render loop: the instant it started, on a monotonic clock in
/// milliseconds, and whether it is still running.
pub struct RunState {
    start_ms: Option<u64>,
    running: bool,
}

impl RunState {
    /// The clock reading taken when the run started, if it has.
    pub closed spec fn start(&self) -> Option<u64> {
        self.start_ms
    }

    /// Whether the loop is running.
    pub closed spec fn running(&self) -> bool {
        self.running
    }

    /// A run that has not started.
    pub fn new() -> (r: RunState)
        ensures
            r.start() is None,
            !r.running(),
    {
        RunState { start_ms: None, running: false }
    }

    /// Starts the run at clock reading `now_ms`. A run starts once: a second start fails
    /// with `Unexpected` and changes nothing.
    pub fn global_run(&mut self, now_ms: u64) -> (r: Result<(), OglError>)
        ensures
            old(self).start() is None ==> r is Ok && final(self).start() == Some(now_ms)
                && final(self).running(),
            old(self).start() is Some ==> r == Err::<(), OglError>(OglError::Unexpected)
                && final(self).start() == old(self).start() && final(self).running()
                == old(self).running(),
    {
        if self.start_ms.is_some() {
            return Err(OglError::Unexpected);
        }
        self.start_ms = Some(now_ms);
        self.running = true;
        Ok(())
    }

    /// Asks the loop to stop; the start instant stays.
    pub fn global_stop(&mut self)
        ensures
            !final(self).running(),
            final(self).start() == old(self).start(),
    {
        self.running = false;
    }

    /// Whether the loop should go on.
    pub fn is_running(&self) -> (r: bool)
        ensures
            r == self.running(),
    {
        self.running
    }

    /// Stops the run when the event asks for it, and leaves it as it is otherwise.
    pub fn handle_event(&mut self, e: &InputEvent)
        ensures
            final(self).start() == old(self).start(),
            final(self).running() == (old(self).running() && !event_stops(*e)),
    {
        if requests_stop(e) {
            self.global_stop();
        }
    }
}

/// Milliseconds from the start of the run to clock reading `now_ms` (zero for a reading
/// before the start).
pub open spec fn millis_since(start: u64, now_ms: u64) -> int {
    if now_ms >= start {
        now_ms - start
    } else {
        0
    }
}

/// Milliseconds elapsed since the run started, at clock reading `now_ms`. Fails with
/// `Unexpected` before the run has started.
pub fn elapsed_milliseconds(state: &RunState, now_ms: u64) -> (r: Result<u64, OglError>)
    ensures
        match state.start() {
            Some(s) => r == Ok::<u64, OglError>(millis_since(s, now_ms) as u64),
            None => r == Err::<u64, OglError>(OglError::Unexpected),
        },
{
    match state.start_ms {
        Some(s) => Ok(now_ms.saturating_sub(s)),
        None => Err(OglError::Unexpected),
    }
}

/// Whole seconds elapsed since the run started, at clock reading `now_ms`. Fails with
/// `Unexpected` before the run has started.
pub fn elapsed_seconds(state: &RunState, now_ms: u64) -> (r: Result<u64, OglError>)
    ensures
        match state.start() {
            Some(s) => r == Ok::<u64, OglError>((millis_since(s, now_ms) / 1000) as u64),
            None => r == Err::<u64, OglError>(OglError::Unexpected),
        },
{
    match elapsed_milliseconds(state, now_ms) {
        Ok(ms) => Ok(ms / 1000),
        Err(e) => Err(e),
    }
}

/// Before the run starts, asking for the elapsed time fails; once it has started, the
/// elapsed time never goes down as the clock reading goes up.
pub proof fn lemma_elapsed_monotonic(state: RunState, earlier_ms: u64, later_ms: u64)
    requires
        earlier_ms <= later_ms,
    ensures
        state.start() is None ==> millis_since_start(state, earlier_ms) is None,
        state.start() is Some ==> {
            &&& millis_since_start(state, earlier_ms) is Some
            &&& millis_since_start(state, earlier_ms).unwrap() <= millis_since_start(
                state,
                later_ms,
            ).unwrap()
            &&& millis_since_start(state, earlier_ms).unwrap() / 1000 <= millis_since_start(
                state,
                later_ms,
            ).unwrap() / 1000
        },
{
    if let Some(s) = state.start() {
        let a = millis_since(s, earlier_ms);
        let b = millis_since(s, later_ms);
        assert(a <= b);
        assert(a / 1000 <= b / 1000) by (nonlinear_arith)
            requires
                0 <= a <= b,
        ;
    }
}

/// The elapsed milliseconds that `elapsed_milliseconds` reports at `now_ms`, if the run
/// has started.
pub open spec fn millis_since_start(state: RunState, now_ms: u64) -> Option<int> {
    match state.start() {
        Some(s) => Some(millis_since(s, now_ms)),
        None => None,
    }
}

} // verus!
