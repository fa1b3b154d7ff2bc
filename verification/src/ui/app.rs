//! The refresh loop's decisions.
//!
//! The loop itself runs outside this library: it carries out one `Action`
//! at a time and reports what came of it as an `Event`. Which action comes
//! next, and when the loop stops, is decided here.

use vstd::prelude::*;

verus! {

/// How long one wait for input lasts, in milliseconds. The wait is the
/// only pause of a tick, so this is the time between two frames as well.
pub const POLL_TIMEOUT_MS: u64 = 200;

/// Whether the loop goes on or is on its way out.
#[derive(Clone, Copy, Debug, PartialEq, Eq, Structural)]
pub enum LoopState {
    Running,
    Stopping,
}

/// A key press, as far as the loop tells keys apart.
#[derive(Clone, Copy, Debug, PartialEq, Eq, Structural)]
pub enum Key {
    Char(char),
    Esc,
    Other,
}

/// What came of the action last asked for.
#[derive(Clone, Copy, Debug, PartialEq, Eq, Structural)]
pub enum Event {
    /// The action was carried out; for a wait, no input came in time.
    Done,
    /// The wait ended with a key press.
    Key(Key),
    /// The wait ended with input that is no key press.
    NonKey,
    /// The action failed.
    Failed,
}

/// What the loop is asked to do next.
#[derive(Clone, Copy, Debug, PartialEq, Eq, Structural)]
pub enum Action {
    /// Switch the terminal to raw input and the alternate screen.
    EnterTerminal,
    /// Sample the host and paint one frame.
    Draw,
    /// Wait for input, for at most this many milliseconds.
    Poll { timeout_ms: u64 },
    /// Give the terminal back: cooked input, main screen, cursor shown.
    LeaveTerminal,
    /// Return to the caller, cleanly or with the failure met on the way.
    Exit { clean: bool },
}

/// Where the loop stands: the action that is under way.
#[derive(Clone, Copy, Debug, PartialEq, Eq, Structural)]
pub enum Phase {
    Entering,
    Drawing,
    Polling,
    Leaving,
    Exited,
}

/// Whether `key` asks to quit: the letter q, or escape.
pub open spec fn is_quit_key(key: Key) -> bool {
    key == Key::Char('q') || key == Key::Esc
}

/// The application's state: one flag, raised by a quit key and read when
/// the loop decides whether to go on.
#[derive(Clone, Copy, Debug, PartialEq, Eq, Structural)]
pub struct App {
    pub should_quit: bool,
}

impl Default for App {
    fn default() -> (app: Self)
        ensures
            !app.should_quit,
    {
        App { should_quit: false }
    }
}

impl App {
    /// The state that the flag stands for.
    pub open spec fn state(&self) -> LoopState {
        if self.should_quit {
            LoopState::Stopping
        } else {
            LoopState::Running
        }
    }

    /// The application after `key`: a quit key raises the flag, no key
    /// lowers it.
    pub open spec fn after_key(self, key: Key) -> App {
        App { should_quit: self.should_quit || is_quit_key(key) }
    }

    /// Raises the flag.
    pub fn quit(&mut self)
        ensures
            final(self).should_quit,
    {
        self.should_quit = true;
    }

    /// Takes in one key press.
    pub fn on_key(&mut self, key: Key)
        ensures
            *final(self) == old(self).after_key(key),
    {
        match key {
            Key::Char(c) => {
                if c == 'q' {
                    self.quit();
                }
            },
            Key::Esc => {
                self.quit();
            },
            Key::Other => {},
        }
    }
}

/// The refresh loop: the application, the action under way, and whether an
/// action has failed so far.
#[derive(Clone, Copy, Debug, PartialEq, Eq, Structural)]
pub struct RefreshLoop {
    pub app: App,
    pub phase: Phase,
    pub failed: bool,
}

impl RefreshLoop {
    /// The loop before anything was done.
    pub open spec fn initial() -> RefreshLoop {
        RefreshLoop { app: App { should_quit: false }, phase: Phase::Entering, failed: false }
    }

    /// Running until the terminal is to be left; stopping from then on.
    pub open spec fn state(self) -> LoopState {
        match self.phase {
            Phase::Leaving | Phase::Exited => LoopState::Stopping,
            _ => LoopState::Running,
        }
    }

    /// The action that is under way.
    pub open spec fn action(self) -> Action {
        match self.phase {
            Phase::Entering => Action::EnterTerminal,
            Phase::Drawing => Action::Draw,
            Phase::Polling => Action::Poll { timeout_ms: POLL_TIMEOUT_MS },
            Phase::Leaving => Action::LeaveTerminal,
            Phase::Exited => Action::Exit { clean: !self.failed },
        }
    }

    /// Leaves the terminal next, having met a failure.
    pub open spec fn fail(self) -> RefreshLoop {
        RefreshLoop { app: self.app, phase: Phase::Leaving, failed: true }
    }

    /// Goes on to the next frame, or to leaving if the flag is up.
    pub open spec fn proceed(self, app: App) -> RefreshLoop {
        RefreshLoop {
            app,
            phase: if app.should_quit {
                Phase::Leaving
            } else {
                Phase::Drawing
            },
            failed: self.failed,
        }
    }

    /// The loop after `event` came of the action under way.
    ///
    /// A failure while running leads to leaving the terminal at once. A
    /// frame drawn is followed by the wait; the wait, whatever ended it, by
    /// the next frame, unless a quit key came. Once the terminal was left
    /// the loop has exited and stays so.
    pub open spec fn next(self, event: Event) -> RefreshLoop {
        match self.phase {
            Phase::Entering => if event == Event::Failed {
                self.fail()
            } else {
                self.proceed(self.app)
            },
            Phase::Drawing => if event == Event::Failed {
                self.fail()
            } else {
                RefreshLoop { app: self.app, phase: Phase::Polling, failed: self.failed }
            },
            Phase::Polling => match event {
                Event::Failed => self.fail(),
                Event::Key(key) => self.proceed(self.app.after_key(key)),
                _ => self.proceed(self.app),
            },
            Phase::Leaving => RefreshLoop {
                app: self.app,
                phase: Phase::Exited,
                failed: self.failed || event == Event::Failed,
            },
            Phase::Exited => self,
        }
    }

    /// The loop after each of `events` came, in order, from the start.
    pub open spec fn after(events: Seq<Event>) -> RefreshLoop
        decreases events.len(),
    {
        if events.len() == 0 {
            Self::initial()
        } else {
            Self::after(events.drop_last()).next(events.last())
        }
    }

    /// How often the loop asked to leave the terminal while `events` came.
    pub open spec fn teardowns(events: Seq<Event>) -> nat
        decreases events.len(),
    {
        if events.len() == 0 {
            0
        } else if Self::after(events).phase == Phase::Leaving {
            Self::teardowns(events.drop_last()) + 1
        } else {
            Self::teardowns(events.drop_last())
        }
    }

    /// A loop at its start: the terminal is to be entered first.
    pub fn new() -> (refresh: Self)
        ensures
            refresh == Self::initial(),
    {
        RefreshLoop { app: App { should_quit: false }, phase: Phase::Entering, failed: false }
    }

    /// Whether the loop is running or stopping.
    pub fn loop_state(&self) -> (state: LoopState)
        ensures
            state == self.state(),
    {
        match self.phase {
            Phase::Leaving | Phase::Exited => LoopState::Stopping,
            _ => LoopState::Running,
        }
    }

    /// The action to carry out now.
    pub fn current_action(&self) -> (action: Action)
        ensures
            action == self.action(),
    {
        match self.phase {
            Phase::Entering => Action::EnterTerminal,
            Phase::Drawing => Action::Draw,
            Phase::Polling => Action::Poll { timeout_ms: POLL_TIMEOUT_MS },
            Phase::Leaving => Action::LeaveTerminal,
            Phase::Exited => Action::Exit { clean: !self.failed },
        }
    }

    /// Takes in what came of the action under way and tells the next one.
    pub fn step(&mut self, event: Event) -> (action: Action)
        ensures
            *final(self) == old(self).next(event),
            action == final(self).action(),
    {
        let failure = match event {
            Event::Failed => true,
            _ => false,
        };
        match self.phase {
            Phase::Entering => {
                if failure {
                    self.set_failed();
                } else {
                    self.set_proceed();
                }
            },
            Phase::Drawing => {
                if failure {
                    self.set_failed();
                } else {
                    self.phase = Phase::Polling;
                }
            },
            Phase::Polling => {
                match event {
                    Event::Failed => {
                        self.set_failed();
                    },
                    Event::Key(key) => {
                        self.app.on_key(key);
                        self.set_proceed();
                    },
                    _ => {
                        self.set_proceed();
                    },
                }
            },
            Phase::Leaving => {
                self.phase = Phase::Exited;
                if failure {
                    self.failed = true;
                }
            },
            Phase::Exited => {},
        }
        self.current_action()
    }

    fn set_failed(&mut self)
        ensures
            *final(self) == old(self).fail(),
    {
        self.phase = Phase::Leaving;
        self.failed = true;
    }

    fn set_proceed(&mut self)
        ensures
            *final(self) == old(self).proceed(old(self).app),
    {
        if self.app.should_quit {
            self.phase = Phase::Leaving;
        } else {
            self.phase = Phase::Drawing;
        }
    }
}

/// A quit key that ends a wait stops the loop at once: the flag is up, the
/// loop is stopping, and the next action gives the terminal back.
pub proof fn lemma_quit_key_stops(refresh: RefreshLoop, key: Key)
    requires
        refresh.phase == Phase::Polling,
        is_quit_key(key),
    ensures
        refresh.next(Event::Key(key)).app.should_quit,
        refresh.next(Event::Key(key)).state() == LoopState::Stopping,
        refresh.next(Event::Key(key)).action() == Action::LeaveTerminal,
        refresh.next(Event::Key(key)).failed == refresh.failed,
{
}

/// Nothing but a quit key or a failure ends the run: after any other end
/// of a wait, with the flag down, the next frame is drawn.
pub proof fn lemma_other_input_is_ignored(refresh: RefreshLoop, event: Event)
    requires
        refresh.phase == Phase::Polling,
        !refresh.app.should_quit,
        event != Event::Failed,
        event matches Event::Key(key) ==> !is_quit_key(key),
    ensures
        refresh.next(event) == (RefreshLoop { phase: Phase::Drawing, ..refresh }),
        refresh.next(event).state() == LoopState::Running,
{
}

/// A failure while running stops the loop at once, is kept, and the next
/// action gives the terminal back.
pub proof fn lemma_failure_stops(refresh: RefreshLoop)
    requires
        refresh.state() == LoopState::Running,
    ensures
        refresh.next(Event::Failed).state() == LoopState::Stopping,
        refresh.next(Event::Failed).action() == Action::LeaveTerminal,
        refresh.next(Event::Failed).failed,
{
}

/// Stopping is final, and a failure once met is never forgotten.
pub proof fn lemma_stopping_is_final(refresh: RefreshLoop, event: Event)
    ensures
        refresh.state() == LoopState::Stopping ==> refresh.next(event).state()
            == LoopState::Stopping,
        refresh.failed ==> refresh.next(event).failed,
{
}

/// Every wait is bounded by the one timeout.
pub proof fn lemma_wait_is_bounded(refresh: RefreshLoop)
    ensures
        refresh.action() matches Action::Poll { timeout_ms } ==> timeout_ms == POLL_TIMEOUT_MS,
{
}

/// Whatever events come, from the start on: while the loop runs it has not
/// asked to leave the terminal; once it stops it has asked exactly once,
/// and it exits only after that. So the terminal is given back once on
/// every path, a quit key or a failure alike.
pub proof fn lemma_terminal_left_once(events: Seq<Event>)
    ensures
        RefreshLoop::after(events).state() == LoopState::Running ==> RefreshLoop::teardowns(events)
            == 0,
        RefreshLoop::after(events).state() == LoopState::Stopping ==> RefreshLoop::teardowns(
            events,
        ) == 1,
    decreases events.len(),
{
    if events.len() > 0 {
        lemma_terminal_left_once(events.drop_last());
    }
}

/// Whether an action failed while `events` came: one of them is a failure
/// that came before the loop had exited.
pub open spec fn met_failure(events: Seq<Event>) -> bool {
    exists|i: int|
        0 <= i < events.len() && events[i] == Event::Failed && (#[trigger] RefreshLoop::after(
            events.take(i),
        )).phase != Phase::Exited
}

/// The loop holds a failure exactly if an action failed on the way, so its
/// exit is clean exactly if none did.
pub proof fn lemma_exit_tells_failure(events: Seq<Event>)
    ensures
        RefreshLoop::after(events).failed == met_failure(events),
        RefreshLoop::after(events).phase == Phase::Exited ==> RefreshLoop::after(events).action()
            == (Action::Exit { clean: !met_failure(events) }),
    decreases events.len(),
{
    if events.len() > 0 {
        let before = events.drop_last();
        let last = events.len() - 1;
        lemma_exit_tells_failure(before);
        assert(events.take(last) =~= before);
        assert forall|i: int| 0 <= i < last implies events.take(i) == before.take(i) by {
            assert(events.take(i) =~= before.take(i));
        }
        if met_failure(before) {
            let i = choose|i: int|
                0 <= i < before.len() && before[i] == Event::Failed && (
                #[trigger] RefreshLoop::after(before.take(i))).phase != Phase::Exited;
            assert(events.take(i) == before.take(i));
            assert(events[i] == Event::Failed);
            assert(RefreshLoop::after(events.take(i)).phase != Phase::Exited);
            assert(met_failure(events));
        }
        if events[last] == Event::Failed && RefreshLoop::after(before).phase != Phase::Exited {
            assert(RefreshLoop::after(events.take(last)).phase != Phase::Exited);
            assert(met_failure(events));
        }
        if met_failure(events) {
            let i = choose|i: int|
                0 <= i < events.len() && events[i] == Event::Failed && (
                #[trigger] RefreshLoop::after(events.take(i))).phase != Phase::Exited;
            if i < last {
                assert(events.take(i) == before.take(i));
                assert(before[i] == Event::Failed);
                assert(RefreshLoop::after(before.take(i)).phase != Phase::Exited);
                assert(met_failure(before));
            }
        }
    }
}

} // verus!
