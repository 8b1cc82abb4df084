//! The menu-driven interface: its events, its state machine, and the loop
//! that feeds one to the other.

pub mod event;
pub mod render;

use vstd::prelude::*;

pub use crate::error::Error;
use crate::error::ErrorView;
use crate::ui::event::{after_rounds, delivered, EventSource, Round};
pub use crate::ui::event::{Event, Key};

verus! {

/// The panels of the interface. Exactly one is active at any time.
#[derive(Debug, Clone, Copy, PartialEq, Eq, Structural)]
pub enum MenuItem {
    Home,
    Query,
    Chart,
    Settings,
}

/// What the loop does once an event has been applied.
#[derive(Debug, Clone, Copy, PartialEq, Eq, Structural)]
pub enum Action {
    /// Draw the current state and wait for the next event.
    Render,
    /// Release the terminal and return.
    Exit,
}

/// Where the terminal failed.
#[derive(Debug, Clone, Copy, PartialEq, Eq, Structural)]
pub enum Stage {
    /// While the terminal was being set up, before the first frame.
    Setup,
    /// While one frame was being drawn.
    Frame,
}

/// The panel that `key` selects, if it selects one.
///
/// Keys are case-sensitive: `H` selects Home, `q` Query, `c` Chart and
/// `s` Settings.
pub open spec fn selection(key: Key) -> Option<MenuItem> {
    match key {
        Key::Char(c) => if c == 'H' {
            Some(MenuItem::Home)
        } else if c == 'q' {
            Some(MenuItem::Query)
        } else if c == 'c' {
            Some(MenuItem::Chart)
        } else if c == 's' {
            Some(MenuItem::Settings)
        } else {
            None
        },
        Key::Other => None,
    }
}

/// Whether `event` asks the interface to stop: only the key `Q` does.
pub open spec fn is_exit(event: Event<Key>) -> bool {
    event == Event::Input(Key::Char('Q'))
}

/// The panel that is active once `event` has been applied while `active` was.
///
/// A tick, the exit key and any key that selects nothing leave it unchanged.
pub open spec fn select(active: MenuItem, event: Event<Key>) -> MenuItem {
    match event {
        Event::Input(key) => match selection(key) {
            Some(item) => item,
            None => active,
        },
        Event::Tick => active,
    }
}

/// The state of the interface: the active panel and whether it still runs.
#[derive(Debug, Clone, Copy, PartialEq, Eq)]
pub struct Ui {
    active: MenuItem,
    running: bool,
}

/// Mathematical model of a [`Ui`].
pub ghost struct UiView {
    /// The panel that is active.
    pub active: MenuItem,
    /// Whether the interface has not been stopped yet.
    pub running: bool,
}

impl View for Ui {
    type V = UiView;

    closed spec fn view(&self) -> UiView {
        UiView { active: self.active, running: self.running }
    }
}

impl UiView {
    /// The initial state: Home is active and the interface runs.
    pub open spec fn initial() -> UiView {
        UiView { active: MenuItem::Home, running: true }
    }

    /// The state once `event` has been applied.
    ///
    /// A stopped interface stays as it is. A running one stops on the exit
    /// key, keeping its panel, and otherwise moves to the selected panel.
    pub open spec fn after(self, event: Event<Key>) -> UiView {
        if !self.running {
            self
        } else if is_exit(event) {
            UiView { active: self.active, running: false }
        } else {
            UiView { active: select(self.active, event), running: true }
        }
    }

    /// The state once a terminal error has been dealt with.
    ///
    /// An error during setup stops the interface. An error on one frame
    /// changes nothing.
    pub open spec fn after_error(self, stage: Stage) -> UiView {
        match stage {
            Stage::Setup => UiView { active: self.active, running: false },
            Stage::Frame => self,
        }
    }

    /// What the loop does next in this state: render while the interface
    /// runs, exit once it is stopped.
    pub open spec fn action(self) -> Action {
        if self.running {
            Action::Render
        } else {
            Action::Exit
        }
    }
}

impl Ui {
    /// The initial state: Home is active and the interface runs.
    pub fn new() -> (ui: Ui)
        ensures
            ui@ == UiView::initial(),
    {
        Ui { active: MenuItem::Home, running: true }
    }

    /// The panel that is active.
    pub fn active(&self) -> (item: MenuItem)
        ensures
            item == self@.active,
    {
        self.active
    }

    /// Whether the interface has not been stopped yet.
    pub fn is_running(&self) -> (running: bool)
        ensures
            running == self@.running,
    {
        self.running
    }

    /// Decides what a terminal error means for the loop.
    ///
    /// An error during setup is fatal: the interface stops, and the error
    /// comes back as a terminal error with the terminal's message, for the
    /// loop to release the terminal and give up with. An error on one frame
    /// changes nothing: the loop goes on, and draws the frame again on its
    /// next pass.
    pub fn on_terminal_error(&mut self, stage: Stage, message: String) -> (outcome: Result<
        Action,
        Error,
    >)
        ensures
            final(self)@ == old(self)@.after_error(stage),
            match outcome {
                Ok(action) => stage == Stage::Frame && action == final(self)@.action(),
                Err(error) => stage == Stage::Setup && error@ == ErrorView::Terminal(message@),
            },
    {
        match stage {
            Stage::Setup => {
                self.running = false;
                Err(Error::Terminal(message))
            },
            Stage::Frame => if self.running {
                Ok(Action::Render)
            } else {
                Ok(Action::Exit)
            },
        }
    }

    /// Applies one event and says what the loop does next.
    ///
    /// A tick and a key that selects nothing leave the state unchanged.
    pub fn on_event(&mut self, event: &Event<Key>) -> (action: Action)
        ensures
            final(self)@ == old(self)@.after(*event),
            action == final(self)@.action(),
    {
        if !self.running {
            return Action::Exit;
        }
        match event {
            Event::Tick => Action::Render,
            Event::Input(Key::Other) => Action::Render,
            Event::Input(Key::Char(c)) => {
                let c: char = *c;
                if c == 'Q' {
                    self.running = false;
                    Action::Exit
                } else {
                    if c == 'H' {
                        self.active = MenuItem::Home;
                    } else if c == 'q' {
                        self.active = MenuItem::Query;
                    } else if c == 'c' {
                        self.active = MenuItem::Chart;
                    } else if c == 's' {
                        self.active = MenuItem::Settings;
                    }
                    Action::Render
                }
            },
        }
    }
}

/// Only the exit key and the four selecting keys change the state: a tick,
/// and any other key, leave a state as it is, and so does every event once
/// the interface is stopped.
pub proof fn lemma_other_events_change_nothing(state: UiView, event: Event<Key>)
    ensures
        event is Tick ==> state.after(event) == state,
        event matches Event::Input(key) && selection(key) is None && !is_exit(event)
            ==> state.after(event) == state,
        !state.running ==> state.after(event) == state,
        state.running && is_exit(event) ==> !state.after(event).running && state.after(
            event,
        ).active == state.active,
{
}

/// What one run of the loop did.
#[derive(Debug, Clone, PartialEq, Eq)]
pub struct Session {
    /// The active panel at each render pass, in order.
    pub frames: Vec<MenuItem>,
    /// Whether the run ended on the exit key, rather than for want of events.
    pub exited: bool,
}

/// Whether `frames` and `exited` are what a run of the interface over
/// `events` shows.
///
/// The first frame shows Home. Every event before the first exit key is
/// followed by one frame, which shows the panel that the event leaves
/// active. The run has exited if there is an exit key, and its frames end
/// before it; otherwise every event has its frame.
pub open spec fn shows(events: Seq<Event<Key>>, frames: Seq<MenuItem>, exited: bool) -> bool {
    &&& 1 <= frames.len() <= events.len() + 1
    &&& frames[0] == MenuItem::Home
    &&& forall|i: int|
        0 <= i < frames.len() - 1 ==> !is_exit(#[trigger] events[i]) && frames[i + 1] == select(
            frames[i],
            events[i],
        )
    &&& exited ==> frames.len() <= events.len() && is_exit(events[frames.len() - 1])
    &&& !exited ==> frames.len() == events.len() + 1
}

/// Runs the interface over `events`: render, take the next event, apply it,
/// and so on until the exit key or the end of the events.
///
/// Nothing after the first exit key is looked at.
pub fn event_loop(events: &Vec<Event<Key>>) -> (session: Session)
    ensures
        shows(events@, session.frames@, session.exited),
{
    let mut ui = Ui::new();
    let mut frames: Vec<MenuItem> = Vec::new();
    frames.push(ui.active());
    let mut i: usize = 0;
    while i < events.len()
        invariant
            i <= events@.len(),
            ui@.running,
            frames@.len() == i + 1,
            frames@[0] == MenuItem::Home,
            frames@[i as int] == ui@.active,
            forall|k: int|
                0 <= k < i ==> !is_exit(#[trigger] events@[k]) && frames@[k + 1] == select(
                    frames@[k],
                    events@[k],
                ),
        decreases events@.len() - i,
    {
        match ui.on_event(&events[i]) {
            Action::Exit => {
                return Session { frames, exited: true };
            },
            Action::Render => {
                frames.push(ui.active());
            },
        }
        i += 1;
    }
    Session { frames, exited: false }
}

/// Runs the interface on what the event source delivers over `rounds`: the
/// source ends each round, and the loop takes every event as soon as it is
/// emitted.
pub fn run(source: &mut EventSource, rounds: &Vec<Round>) -> (session: Session)
    ensures
        shows(delivered(*old(source), rounds@), session.frames@, session.exited),
        *final(source) == after_rounds(*old(source), rounds@),
{
    let events = source.pump(rounds);
    event_loop(&events)
}

} // verus!
