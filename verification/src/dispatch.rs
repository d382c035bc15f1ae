//! The event dispatcher: the sole mutator of the session state. Each call
//! handles exactly one event and yields a directive — at most one label
//! push, at most one scheduling request, and the release / exit signals —
//! for the surrounding event loop to carry out.

use vstd::prelude::*;
use crate::clock::{format_timer, spec_clock};
use crate::session::{SessionState, Status};

verus! {

/// The two fixed context-menu items, told apart by identity.
#[derive(PartialEq, Eq, Structural, Clone, Copy, Debug)]
pub enum MenuChoice {
    Clear,
    Quit,
}

/// One external event, as the surrounding event loop delivers it.
#[derive(PartialEq, Eq, Structural, Clone, Copy, Debug)]
pub enum TimerEvent {
    /// The event loop has started; nothing has happened yet.
    Init,
    /// One second has elapsed since the last requested wake-up.
    TickDue,
    /// The tray icon's primary (left-click) activation.
    PrimaryClick,
    /// A context-menu item was selected.
    MenuSelect(MenuChoice),
    /// Any event kind the timer does not care about.
    Other,
}

/// A scheduling request for the surrounding event loop: sleep until the
/// next external event, or wake again in exactly one second.
#[derive(PartialEq, Eq, Structural, Clone, Copy, Debug)]
pub enum Schedule {
    WaitIndefinitely,
    WakeInOneSecond,
}

/// What the event loop must do after one event was handled: push a label
/// to the tray (at most one), change the wait deadline (at most once),
/// release the tray resource, or exit the process.
pub struct Directive {
    /// The new tray label, when a transition changed the visible state and
    /// the tray resource is still held.
    pub label: Option<String>,
    /// The new wait deadline, when the event asks for one; `None` leaves
    /// the event loop's current deadline alone.
    pub schedule: Option<Schedule>,
    /// Release the tray resource now (only ever on quit, and only once).
    pub release_tray: bool,
    /// Terminate the process with exit code zero.
    pub exit: bool,
}

/// The full session length: twenty minutes, in seconds.
pub const SESSION_SECONDS: u64 = 1200;

/// The session state after one event.
///
/// A primary click starts an idle session at the full length, pauses a
/// running one and resumes a paused one. A due tick counts a running
/// session down by one second; a tick that would reach zero ends the
/// session, back to idle. Clearing resets to idle from any state. Every
/// other event leaves the state alone.
pub open spec fn spec_next(s: SessionState, ev: TimerEvent) -> SessionState {
    match ev {
        TimerEvent::TickDue => {
            if s.status == Status::Running {
                if s.remaining <= 1 {
                    SessionState { status: Status::Idle, remaining: 0 }
                } else {
                    SessionState { status: Status::Running, remaining: (s.remaining - 1) as u64 }
                }
            } else {
                s
            }
        },
        TimerEvent::PrimaryClick => {
            match s.status {
                Status::Idle => SessionState { status: Status::Running, remaining: SESSION_SECONDS },
                Status::Running => SessionState { status: Status::Paused, remaining: s.remaining },
                Status::Paused => SessionState { status: Status::Running, remaining: s.remaining },
            }
        },
        TimerEvent::MenuSelect(MenuChoice::Clear) => SessionState {
            status: Status::Idle,
            remaining: 0,
        },
        _ => s,
    }
}

/// Whether the tray resource is still held after one event: quitting
/// hands it off, nothing else touches it.
pub open spec fn spec_tray_after(tray_held: bool, ev: TimerEvent) -> bool {
    tray_held && ev != TimerEvent::MenuSelect(MenuChoice::Quit)
}

/// The label pushed for one event, if any: the `MM:SS` rendering of the
/// remaining seconds right after the transition. Every primary click,
/// every clear and every accepted tick pushes one label; ignored events
/// and quitting push none, and none is pushed once the tray resource is
/// gone.
pub open spec fn spec_label(s: SessionState, tray_held: bool, ev: TimerEvent) -> Option<
    Seq<char>,
> {
    if !tray_held {
        None
    } else {
        match ev {
            TimerEvent::TickDue => {
                if s.status == Status::Running {
                    Some(spec_clock(spec_next(s, ev).remaining as nat))
                } else {
                    None
                }
            },
            TimerEvent::PrimaryClick => Some(spec_clock(spec_next(s, ev).remaining as nat)),
            TimerEvent::MenuSelect(MenuChoice::Clear) => Some(spec_clock(0)),
            _ => None,
        }
    }
}

/// The scheduling request for one event: ticks are wanted exactly while
/// the session is running; starting, clearing and init fall back to an
/// indefinite wait; ignored events and quitting change nothing.
pub open spec fn spec_schedule(s: SessionState, ev: TimerEvent) -> Option<Schedule> {
    match ev {
        TimerEvent::Init => Some(Schedule::WaitIndefinitely),
        TimerEvent::TickDue => {
            if s.status == Status::Running {
                if spec_next(s, ev).status == Status::Running {
                    Some(Schedule::WakeInOneSecond)
                } else {
                    Some(Schedule::WaitIndefinitely)
                }
            } else {
                None
            }
        },
        TimerEvent::PrimaryClick => {
            if spec_next(s, ev).status == Status::Running {
                Some(Schedule::WakeInOneSecond)
            } else {
                Some(Schedule::WaitIndefinitely)
            }
        },
        TimerEvent::MenuSelect(MenuChoice::Clear) => Some(Schedule::WaitIndefinitely),
        _ => None,
    }
}

/// Whether one event releases the tray resource: only quitting, and only
/// while the resource is still held, so it can never be released twice.
pub open spec fn spec_releases(tray_held: bool, ev: TimerEvent) -> bool {
    tray_held && ev == TimerEvent::MenuSelect(MenuChoice::Quit)
}

/// Whether one event asks the process to terminate.
pub open spec fn spec_exits(ev: TimerEvent) -> bool {
    ev == TimerEvent::MenuSelect(MenuChoice::Quit)
}

/// The event dispatcher. It exclusively owns the session state and a
/// record of whether the tray resource is still held, and processes one
/// event per call, in arrival order.
pub struct Dispatcher {
    pub state: SessionState,
    pub tray_held: bool,
}

impl Dispatcher {
    /// The dispatcher's invariant: the session state's own invariant.
    pub open spec fn wf(self) -> bool {
        self.state.wf()
    }

    /// A dispatcher at process start: an idle session, with the tray
    /// resource freshly acquired and held.
    pub fn new() -> (d: Dispatcher)
        ensures
            d.state.status == Status::Idle,
            d.state.remaining == 0,
            d.tray_held,
            d.wf(),
    {
        Dispatcher { state: SessionState::new(), tray_held: true }
    }

    /// Handle exactly one event: apply the transition, and return the
    /// directive — label push, scheduling request, release and exit
    /// signals — that the surrounding event loop must carry out.
    pub fn handle_event(&mut self, ev: TimerEvent) -> (d: Directive)
        requires
            old(self).wf(),
        ensures
            final(self).wf(),
            final(self).state == spec_next(old(self).state, ev),
            final(self).tray_held == spec_tray_after(old(self).tray_held, ev),
            (match d.label {
                Some(l) => Some(l@),
                None => None,
            }) == spec_label(old(self).state, old(self).tray_held, ev),
            d.schedule == spec_schedule(old(self).state, ev),
            d.release_tray == spec_releases(old(self).tray_held, ev),
            d.exit == spec_exits(ev),
    {
        match ev {
            TimerEvent::Init => Directive {
                label: None,
                schedule: Some(Schedule::WaitIndefinitely),
                release_tray: false,
                exit: false,
            },
            TimerEvent::TickDue => {
                match self.state.status {
                    Status::Running => {
                        if self.state.remaining <= 1 {
                            self.state = SessionState { status: Status::Idle, remaining: 0 };
                            Directive {
                                label: self.label_now(),
                                schedule: Some(Schedule::WaitIndefinitely),
                                release_tray: false,
                                exit: false,
                            }
                        } else {
                            self.state = SessionState {
                                status: Status::Running,
                                remaining: self.state.remaining - 1,
                            };
                            Directive {
                                label: self.label_now(),
                                schedule: Some(Schedule::WakeInOneSecond),
                                release_tray: false,
                                exit: false,
                            }
                        }
                    },
                    _ => Directive { label: None, schedule: None, release_tray: false, exit: false },
                }
            },
            TimerEvent::PrimaryClick => {
                match self.state.status {
                    Status::Idle => {
                        self.state = SessionState {
                            status: Status::Running,
                            remaining: SESSION_SECONDS,
                        };
                        Directive {
                            label: self.label_now(),
                            schedule: Some(Schedule::WakeInOneSecond),
                            release_tray: false,
                            exit: false,
                        }
                    },
                    Status::Running => {
                        self.state = SessionState {
                            status: Status::Paused,
                            remaining: self.state.remaining,
                        };
                        Directive {
                            label: self.label_now(),
                            schedule: Some(Schedule::WaitIndefinitely),
                            release_tray: false,
                            exit: false,
                        }
                    },
                    Status::Paused => {
                        self.state = SessionState {
                            status: Status::Running,
                            remaining: self.state.remaining,
                        };
                        Directive {
                            label: self.label_now(),
                            schedule: Some(Schedule::WakeInOneSecond),
                            release_tray: false,
                            exit: false,
                        }
                    },
                }
            },
            TimerEvent::MenuSelect(MenuChoice::Clear) => {
                self.state = SessionState { status: Status::Idle, remaining: 0 };
                Directive {
                    label: self.label_now(),
                    schedule: Some(Schedule::WaitIndefinitely),
                    release_tray: false,
                    exit: false,
                }
            },
            TimerEvent::MenuSelect(MenuChoice::Quit) => {
                let released = self.tray_held;
                self.tray_held = false;
                Directive { label: None, schedule: None, release_tray: released, exit: true }
            },
            TimerEvent::Other => Directive {
                label: None,
                schedule: None,
                release_tray: false,
                exit: false,
            },
        }
    }

    /// The label for the current remaining time, when the tray resource
    /// is still held.
    fn label_now(&self) -> (r: Option<String>)
        ensures
            (match r {
                Some(l) => Some(l@),
                None => None,
            }) == if self.tray_held {
                Some(spec_clock(self.state.remaining as nat))
            } else {
                None::<Seq<char>>
            },
    {
        if self.tray_held {
            Some(format_timer(self.state.remaining))
        } else {
            None
        }
    }
}

} // verus!
