//! The general properties of the dispatcher's transition relation, stated
//! and proved once over the specification functions that `handle_event`'s
//! contract is written in.

use vstd::prelude::*;
use crate::clock::spec_clock;
use crate::dispatch::{
    spec_exits, spec_label, spec_next, spec_releases, spec_tray_after, MenuChoice, TimerEvent,
    SESSION_SECONDS,
};
use crate::session::{SessionState, Status};

verus! {

/// The session state after `n` due ticks in a row.
pub open spec fn spec_after_ticks(s: SessionState, n: nat) -> SessionState
    decreases n,
{
    if n == 0 {
        s
    } else {
        spec_next(spec_after_ticks(s, (n - 1) as nat), TimerEvent::TickDue)
    }
}

/// A due tick delivered while the session is not running changes neither
/// the status nor the remaining time.
pub proof fn lemma_tick_ignored_unless_running(s: SessionState)
    requires
        s.status != Status::Running,
    ensures
        spec_next(s, TimerEvent::TickDue) == s,
{
}

/// Starting an idle session and then pausing and resuming it leaves the
/// remaining time at the full session length: the pause/resume pair of
/// primary clicks changes nothing but the status, and ends running again.
pub proof fn lemma_pause_resume_round_trip(s: SessionState)
    requires
        s.wf(),
        s.status == Status::Idle,
    ensures
        spec_next(s, TimerEvent::PrimaryClick) == (SessionState {
            status: Status::Running,
            remaining: SESSION_SECONDS,
        }),
        spec_next(spec_next(s, TimerEvent::PrimaryClick), TimerEvent::PrimaryClick)
            == (SessionState { status: Status::Paused, remaining: SESSION_SECONDS }),
        spec_next(
            spec_next(spec_next(s, TimerEvent::PrimaryClick), TimerEvent::PrimaryClick),
            TimerEvent::PrimaryClick,
        ) == spec_next(s, TimerEvent::PrimaryClick),
{
}

/// The countdown is monotonic and exact: from a running session, each due
/// tick takes exactly one second off until the count reaches zero, at
/// which point the session is idle with nothing remaining — the count
/// never goes below zero.
pub proof fn lemma_countdown(s: SessionState, n: nat)
    requires
        s.status == Status::Running,
        s.remaining >= 1,
        n <= s.remaining,
    ensures
        n < s.remaining ==> spec_after_ticks(s, n) == (SessionState {
            status: Status::Running,
            remaining: (s.remaining - n) as u64,
        }),
        n == s.remaining ==> spec_after_ticks(s, n) == (SessionState {
            status: Status::Idle,
            remaining: 0,
        }),
    decreases n,
{
    if n > 0 {
        lemma_countdown(s, (n - 1) as nat);
    }
}

/// Delivering the full session length of due ticks to a freshly started
/// session ends it: idle, with nothing remaining.
pub proof fn lemma_full_session_countdown()
    ensures
        spec_after_ticks(
            SessionState { status: Status::Running, remaining: SESSION_SECONDS },
            SESSION_SECONDS as nat,
        ) == (SessionState { status: Status::Idle, remaining: 0 }),
{
    lemma_countdown(
        SessionState { status: Status::Running, remaining: SESSION_SECONDS },
        SESSION_SECONDS as nat,
    );
}

/// Clearing from any state yields an idle session with nothing remaining,
/// and — while the tray resource is held — pushes exactly one label,
/// reading `00:00`.
pub proof fn lemma_clear_resets(s: SessionState, tray_held: bool)
    ensures
        spec_next(s, TimerEvent::MenuSelect(MenuChoice::Clear)) == (SessionState {
            status: Status::Idle,
            remaining: 0,
        }),
        tray_held ==> spec_label(s, tray_held, TimerEvent::MenuSelect(MenuChoice::Clear))
            == Some("00:00"@),
{
    reveal_strlit("00:00");
    assert(spec_clock(0) =~= "00:00"@);
}

/// Quitting releases the tray resource exactly once: the quit event
/// itself releases it while it is held, after which no event — whatever
/// is still queued — pushes a label or releases it again, and only the
/// quit event asks the process to terminate.
pub proof fn lemma_quit_releases_once(s: SessionState, ev: TimerEvent)
    ensures
        spec_releases(true, TimerEvent::MenuSelect(MenuChoice::Quit)),
        !spec_tray_after(true, TimerEvent::MenuSelect(MenuChoice::Quit)),
        spec_label(s, false, ev) == None::<Seq<char>>,
        !spec_releases(false, ev),
        spec_exits(ev) <==> ev == TimerEvent::MenuSelect(MenuChoice::Quit),
{
}

} // verus!
