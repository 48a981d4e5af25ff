//! The player-phase turn timer: how long a phase may last and when the game
//! is told to end it.
use vstd::prelude::*;
use crate::patches::{TextPatch, PatchWrite, spec_word_patch, spec_nop_patch, word_patch, nop_patch};

verus! {

/// The name of the game variable that holds the timer setting (0 to 6).
pub const TIMER_KEY: &'static str = "G_TIMER";

/// Code offset of the check that ends the player phase only when no player
/// unit can act any more.
pub const TURN_END_CHECK: usize = 0x0267357c;

/// The force number of the player force.
pub const PLAYER_FORCE: i32 = 0;

/// The game's own turn-end check, restored.
pub open spec fn spec_turn_end_check_restored() -> TextPatch {
    spec_word_patch(TURN_END_CHECK, 0x80, 0x01, 0x00, 0xb5)
}

/// The turn-end check removed: the phase ends even while units can act.
pub open spec fn spec_turn_end_check_removed() -> TextPatch {
    spec_nop_patch(TURN_END_CHECK)
}

/// The frames a player phase may last for the timer setting `toggle`, with
/// `player_count` units in the player force: -1 (no limit) for 0, `toggle`
/// minutes for 1 to 3, and 15 seconds per unit times `toggle - 3` from 4 on
/// (the game runs at 30 frames per second).
pub open spec fn spec_allocated_time(toggle: int, player_count: int) -> int {
    if toggle == 0 {
        -1
    } else if toggle < 4 {
        1800 * toggle
    } else {
        450 * (toggle - 3) * player_count
    }
}

/// What computing the allotted time takes: each product fits in an `i32`.
pub open spec fn spec_allocated_time_fits(toggle: int, player_count: int) -> bool {
    &&& (toggle != 0 && toggle < 4) ==> i32::MIN <= 1800 * toggle <= i32::MAX
    &&& toggle >= 4 ==> i32::MIN <= 450 * (toggle - 3) <= i32::MAX
    &&& toggle >= 4 ==> i32::MIN <= 450 * (toggle - 3) * player_count <= i32::MAX
}

/// Converts the timer setting `toggle` into the number of frames a player
/// phase may last; `player_count` is the number of units of the player
/// force, read only from setting 4 on.
pub fn calculate_allocated_time(toggle: i32, player_count: i32) -> (r: i32)
    requires
        spec_allocated_time_fits(toggle as int, player_count as int),
    ensures
        r == spec_allocated_time(toggle as int, player_count as int),
{
    if toggle == 0 {
        -1
    } else if toggle < 4 {
        1800 * toggle
    } else {
        450 * (toggle - 3) * player_count
    }
}

/// Where a draw of frame counts keeps the elapsed time in an `i32`.
pub open spec fn spec_elapsed_fits(now: int, start: int) -> bool {
    i32::MIN <= now - start <= i32::MAX
}

/// The patch to the turn-end check when the game asks whether to end the
/// player phase, `elapsed` frames into it with `allocated` frames allotted.
pub open spec fn spec_turn_end_patch(elapsed: int, allocated: int) -> Option<TextPatch> {
    if allocated == -1 {
        Some(spec_turn_end_check_restored())
    } else if elapsed > allocated {
        Some(spec_turn_end_check_removed())
    } else {
        None
    }
}

/// The frame at which the current player phase began.
pub struct PhaseTimer {
    pub phase_start: i32,
}

impl PhaseTimer {
    /// A timer before any phase: the start frame is 0.
    pub fn new() -> (t: PhaseTimer)
        ensures
            t.phase_start == 0,
    {
        PhaseTimer { phase_start: 0 }
    }

    /// A phase change to the phase of `force`, at frame `frame_now`: a
    /// player phase records its start frame and restores the game's own
    /// turn-end check; other phases change nothing.
    pub fn phase_change_hook(&mut self, force: i32, frame_now: i32) -> (r: Option<TextPatch>)
        ensures
            final(self).phase_start == spec_phase_start_step(old(self).phase_start, force, frame_now),
            force == PLAYER_FORCE ==> final(self).phase_start == frame_now && r == Some(spec_turn_end_check_restored()),
            force != PLAYER_FORCE ==> *final(self) == *old(self) && r is None,
    {
        if force == PLAYER_FORCE {
            self.phase_start = frame_now;
            Some(word_patch(TURN_END_CHECK, 0x80, 0x01, 0x00, 0xb5))
        } else {
            None
        }
    }

    /// The game asks, at frame `frame_now`, whether the player phase is to
    /// end, with timer setting `toggle` and `player_count` player units.
    /// With no timer the game's own check is restored; once more frames
    /// than allotted have passed since the phase began, the check is
    /// removed so that the phase ends; otherwise nothing changes.
    pub fn auto_turn_end_hook(&self, frame_now: i32, toggle: i32, player_count: i32) -> (r: Option<TextPatch>)
        requires
            spec_elapsed_fits(frame_now as int, self.phase_start as int),
            spec_allocated_time_fits(toggle as int, player_count as int),
        ensures
            r == spec_turn_end_patch(
                frame_now - self.phase_start,
                spec_allocated_time(toggle as int, player_count as int),
            ),
    {
        let frames = frame_now - self.phase_start;
        let time = calculate_allocated_time(toggle, player_count);
        if time == -1 {
            Some(word_patch(TURN_END_CHECK, 0x80, 0x01, 0x00, 0xb5))
        } else if frames > time {
            Some(nop_patch(TURN_END_CHECK))
        } else {
            None
        }
    }
}

/// The start frame after a phase change of `force` at frame `frame`.
pub open spec fn spec_phase_start_step(start: i32, force: i32, frame: i32) -> i32 {
    if force == PLAYER_FORCE { frame } else { start }
}

/// A call of one of the timer's hooks.
pub enum TimerEvent {
    /// `phase_change_hook` for the phase of `force`, at frame `frame`.
    PhaseChange { force: i32, frame: i32 },
    /// `auto_turn_end_hook` at frame `frame`, with timer setting `toggle`
    /// and `player_count` player units.
    TurnEnd { frame: i32, toggle: i32, player_count: i32 },
}

/// The timer's start frame and the last write to the turn-end check (`None`
/// where none was made).
pub struct TimerTrace {
    pub start: i32,
    pub check: Option<TextPatch>,
}

/// The effect of one hook call, as the hooks' contracts state it.
pub open spec fn spec_timer_step(s: TimerTrace, e: TimerEvent) -> TimerTrace {
    match e {
        TimerEvent::PhaseChange { force, frame } => if force == PLAYER_FORCE {
            TimerTrace { start: frame, check: Some(spec_turn_end_check_restored()) }
        } else {
            s
        },
        TimerEvent::TurnEnd { frame, toggle, player_count } => match spec_turn_end_patch(
            frame - s.start,
            spec_allocated_time(toggle as int, player_count as int),
        ) {
            Some(p) => TimerTrace { start: s.start, check: Some(p) },
            None => s,
        },
    }
}

/// The effect of a series of hook calls, in order.
pub open spec fn spec_timer_run(s: TimerTrace, events: Seq<TimerEvent>) -> TimerTrace
    decreases events.len(),
{
    if events.len() == 0 {
        s
    } else {
        spec_timer_step(spec_timer_run(s, events.drop_last()), events.last())
    }
}

/// Some turn-end call among `events[k + 1..n]` came more than `allotted`
/// frames after `f0`.
pub open spec fn spec_overran_since(events: Seq<TimerEvent>, k: int, n: int, f0: int, allotted: int) -> bool {
    exists|l: int| k < l < n && (#[trigger] events[l] matches TimerEvent::TurnEnd { frame, .. } && frame - f0 > allotted)
}

/// The calls after the player phase change `events[k]` keep to one minute
/// setting `g` (1 to 3) and hold no further player phase change.
pub open spec fn spec_minutes_phase(events: Seq<TimerEvent>, k: int, g: i32) -> bool {
    &&& 0 <= k < events.len()
    &&& events[k] matches TimerEvent::PhaseChange { force, .. } && force == PLAYER_FORCE
    &&& 1 <= g <= 3
    &&& forall|l: int| k < l < events.len() ==> match #[trigger] events[l] {
        TimerEvent::PhaseChange { force, .. } => force != PLAYER_FORCE,
        TimerEvent::TurnEnd { toggle, .. } => toggle == g,
    }
}

proof fn lemma_timer_run_prefix(s: TimerTrace, events: Seq<TimerEvent>, k: int, g: i32, n: int)
    requires
        spec_minutes_phase(events, k, g),
        k < n <= events.len(),
    ensures
        ({
            let f0 = events[k]->PhaseChange_frame;
            let r = spec_timer_run(s, events.take(n));
            &&& r.start == f0
            &&& r.check == if spec_overran_since(events, k, n, f0 as int, 1800 * g) {
                Some(spec_turn_end_check_removed())
            } else {
                Some(spec_turn_end_check_restored())
            }
        }),
    decreases n,
{
    let f0 = events[k]->PhaseChange_frame;
    assert(events.take(n).drop_last() =~= events.take(n - 1));
    assert(events.take(n).last() == events[n - 1]);
    if n - 1 > k {
        lemma_timer_run_prefix(s, events, k, g, n - 1);
        let e = events[n - 1];
        let allotted = 1800 * g;
        assert(spec_allocated_time(g as int, 0) == allotted);
        match e {
            TimerEvent::PhaseChange { force, frame } => {
                assert(spec_overran_since(events, k, n, f0 as int, allotted)
                    == spec_overran_since(events, k, n - 1, f0 as int, allotted));
            },
            TimerEvent::TurnEnd { frame, toggle, player_count } => {
                assert(toggle == g);
                assert(spec_allocated_time(toggle as int, player_count as int) == allotted);
                if frame - f0 > allotted {
                    assert(spec_overran_since(events, k, n, f0 as int, allotted));
                } else {
                    assert(spec_overran_since(events, k, n, f0 as int, allotted)
                        == spec_overran_since(events, k, n - 1, f0 as int, allotted));
                }
            },
        }
    } else {
        assert(!spec_overran_since(events, k, n, f0 as int, 1800 * g));
    }
}

/// Over any series of hook calls: after the last player phase change, at
/// frame `f0`, with a minute setting `g` kept throughout and frame counts
/// that never go back, a turn-end call at frame `f1` leaves the turn-end
/// check removed if more than `1800 * g` frames have passed since `f0`, and
/// restored to the game's instruction otherwise.
pub proof fn lemma_timer_over_calls(s: TimerTrace, events: Seq<TimerEvent>, k: int, g: i32)
    requires
        spec_minutes_phase(events, k, g),
        events.last() is TurnEnd,
        forall|l: int, m: int| k < l < m < events.len() && events[l] is TurnEnd && events[m] is TurnEnd
            ==> #[trigger] events[l]->TurnEnd_frame <= #[trigger] events[m]->TurnEnd_frame,
    ensures
        ({
            let f0 = events[k]->PhaseChange_frame;
            let f1 = events.last()->TurnEnd_frame;
            let r = spec_timer_run(s, events);
            &&& r.start == f0
            &&& f1 - f0 > 1800 * g ==> r.check == Some(spec_turn_end_check_removed())
            &&& f1 - f0 <= 1800 * g ==> r.check == Some(spec_turn_end_check_restored())
        }),
{
    let n = events.len() as int;
    let f0 = events[k]->PhaseChange_frame;
    let f1 = events.last()->TurnEnd_frame;
    assert(n - 1 > k);
    lemma_timer_run_prefix(s, events, k, g, n);
    assert(events.take(n) =~= events);
    if f1 - f0 > 1800 * g {
        assert(spec_overran_since(events, k, n, f0 as int, 1800 * g)) by {
            assert(events[n - 1] is TurnEnd);
        }
    } else {
        if spec_overran_since(events, k, n, f0 as int, 1800 * g) {
            let l = choose|l: int| k < l < n && (#[trigger] events[l] matches TimerEvent::TurnEnd { frame, .. } && frame - f0 > 1800 * g);
            if l < n - 1 {
                assert(events[l]->TurnEnd_frame <= events[n - 1]->TurnEnd_frame);
            }
        }
    }
}

/// A player phase that began at frame `start` is ended by the timer at frame
/// `now` exactly when a timer is set and more frames than allotted have
/// passed; with no timer set the game's own check is always restored.
pub proof fn lemma_timer_ends_phase(start: i32, now: i32, toggle: int, player_count: int)
    requires
        spec_elapsed_fits(now as int, start as int),
    ensures
        ({
            let allotted = spec_allocated_time(toggle, player_count);
            &&& spec_turn_end_patch(now - start, allotted) == Some(spec_turn_end_check_removed())
                <==> (toggle != 0 && now - start > allotted)
            &&& toggle == 0 ==> spec_turn_end_patch(now - start, allotted) == Some(spec_turn_end_check_restored())
        }),
{
    let allotted = spec_allocated_time(toggle, player_count);
    if toggle != 0 && toggle < 4 {
        assert(allotted != -1) by (nonlinear_arith)
            requires allotted == 1800 * toggle, toggle != 0;
    }
    if toggle >= 4 && allotted == -1 {
        assert(false) by (nonlinear_arith)
            requires allotted == 450 * (toggle - 3) * player_count, toggle >= 4, allotted == -1;
    }
}

/// The allotted frames at 30 frames per second: none (-1) with the timer
/// off, `toggle` minutes (1800 frames each) for settings 1 to 3, and
/// 15 seconds (450 frames) per player unit for each step above 3.
pub proof fn lemma_allocated_time_values(toggle: int, player_count: int)
    ensures
        toggle == 0 ==> spec_allocated_time(toggle, player_count) == -1,
        1 <= toggle <= 3 ==> spec_allocated_time(toggle, player_count) == toggle * 1800,
        toggle >= 4 ==> spec_allocated_time(toggle, player_count) == (toggle - 3) * player_count * 450,
        spec_allocated_time(1, player_count) == 1800,
        spec_allocated_time(3, player_count) == 5400,
        spec_allocated_time(4, player_count) == 450 * player_count,
        spec_allocated_time(6, player_count) == 1350 * player_count,
{
    assert(toggle >= 4 ==> 450 * (toggle - 3) * player_count == (toggle - 3) * player_count * 450) by (nonlinear_arith);
}

/// The turn-end check lives at 0x0267357c; restored it is the game's
/// instruction 0x80 0x01 0x00 0xb5, removed it is a no-op.
pub proof fn lemma_turn_end_check_writes()
    ensures
        spec_turn_end_check_restored() == (TextPatch { offset: 0x0267357c, write: PatchWrite::Word(0x80, 0x01, 0x00, 0xb5) }),
        spec_turn_end_check_removed() == (TextPatch { offset: 0x0267357c, write: PatchWrite::Nop }),
        TIMER_KEY@ == "G_TIMER"@,
{
}

} // verus!
