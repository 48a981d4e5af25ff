use engage_tweaks::patches::{PatchWrite, TextPatch};
use engage_tweaks::timer::{calculate_allocated_time, PhaseTimer, TIMER_KEY, TURN_END_CHECK};

fn restored() -> TextPatch {
    TextPatch { offset: TURN_END_CHECK, write: PatchWrite::Word(0x80, 0x01, 0x00, 0xb5) }
}

#[test]
fn allocated_time_per_setting() {
    assert_eq!(calculate_allocated_time(0, 10), -1);
    assert_eq!(calculate_allocated_time(1, 10), 1800);
    assert_eq!(calculate_allocated_time(2, 10), 3600);
    assert_eq!(calculate_allocated_time(3, 10), 5400);
    assert_eq!(calculate_allocated_time(4, 10), 4500);
    assert_eq!(calculate_allocated_time(5, 10), 9000);
    assert_eq!(calculate_allocated_time(6, 10), 13500);
    assert_eq!(calculate_allocated_time(-1, 0), -1800);
}

#[test]
fn timer_key_name() {
    assert_eq!(TIMER_KEY, "G_TIMER");
}

#[test]
fn player_phase_records_start() {
    let mut t = PhaseTimer::new();
    assert_eq!(t.phase_start, 0);
    assert_eq!(t.phase_change_hook(1, 500), None);
    assert_eq!(t.phase_start, 0);
    assert_eq!(t.phase_change_hook(0, 700), Some(restored()));
    assert_eq!(t.phase_start, 700);
}

#[test]
fn phase_ends_after_allotted_frames() {
    let mut t = PhaseTimer::new();
    t.phase_change_hook(0, 1000);
    assert_eq!(t.auto_turn_end_hook(2800, 1, 3), None);
    assert_eq!(
        t.auto_turn_end_hook(2801, 1, 3),
        Some(TextPatch { offset: TURN_END_CHECK, write: PatchWrite::Nop })
    );
    assert_eq!(t.auto_turn_end_hook(2801, 4, 5), None);
    assert_eq!(
        t.auto_turn_end_hook(3251, 4, 5),
        Some(TextPatch { offset: TURN_END_CHECK, write: PatchWrite::Nop })
    );
}

#[test]
fn no_timer_restores_check() {
    let t = PhaseTimer { phase_start: 0 };
    assert_eq!(t.auto_turn_end_hook(100000, 0, 8), Some(restored()));
}
