use engage_tweaks::patches::{PatchWrite, TextPatch};
use engage_tweaks::perm_hp::unit_set_hp;
use engage_tweaks::stat_caps::{
    buff_pos, cleared_person_limit, job_caps_wanted, raised_job_limit, set_job_caps, stat_cap_patches, Capability,
    GameEvent, SystemEventKind,
};

#[test]
fn hp_base_difference() {
    // class base 18, bonus 5: HP 40 needs personal base 17
    assert_eq!(unit_set_hp(40, 18, 45, 40), Some(17));
    // HP below the bonus: base plus class base is 1
    assert_eq!(unit_set_hp(3, 18, 45, 40), Some(-17));
    // nothing to store
    assert_eq!(unit_set_hp(23, 18, 45, 40), None);
    assert_eq!(unit_set_hp(1, 1, 10, 10), None);
    assert_eq!(unit_set_hp(0, 1, 10, 10), Some(-1));
}

#[test]
fn person_limits_cleared() {
    let c = cleared_person_limit(&Capability { data: vec![5; 13] });
    assert_eq!(c.data, vec![0, 0, 0, 0, 0, 0, 0, 0, 0, 0, 0, 5, 5]);
}

#[test]
fn job_limits_raised() {
    let limit = Capability { data: vec![1; 12] };
    let base = Capability { data: vec![0, 1, 2, 3, 4, 5, 6, 7, 8, 128, 200] };
    let r = raised_job_limit(&limit, &base);
    assert_eq!(r.data, vec![127, 128, 129, 130, 131, 132, 133, 134, 135, 255, 99, 1]);
}

#[test]
fn set_caps_on_all_tables() {
    let mut persons = vec![Capability { data: vec![9; 11] }, Capability { data: vec![3; 11] }];
    let mut jobs = vec![Capability { data: vec![40; 11] }];
    let bases = vec![Capability { data: vec![20; 11] }];
    set_job_caps(&mut persons, &mut jobs, &bases);
    assert_eq!(persons[0].data, vec![0; 11]);
    assert_eq!(persons[1].data, vec![0; 11]);
    assert_eq!(jobs[0].data, vec![147, 147, 147, 147, 147, 147, 147, 147, 147, 147, 99]);
}

#[test]
fn caps_set_on_language_change_only() {
    assert!(job_caps_wanted(GameEvent::Args(SystemEventKind::LanguageChanged)));
    assert!(!job_caps_wanted(GameEvent::Args(SystemEventKind::Other)));
    assert!(!job_caps_wanted(GameEvent::Missing));
}

#[test]
fn stat_cap_patch_list() {
    let pos = buff_pos();
    assert_eq!(pos.len(), 44);
    assert_eq!(pos[0], 0x01a1c92c);
    assert_eq!(pos[43], 0x01f77d38);
    let p = stat_cap_patches();
    assert_eq!(p.len(), 90);
    assert_eq!(p[0], TextPatch { offset: 0x01a2a7c0, write: PatchWrite::Word(0xe1, 0x0e, 0x80, 0x12) });
    assert_eq!(p[1], TextPatch { offset: 0x01a2a7c4, write: PatchWrite::Word(0x02, 0x0f, 0x80, 0x52) });
    assert_eq!(p[2], TextPatch { offset: 0x01a1c92c, write: PatchWrite::Word(0x61, 0x0C, 0x80, 0x12) });
    assert_eq!(p[3], TextPatch { offset: 0x01a1c930, write: PatchWrite::Word(0xE2, 0x7C, 0x80, 0x52) });
    assert_eq!(p[89], TextPatch { offset: 0x01f77d3c, write: PatchWrite::Word(0xE2, 0x7C, 0x80, 0x52) });
}

#[test]
fn set_caps_twice_same_as_once() {
    let mut persons = vec![Capability { data: vec![9; 12] }];
    let mut jobs = vec![Capability { data: vec![40; 12] }];
    let bases = vec![Capability { data: vec![20, 30, 0, 1, 2, 3, 4, 5, 6, 128, 7] }];
    set_job_caps(&mut persons, &mut jobs, &bases);
    let once_p = persons[0].data.clone();
    let once_j = jobs[0].data.clone();
    set_job_caps(&mut persons, &mut jobs, &bases);
    assert_eq!(persons[0].data, once_p);
    assert_eq!(jobs[0].data, once_j);
}
