use engage_tweaks::emblems::{emblem_gid, get_emblem_list, EmblemAssignment, EMBLEM_COUNT};

#[test]
fn emblem_table_ends() {
    assert_eq!(emblem_gid(0), "GID_マルス");
    assert_eq!(emblem_gid(12), "GID_エーデルガルト");
    assert_eq!(emblem_gid(EMBLEM_COUNT - 1), "GID_クロム");
}

#[test]
fn emblem_list_keeps_available_in_order() {
    let mut available = vec![false; EMBLEM_COUNT];
    available[3] = true;
    available[0] = true;
    available[18] = true;
    assert_eq!(get_emblem_list(&available), vec![0, 3, 18]);
}

#[test]
fn emblem_list_empty_and_full() {
    assert_eq!(get_emblem_list(&vec![false; EMBLEM_COUNT]), Vec::<usize>::new());
    let all: Vec<usize> = (0..EMBLEM_COUNT).collect();
    assert_eq!(get_emblem_list(&vec![true; EMBLEM_COUNT]), all);
}

#[test]
fn handout_rejects_taken_emblem() {
    let mut a = EmblemAssignment::new(4, 10);
    assert_eq!(a.list_len(), 4);
    assert_eq!(a.offer(2), Some(2));
    assert_eq!(a.offer(2), None);
    assert_eq!(a.offer(0), Some(0));
    assert!(!a.is_done());
    assert_eq!(a.offer(1), Some(1));
    assert_eq!(a.offer(3), Some(3));
    assert!(a.is_done());
    assert_eq!(a.handed(), &vec![2, 0, 1, 3]);
}

#[test]
fn handout_capped_by_sortie_limit() {
    let mut a = EmblemAssignment::new(5, 2);
    assert_eq!(a.offer(4), Some(4));
    assert!(!a.is_done());
    assert_eq!(a.offer(1), Some(1));
    assert!(a.is_done());
}

#[test]
fn handout_with_negative_limit_hands_out_all() {
    let mut a = EmblemAssignment::new(2, -1);
    assert_eq!(a.offer(0), Some(0));
    assert!(!a.is_done());
    assert_eq!(a.offer(1), Some(1));
    assert!(a.is_done());
}

#[test]
fn handout_with_zero_limit_never_done() {
    let mut a = EmblemAssignment::new(2, 0);
    assert!(a.is_done());
    assert_eq!(a.offer(0), Some(0));
    assert!(!a.is_done());
}
