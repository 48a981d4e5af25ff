use engage_tweaks::config::DeploymentConfig;
use engage_tweaks::deployment::{
    create_player_team, get_unit_rating, pick_lowest_rated, pick_random_absent, DeployStep, EMBLEM_BRANCH,
    SORTIE_BRANCH,
};
use engage_tweaks::patches::{PatchWrite, TextPatch};

fn restore(offset: usize) -> DeployStep {
    DeployStep::Patch(TextPatch { offset, write: PatchWrite::Word(0xc0, 0x00, 0x00, 0x36) })
}

fn nop(offset: usize) -> DeployStep {
    DeployStep::Patch(TextPatch { offset, write: PatchWrite::Nop })
}

fn cfg(deployment_type: i32, random_emblems: bool) -> DeploymentConfig {
    DeploymentConfig { deployment_type, random_emblems }
}

#[test]
fn evil_map_only_restores_branches() {
    let plan = create_player_team(&cfg(1, true), 5, true, false);
    assert_eq!(plan, vec![DeployStep::SaveConfig, restore(SORTIE_BRANCH), restore(EMBLEM_BRANCH)]);
}

#[test]
fn default_deployment_restores_sortie_branch() {
    let plan = create_player_team(&cfg(0, false), 5, false, false);
    assert_eq!(plan, vec![DeployStep::SaveConfig, restore(SORTIE_BRANCH)]);
}

#[test]
fn default_deployment_with_empty_absent_force() {
    let plan = create_player_team(&cfg(0, false), 0, false, false);
    assert_eq!(
        plan,
        vec![DeployStep::SaveConfig, restore(SORTIE_BRANCH), restore(EMBLEM_BRANCH), restore(SORTIE_BRANCH)]
    );
}

#[test]
fn random_emblems_with_default_deployment() {
    let plan = create_player_team(&cfg(0, true), 3, false, true);
    assert_eq!(
        plan,
        vec![
            DeployStep::SaveConfig,
            restore(SORTIE_BRANCH),
            nop(EMBLEM_BRANCH),
            DeployStep::RemoveAllRings,
            DeployStep::AssignRandomEmblems,
        ]
    );
}

#[test]
fn lowest_rating_deployment_redeploys() {
    let plan = create_player_team(&cfg(1, false), 4, false, false);
    assert_eq!(
        plan,
        vec![
            DeployStep::SaveConfig,
            DeployStep::MovePlayersToAbsent,
            DeployStep::MoveDeadToAbsent,
            DeployStep::DeployHero,
            DeployStep::SetHeroStatus,
            nop(SORTIE_BRANCH),
            restore(EMBLEM_BRANCH),
            DeployStep::FillByLowestRating,
            restore(EMBLEM_BRANCH),
        ]
    );
}

#[test]
fn random_deployment_on_encounter_map_with_random_emblems() {
    let plan = create_player_team(&cfg(2, true), 4, false, true);
    assert_eq!(
        plan,
        vec![
            DeployStep::SaveConfig,
            DeployStep::MovePlayersToAbsent,
            DeployStep::MoveDeadToAbsent,
            DeployStep::DeployHero,
            nop(SORTIE_BRANCH),
            restore(EMBLEM_BRANCH),
            DeployStep::FillAtRandom,
            nop(EMBLEM_BRANCH),
            DeployStep::RemoveAllRings,
            DeployStep::AssignRandomEmblems,
        ]
    );
}

#[test]
fn unknown_mode_redeploys_without_fill() {
    let plan = create_player_team(&cfg(3, false), 2, false, true);
    assert_eq!(
        plan,
        vec![
            DeployStep::SaveConfig,
            DeployStep::MovePlayersToAbsent,
            DeployStep::MoveDeadToAbsent,
            DeployStep::DeployHero,
            restore(EMBLEM_BRANCH),
        ]
    );
}

#[test]
fn custom_mode_with_empty_absent_force_skips_emblems() {
    let plan = create_player_team(&cfg(1, true), 0, false, false);
    assert_eq!(
        plan,
        vec![DeployStep::SaveConfig, restore(SORTIE_BRANCH), restore(EMBLEM_BRANCH), restore(SORTIE_BRANCH)]
    );
}

#[test]
fn unit_rating_sums_types_one_to_seven() {
    let caps = vec![40, 1, 2, 3, 4, 5, 6, 7, 100, 100, 5];
    assert_eq!(get_unit_rating(&caps), 28);
}

#[test]
fn unit_rating_with_negative_values() {
    let caps = vec![0, -5, 10, 0, 0, 0, 0, 1];
    assert_eq!(get_unit_rating(&caps), 6);
}

#[test]
fn lowest_rated_takes_first_minimum() {
    assert_eq!(pick_lowest_rated(&vec![50, 30, 30, 70]), Some(1));
    assert_eq!(pick_lowest_rated(&vec![9, 8, 7]), Some(2));
}

#[test]
fn lowest_rated_ignores_ratings_at_ceiling() {
    assert_eq!(pick_lowest_rated(&vec![99999, 100000]), None);
    assert_eq!(pick_lowest_rated(&vec![99999, 99998]), Some(1));
    assert_eq!(pick_lowest_rated(&vec![]), None);
}

#[test]
fn random_absent_pick_in_range() {
    assert_eq!(pick_random_absent(5, 0), Some(0));
    assert_eq!(pick_random_absent(5, 4), Some(4));
    assert_eq!(pick_random_absent(5, 5), None);
    assert_eq!(pick_random_absent(5, -1), None);
    assert_eq!(pick_random_absent(0, 0), None);
}

use engage_tweaks::deployment::{lowest_rating_fill, RandomFill};

#[test]
fn lowest_rating_fill_order() {
    // absent force: A1 (10), A2 (60), P1 (40), P2 (35), D1 (5); hero deployed, 3 slots in all
    let ratings = vec![10, 60, 40, 35, 5];
    assert_eq!(lowest_rating_fill(&ratings, 1, 3), vec![4, 0]);
    assert_eq!(lowest_rating_fill(&ratings, 1, 6), vec![4, 0, 3, 2, 1]);
    assert_eq!(lowest_rating_fill(&ratings, 3, 3), Vec::<usize>::new());
    assert_eq!(lowest_rating_fill(&ratings, 4, 3), Vec::<usize>::new());
}

#[test]
fn lowest_rating_fill_ties_and_ceiling() {
    let ratings = vec![7, 3, 99999, 3, 7];
    assert_eq!(lowest_rating_fill(&ratings, 0, 10), vec![1, 3, 0, 4]);
    assert_eq!(lowest_rating_fill(&vec![], 0, 2), Vec::<usize>::new());
}

#[test]
fn random_fill_rounds() {
    let mut f = RandomFill::new(3, 1, 3);
    assert!(!f.is_done());
    assert_eq!(f.draw(5), None);
    assert_eq!(f, RandomFill { absent_count: 3, player_count: 1, max_player: 3 });
    assert_eq!(f.draw(-1), None);
    assert_eq!(f.draw(2), Some(2));
    assert_eq!(f, RandomFill { absent_count: 2, player_count: 2, max_player: 3 });
    assert!(!f.is_done());
    assert_eq!(f.draw(2), None);
    assert_eq!(f.draw(0), Some(0));
    assert!(f.is_done());
    assert_eq!(f, RandomFill { absent_count: 1, player_count: 3, max_player: 3 });
}
