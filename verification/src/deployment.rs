//! What happens when the game builds the player team for a map: which code
//! branches are switched, which units are moved between forces and which
//! fill-up procedure runs.
use vstd::prelude::*;
use crate::config::DeploymentConfig;
use crate::patches::{TextPatch, PatchWrite, spec_word_patch, spec_nop_patch, word_patch, nop_patch};

verus! {

/// Code offset of the branch by which the game picks its own sortie.
pub const SORTIE_BRANCH: usize = 0x01d785f8;

/// Code offset of the branch by which the game places emblem rings on the
/// deployed units.
pub const EMBLEM_BRANCH: usize = 0x01d77028;

/// One thing the team builder does, in the order of a plan.
#[derive(Clone, Copy, Debug, PartialEq, Eq)]
pub enum DeployStep {
    /// Write the current settings to the settings file.
    SaveConfig,
    /// Write into the game's code.
    Patch(TextPatch),
    /// Take every emblem ring off every unit.
    RemoveAllRings,
    /// Hand the available emblems out at random to the player force (see
    /// `EmblemAssignment`).
    AssignRandomEmblems,
    /// Move every unit of the player force to the absent force.
    MovePlayersToAbsent,
    /// Move every unit of the dead force to the absent force.
    MoveDeadToAbsent,
    /// Move the hero unit of the absent force back to the player force and
    /// give it an actor.
    DeployHero,
    /// Give the hero unit status 20.
    SetHeroStatus,
    /// Fill the player force with the lowest rated absent units
    /// (see `pick_lowest_rated`).
    FillByLowestRating,
    /// Fill the player force with absent units picked at random
    /// (see `pick_random_absent`).
    FillAtRandom,
}

/// The original instruction of either branch.
pub open spec fn spec_restore(offset: usize) -> TextPatch {
    spec_word_patch(offset, 0xc0, 0x00, 0x00, 0x36)
}

/// Steps that put random emblems on the units.
pub open spec fn spec_emblem_steps() -> Seq<DeployStep> {
    seq![
        DeployStep::Patch(spec_nop_patch(EMBLEM_BRANCH)),
        DeployStep::RemoveAllRings,
        DeployStep::AssignRandomEmblems,
    ]
}

/// The plan of the team builder, for the settings, the number of units in
/// the absent force, whether the map is an evil (Fell) map and whether it
/// is an encounter map.
pub open spec fn spec_create_player_team(
    config: DeploymentConfig,
    absent_count: i32,
    evil_map: bool,
    encount_map: bool,
) -> Seq<DeployStep> {
    let save = seq![DeployStep::SaveConfig];
    let guard = if absent_count == 0 || evil_map {
        seq![
            DeployStep::Patch(spec_restore(SORTIE_BRANCH)),
            DeployStep::Patch(spec_restore(EMBLEM_BRANCH)),
        ]
    } else {
        Seq::<DeployStep>::empty()
    };
    if evil_map {
        save + guard
    } else if config.random_emblems && config.deployment_type == 0 {
        save + guard + seq![DeployStep::Patch(spec_restore(SORTIE_BRANCH))] + spec_emblem_steps()
    } else if config.deployment_type == 0 || absent_count == 0 {
        save + guard + seq![DeployStep::Patch(spec_restore(SORTIE_BRANCH))]
    } else {
        let redeploy = seq![
            DeployStep::MovePlayersToAbsent,
            DeployStep::MoveDeadToAbsent,
            DeployStep::DeployHero,
        ] + if encount_map {
            Seq::<DeployStep>::empty()
        } else {
            seq![DeployStep::SetHeroStatus]
        };
        let fill = if config.deployment_type == 1 {
            seq![
                DeployStep::Patch(spec_nop_patch(SORTIE_BRANCH)),
                DeployStep::Patch(spec_restore(EMBLEM_BRANCH)),
                DeployStep::FillByLowestRating,
            ]
        } else if config.deployment_type == 2 {
            seq![
                DeployStep::Patch(spec_nop_patch(SORTIE_BRANCH)),
                DeployStep::Patch(spec_restore(EMBLEM_BRANCH)),
                DeployStep::FillAtRandom,
            ]
        } else {
            Seq::<DeployStep>::empty()
        };
        let emblems = if config.random_emblems {
            spec_emblem_steps()
        } else {
            seq![DeployStep::Patch(spec_restore(EMBLEM_BRANCH))]
        };
        save + guard + redeploy + fill + emblems
    }
}

fn restore(offset: usize) -> (p: TextPatch)
    ensures
        p == spec_restore(offset),
{
    word_patch(offset, 0xc0, 0x00, 0x00, 0x36)
}

fn push_emblem_steps(steps: &mut Vec<DeployStep>)
    ensures
        final(steps)@ == old(steps)@ + spec_emblem_steps(),
{
    steps.push(DeployStep::Patch(nop_patch(EMBLEM_BRANCH)));
    steps.push(DeployStep::RemoveAllRings);
    steps.push(DeployStep::AssignRandomEmblems);
}

/// The plan that the team builder carries out when the game creates the
/// player team: `absent_count` is the number of units in the absent force,
/// `evil_map` and `encount_map` tell whether the map is an evil (Fell) map
/// and an encounter map.
pub fn create_player_team(
    config: &DeploymentConfig,
    absent_count: i32,
    evil_map: bool,
    encount_map: bool,
) -> (steps: Vec<DeployStep>)
    ensures
        steps@ == spec_create_player_team(*config, absent_count, evil_map, encount_map),
{
    let mut steps: Vec<DeployStep> = Vec::new();
    steps.push(DeployStep::SaveConfig);
    if absent_count == 0 || evil_map {
        steps.push(DeployStep::Patch(restore(SORTIE_BRANCH)));
        steps.push(DeployStep::Patch(restore(EMBLEM_BRANCH)));
        if evil_map {
            return steps;
        }
    }
    if config.random_emblems && config.deployment_type == 0 {
        steps.push(DeployStep::Patch(restore(SORTIE_BRANCH)));
        push_emblem_steps(&mut steps);
        return steps;
    }
    if config.deployment_type == 0 || absent_count == 0 {
        steps.push(DeployStep::Patch(restore(SORTIE_BRANCH)));
        return steps;
    }
    steps.push(DeployStep::MovePlayersToAbsent);
    steps.push(DeployStep::MoveDeadToAbsent);
    steps.push(DeployStep::DeployHero);
    if !encount_map {
        steps.push(DeployStep::SetHeroStatus);
    }
    if config.deployment_type == 1 {
        steps.push(DeployStep::Patch(nop_patch(SORTIE_BRANCH)));
        steps.push(DeployStep::Patch(restore(EMBLEM_BRANCH)));
        steps.push(DeployStep::FillByLowestRating);
    } else if config.deployment_type == 2 {
        steps.push(DeployStep::Patch(nop_patch(SORTIE_BRANCH)));
        steps.push(DeployStep::Patch(restore(EMBLEM_BRANCH)));
        steps.push(DeployStep::FillAtRandom);
    }
    if config.random_emblems {
        push_emblem_steps(&mut steps);
    } else {
        steps.push(DeployStep::Patch(restore(EMBLEM_BRANCH)));
    }
    assert(steps@ =~= spec_create_player_team(*config, absent_count, evil_map, encount_map));
    steps
}

/// The rating above which no unit is picked by the lowest-rating fill-up:
/// the pick starts from this score and takes only units rated below it.
pub const RATING_CEILING: i32 = 99999;

/// Sum of `caps[1]` up to `caps[k - 1]`: the capabilities of types 1 to
/// `k - 1` (strength to resistance for `k == 8`; HP, type 0, is left out).
pub open spec fn spec_rating_sum(caps: Seq<i32>, k: int) -> int
    decreases k,
{
    if k <= 1 {
        0
    } else {
        spec_rating_sum(caps, k - 1) + caps[k - 1] as int
    }
}

/// The rating of a unit: the sum of its capabilities of types 1 to 7, read
/// from `caps`, which holds the unit's capability of type `t` at index `t`.
pub fn get_unit_rating(caps: &Vec<i32>) -> (r: i32)
    requires
        caps.len() >= 8,
        forall|k: int| 1 <= k <= 8 ==> i32::MIN <= #[trigger] spec_rating_sum(caps@, k) <= i32::MAX,
    ensures
        r == spec_rating_sum(caps@, 8),
{
    let mut result: i32 = 0;
    let mut x: usize = 1;
    while x < 8
        invariant
            1 <= x <= 8,
            caps.len() >= 8,
            forall|k: int| 1 <= k <= 8 ==> i32::MIN <= #[trigger] spec_rating_sum(caps@, k) <= i32::MAX,
            result == spec_rating_sum(caps@, x as int),
        decreases 8 - x,
    {
        assert(spec_rating_sum(caps@, x + 1) == spec_rating_sum(caps@, x as int) + caps@[x as int]);
        result = result + caps[x];
        x = x + 1;
    }
    result
}

/// `i` is the unit that the lowest-rating fill-up picks from `ratings`: the
/// first of the lowest rated units, rated below `RATING_CEILING`.
pub open spec fn spec_is_lowest_rated(ratings: Seq<i32>, i: int) -> bool {
    &&& 0 <= i < ratings.len()
    &&& ratings[i] < RATING_CEILING
    &&& forall|j: int| 0 <= j < ratings.len() ==> ratings[i] <= #[trigger] ratings[j]
    &&& forall|j: int| 0 <= j < i ==> ratings[i] < #[trigger] ratings[j]
}

/// The absent unit that the lowest-rating fill-up deploys next, given the
/// ratings of the absent force's units in force order: the first of the
/// lowest rated ones. `None` where no unit is rated below
/// `RATING_CEILING`, the absent force being empty in particular.
pub fn pick_lowest_rated(ratings: &Vec<i32>) -> (r: Option<usize>)
    ensures
        r is None <==> forall|j: int| 0 <= j < ratings.len() ==> #[trigger] ratings@[j] >= RATING_CEILING,
        r matches Some(i) ==> spec_is_lowest_rated(ratings@, i as int),
{
    let mut best: Option<usize> = None;
    let mut score: i32 = RATING_CEILING;
    let mut x: usize = 0;
    while x < ratings.len()
        invariant
            x <= ratings.len(),
            best is None ==> score == RATING_CEILING,
            best is None ==> forall|j: int| 0 <= j < x ==> #[trigger] ratings@[j] >= RATING_CEILING,
            best matches Some(i) ==> {
                &&& i < x
                &&& score == ratings@[i as int]
                &&& score < RATING_CEILING
                &&& forall|j: int| 0 <= j < x ==> score <= #[trigger] ratings@[j]
                &&& forall|j: int| 0 <= j < i ==> score < #[trigger] ratings@[j]
            },
        decreases ratings.len() - x,
    {
        if ratings[x] < score {
            score = ratings[x];
            best = Some(x);
        }
        x = x + 1;
    }
    best
}

/// The absent unit that the random fill-up deploys, for a draw of `value`
/// among the `absent_count` units of the absent force: the unit at that
/// position, or none where the draw is not a position of the force.
pub fn pick_random_absent(absent_count: i32, value: i32) -> (r: Option<usize>)
    ensures
        r == (if 0 <= value < absent_count { Some(value as usize) } else { None::<usize> }),
{
    if 0 <= value && value < absent_count {
        Some(value as usize)
    } else {
        None
    }
}

/// The number of rounds a fill-up runs: one per open slot of the player
/// force, each round deploying one unit.
pub open spec fn spec_open_slots(player_count: int, max_player: int) -> nat {
    if player_count < max_player { (max_player - player_count) as nat } else { 0 }
}

/// `i` is the unit that a round of the lowest-rating fill-up deploys once the
/// units `chosen` (indices into the absent force as it was when the fill-up
/// began) have left: the first of the lowest rated remaining units, rated
/// below `RATING_CEILING`.
pub open spec fn spec_first_lowest_remaining(ratings: Seq<i32>, chosen: Seq<usize>, i: int) -> bool {
    &&& 0 <= i < ratings.len()
    &&& !chosen.contains(i as usize)
    &&& ratings[i] < RATING_CEILING
    &&& forall|j: int| 0 <= j < ratings.len() && !chosen.contains(j as usize) ==> ratings[i] <= #[trigger] ratings[j]
    &&& forall|j: int| 0 <= j < i && !chosen.contains(j as usize) ==> ratings[i] < #[trigger] ratings[j]
}

/// No remaining unit is rated below `RATING_CEILING`: a round deploys no one.
pub open spec fn spec_none_remaining(ratings: Seq<i32>, chosen: Seq<usize>) -> bool {
    forall|j: int| 0 <= j < ratings.len() && !chosen.contains(j as usize) ==> #[trigger] ratings[j] >= RATING_CEILING
}

/// `order` is the deploy order of the lowest-rating fill-up over `ratings`
/// with `slots` open slots: each unit is the one a round picks after the
/// earlier ones left, and the order stops short of `slots` only where no
/// remaining unit can be picked.
pub open spec fn spec_is_lowest_rating_order(ratings: Seq<i32>, slots: nat, order: Seq<usize>) -> bool {
    &&& order.len() <= slots
    &&& forall|k: int| 0 <= k < order.len() ==> spec_first_lowest_remaining(ratings, order.take(k), #[trigger] order[k] as int)
    &&& order.len() < slots ==> spec_none_remaining(ratings, order)
}

fn pick_lowest_remaining(ratings: &Vec<i32>, mask: &Vec<bool>, Ghost(chosen): Ghost<Seq<usize>>) -> (r: Option<usize>)
    requires
        mask.len() == ratings.len(),
        forall|j: int| 0 <= j < ratings.len() ==> #[trigger] mask@[j] == chosen.contains(j as usize),
    ensures
        r is None <==> spec_none_remaining(ratings@, chosen),
        r matches Some(i) ==> spec_first_lowest_remaining(ratings@, chosen, i as int),
{
    let mut best: Option<usize> = None;
    let mut score: i32 = RATING_CEILING;
    let mut x: usize = 0;
    while x < ratings.len()
        invariant
            x <= ratings.len(),
            mask.len() == ratings.len(),
            forall|j: int| 0 <= j < ratings.len() ==> #[trigger] mask@[j] == chosen.contains(j as usize),
            best is None ==> score == RATING_CEILING,
            best is None ==> forall|j: int| 0 <= j < x && !chosen.contains(j as usize) ==> #[trigger] ratings@[j] >= RATING_CEILING,
            best matches Some(i) ==> {
                &&& i < x
                &&& !chosen.contains(i)
                &&& score == ratings@[i as int]
                &&& score < RATING_CEILING
                &&& forall|j: int| 0 <= j < x && !chosen.contains(j as usize) ==> score <= #[trigger] ratings@[j]
                &&& forall|j: int| 0 <= j < i && !chosen.contains(j as usize) ==> score < #[trigger] ratings@[j]
            },
        decreases ratings.len() - x,
    {
        if !mask[x] && ratings[x] < score {
            score = ratings[x];
            best = Some(x);
        }
        x = x + 1;
    }
    best
}

/// The deploy order of the lowest-rating fill-up: the absent units, given by
/// their ratings in force order when the fill-up begins, that the fill-up
/// moves to the player force, in the order it moves them. Each round moves
/// the first of the lowest rated units still absent (the force keeps its
/// order as units leave), and rounds run while the player force, holding
/// `player_count` units, is below `max_player`. Where the order is shorter
/// than the open slots, no absent unit is rated below `RATING_CEILING` and
/// the fill-up never ends.
pub fn lowest_rating_fill(ratings: &Vec<i32>, player_count: i32, max_player: i32) -> (order: Vec<usize>)
    ensures
        spec_is_lowest_rating_order(ratings@, spec_open_slots(player_count as int, max_player as int), order@),
{
    let slots: usize = if player_count < max_player {
        let d: i64 = max_player as i64 - player_count as i64;
        d as usize
    } else {
        0
    };
    assert(slots == spec_open_slots(player_count as int, max_player as int));
    let mut order: Vec<usize> = Vec::new();
    let mut mask: Vec<bool> = Vec::new();
    let mut x: usize = 0;
    while x < ratings.len()
        invariant
            x <= ratings.len(),
            mask@ =~= Seq::new(x as nat, |j: int| false),
        decreases ratings.len() - x,
    {
        mask.push(false);
        x = x + 1;
    }
    while order.len() < slots
        invariant
            order.len() <= slots,
            slots == spec_open_slots(player_count as int, max_player as int),
            mask.len() == ratings.len(),
            forall|j: int| 0 <= j < ratings.len() ==> #[trigger] mask@[j] == order@.contains(j as usize),
            forall|k: int| 0 <= k < order.len() ==> spec_first_lowest_remaining(ratings@, order@.take(k), #[trigger] order@[k] as int),
        ensures
            order.len() <= slots,
            forall|k: int| 0 <= k < order.len() ==> spec_first_lowest_remaining(ratings@, order@.take(k), #[trigger] order@[k] as int),
            order.len() < slots ==> spec_none_remaining(ratings@, order@),
        decreases slots - order.len(),
    {
        match pick_lowest_remaining(ratings, &mask, Ghost(order@)) {
            None => {
                break;
            },
            Some(i) => {
                let ghost old_order = order@;
                order.push(i);
                mask.set(i, true);
                proof {
                    assert(order@.take(old_order.len() as int) =~= old_order);
                    assert forall|k: int| 0 <= k < order.len() implies spec_first_lowest_remaining(ratings@, order@.take(k), #[trigger] order@[k] as int) by {
                        if k < old_order.len() {
                            assert(order@.take(k) =~= old_order.take(k));
                        }
                    }
                    assert forall|j: int| 0 <= j < ratings.len() implies #[trigger] mask@[j] == order@.contains(j as usize) by {
                        if j == i {
                            assert(order@[old_order.len() as int] == i);
                        } else {
                            if old_order.contains(j as usize) {
                                let k = choose|k: int| 0 <= k < old_order.len() && old_order[k] == j as usize;
                                assert(order@[k] == j as usize);
                            }
                            if order@.contains(j as usize) {
                                let k = choose|k: int| 0 <= k < order@.len() && order@[k] == j as usize;
                                assert(old_order[k] == j as usize);
                            }
                        }
                    }
                }
            },
        }
    }
    order
}

/// The lowest-rating fill-up deploys the lowest rated units: every unit it
/// deploys is rated no higher than any unit it leaves absent, the deployed
/// ratings never decrease from round to round, and no unit is deployed
/// twice.
pub proof fn lemma_lowest_rating_fill_law(ratings: Seq<i32>, slots: nat, order: Seq<usize>)
    requires
        spec_is_lowest_rating_order(ratings, slots, order),
    ensures
        forall|k: int, j: int| 0 <= k < order.len() && 0 <= j < ratings.len() && !order.contains(j as usize)
            ==> #[trigger] ratings[order[k] as int] <= #[trigger] ratings[j],
        forall|k: int| 0 <= k < order.len() - 1 ==> ratings[order[k] as int] <= #[trigger] ratings[order[k + 1] as int],
        forall|k: int, l: int| 0 <= k < l < order.len() ==> order[k] != order[l],
        forall|k: int| 0 <= k < order.len() ==> (#[trigger] order[k] as int) < ratings.len(),
        forall|k: int| 0 <= k < order.len() ==> #[trigger] ratings[order[k] as int] < 99999,
        forall|k: int, l: int| 0 <= k < l < order.len() && ratings[order[k] as int] == ratings[order[l] as int]
            ==> #[trigger] order[k] < #[trigger] order[l],
        order.len() < slots ==> forall|j: int| 0 <= j < ratings.len() && !order.contains(j as usize)
            ==> #[trigger] ratings[j] >= 99999,
{
    assert forall|k: int, l: int| 0 <= k < l < order.len() && ratings[order[k] as int] == ratings[order[l] as int]
        implies #[trigger] order[k] < #[trigger] order[l] by {
        assert(spec_first_lowest_remaining(ratings, order.take(k), order[k] as int));
        assert(spec_first_lowest_remaining(ratings, order.take(l), order[l] as int));
        assert(order.take(l)[k] == order[k]);
        if order[l] < order[k] {
            if order.take(k).contains(order[l]) {
                let m = choose|m: int| 0 <= m < order.take(k).len() && order.take(k)[m] == order[l];
                assert(order.take(l)[m] == order[l]);
            }
        }
    }
    assert forall|k: int, j: int| 0 <= k < order.len() && 0 <= j < ratings.len() && !order.contains(j as usize)
        implies #[trigger] ratings[order[k] as int] <= #[trigger] ratings[j] by {
        assert(spec_first_lowest_remaining(ratings, order.take(k), order[k] as int));
        if order.take(k).contains(j as usize) {
            let m = choose|m: int| 0 <= m < order.take(k).len() && order.take(k)[m] == j as usize;
            assert(order[m] == j as usize);
        }
    }
    assert forall|k: int| 0 <= k < order.len() - 1 implies ratings[order[k] as int] <= #[trigger] ratings[order[k + 1] as int] by {
        assert(spec_first_lowest_remaining(ratings, order.take(k), order[k] as int));
        assert(spec_first_lowest_remaining(ratings, order.take(k + 1), order[k + 1] as int));
        if order.take(k).contains(order[k + 1]) {
            let m = choose|m: int| 0 <= m < order.take(k).len() && order.take(k)[m] == order[k + 1];
            assert(order.take(k + 1)[m] == order[k + 1]);
        }
    }
    assert forall|k: int, l: int| 0 <= k < l < order.len() implies order[k] != order[l] by {
        assert(spec_first_lowest_remaining(ratings, order.take(l), order[l] as int));
        assert(order.take(l)[k] == order[k]);
    }
    assert forall|k: int| 0 <= k < order.len() implies (#[trigger] order[k] as int) < ratings.len() by {
        assert(spec_first_lowest_remaining(ratings, order.take(k), order[k] as int));
    }
}

/// A random fill-up in progress: the units left in the absent force, the
/// units in the player force, and the size the player force is filled to.
#[derive(Clone, Copy, Debug, PartialEq, Eq)]
pub struct RandomFill {
    pub absent_count: i32,
    pub player_count: i32,
    pub max_player: i32,
}

/// Whether the random fill-up has filled the player force.
pub open spec fn spec_random_fill_done(s: RandomFill) -> bool {
    s.player_count >= s.max_player
}

/// The state after a draw of `value` among the absent units: a position of
/// the absent force moves that unit to the player force; any other draw
/// changes nothing.
pub open spec fn spec_random_draw(s: RandomFill, value: int) -> (RandomFill, Option<usize>) {
    if 0 <= value < s.absent_count {
        (
            RandomFill {
                absent_count: (s.absent_count - 1) as i32,
                player_count: (s.player_count + 1) as i32,
                max_player: s.max_player,
            },
            Some(value as usize),
        )
    } else {
        (s, None)
    }
}

impl RandomFill {
    /// A random fill-up of a player force holding `player_count` units up to
    /// `max_player`, from an absent force holding `absent_count` units.
    pub fn new(absent_count: i32, player_count: i32, max_player: i32) -> (f: RandomFill)
        ensures
            f == (RandomFill { absent_count, player_count, max_player }),
    {
        RandomFill { absent_count, player_count, max_player }
    }

    /// Whether the player force is full, which ends the fill-up.
    pub fn is_done(&self) -> (b: bool)
        ensures
            b == spec_random_fill_done(*self),
    {
        self.player_count >= self.max_player
    }

    /// A round of the fill-up with a draw of `value` in `0..absent_count`:
    /// the absent unit at that position is to move to the player force and
    /// its position is returned; a draw outside the force moves no one.
    pub fn draw(&mut self, value: i32) -> (r: Option<usize>)
        requires
            !spec_random_fill_done(*old(self)),
        ensures
            (*final(self), r) == spec_random_draw(*old(self), value as int),
    {
        match pick_random_absent(self.absent_count, value) {
            Some(i) => {
                self.absent_count = self.absent_count - 1;
                self.player_count = self.player_count + 1;
                Some(i)
            },
            None => None,
        }
    }
}

/// A random fill-up whose absent force holds enough units for the open
/// slots: `total` units are shared by both forces.
pub open spec fn spec_random_fill_inv(s: RandomFill, total: int) -> bool {
    &&& s.absent_count + s.player_count == total
    &&& s.absent_count >= 0
    &&& s.player_count <= s.max_player ==> s.absent_count >= s.max_player - s.player_count
}

/// The random fill-up loses and duplicates no unit and always finishes:
/// every draw keeps both forces' units together, a draw that moves a unit
/// brings the player force one closer to full, while the force is not full
/// some draw moves a unit, and the fill-up is done after exactly as many
/// moves as there were open slots.
pub proof fn lemma_random_fill_law(s: RandomFill, total: int, value: int)
    requires
        spec_random_fill_inv(s, total),
        !spec_random_fill_done(s),
    ensures
        spec_random_fill_inv(spec_random_draw(s, value).0, total),
        spec_random_draw(s, value).1 is Some ==> spec_open_slots(
            spec_random_draw(s, value).0.player_count as int,
            s.max_player as int,
        ) == spec_open_slots(s.player_count as int, s.max_player as int) - 1,
        spec_random_draw(s, value).1 is None ==> spec_random_draw(s, value).0 == s,
        spec_random_draw(s, 0).1 == Some(0usize),
        spec_random_fill_done(spec_random_draw(s, value).0) <==> (
            spec_random_draw(s, value).1 is Some && spec_open_slots(s.player_count as int, s.max_player as int) == 1),
{
}

/// Whether the team builder moves units between forces in a plan.
pub open spec fn spec_redeploys(config: DeploymentConfig, absent_count: i32, evil_map: bool) -> bool {
    !evil_map && config.deployment_type != 0 && absent_count != 0
}

/// Every plan starts by saving the settings; on an evil map the plan only
/// restores both branches; units are moved between forces exactly when the
/// map is not evil, a custom deployment mode is set and the absent force is
/// not empty, and then the hero is deployed before any fill-up.
pub proof fn lemma_plan_shape(config: DeploymentConfig, absent_count: i32, evil_map: bool, encount_map: bool)
    ensures
        ({
            let plan = spec_create_player_team(config, absent_count, evil_map, encount_map);
            &&& plan.len() > 0 && plan[0] == DeployStep::SaveConfig
            &&& evil_map ==> plan == seq![
                DeployStep::SaveConfig,
                DeployStep::Patch(spec_restore(SORTIE_BRANCH)),
                DeployStep::Patch(spec_restore(EMBLEM_BRANCH)),
            ]
            &&& plan.contains(DeployStep::MovePlayersToAbsent) <==> spec_redeploys(config, absent_count, evil_map)
            &&& spec_redeploys(config, absent_count, evil_map) ==> plan[1] == DeployStep::MovePlayersToAbsent
                && plan[2] == DeployStep::MoveDeadToAbsent && plan[3] == DeployStep::DeployHero
        }),
{
    let plan = spec_create_player_team(config, absent_count, evil_map, encount_map);
    if evil_map {
        assert(plan =~= seq![
            DeployStep::SaveConfig,
            DeployStep::Patch(spec_restore(SORTIE_BRANCH)),
            DeployStep::Patch(spec_restore(EMBLEM_BRANCH)),
        ]);
    }
    if spec_redeploys(config, absent_count, evil_map) {
        assert(plan[1] == DeployStep::MovePlayersToAbsent);
    } else {
        assert(!plan.contains(DeployStep::MovePlayersToAbsent));
    }
}

/// Whether the team builder hands out random emblems in a plan.
pub open spec fn spec_randomizes_emblems(config: DeploymentConfig, absent_count: i32, evil_map: bool) -> bool {
    config.random_emblems && !evil_map && (config.deployment_type == 0 || absent_count != 0)
}

/// Random emblems are handed out exactly when they are switched on, the map
/// is not evil, and either the game's own deployment is kept or there are
/// absent units to deploy; they are then the last step of the plan, right
/// after the rings are taken off with the emblem branch switched off.
pub proof fn lemma_plan_emblems(config: DeploymentConfig, absent_count: i32, evil_map: bool, encount_map: bool)
    ensures
        ({
            let plan = spec_create_player_team(config, absent_count, evil_map, encount_map);
            &&& plan.contains(DeployStep::AssignRandomEmblems) <==> spec_randomizes_emblems(config, absent_count, evil_map)
            &&& spec_randomizes_emblems(config, absent_count, evil_map) ==> {
                &&& plan.len() >= 3
                &&& plan[plan.len() - 1] == DeployStep::AssignRandomEmblems
                &&& plan[plan.len() - 2] == DeployStep::RemoveAllRings
                &&& plan[plan.len() - 3] == DeployStep::Patch(spec_nop_patch(EMBLEM_BRANCH))
            }
        }),
{
    let plan = spec_create_player_team(config, absent_count, evil_map, encount_map);
    if spec_randomizes_emblems(config, absent_count, evil_map) {
        let e = spec_emblem_steps();
        let pre = plan.take(plan.len() - 3);
        assert(plan =~= pre + e);
        assert(plan[plan.len() - 1] == e[2]);
    } else {
        assert(!plan.contains(DeployStep::AssignRandomEmblems));
    }
}

/// The game's own deployment (mode 0, emblems not randomized, map not evil)
/// moves no unit and only restores the game's sortie branch (and, with an
/// empty absent force, the emblem branch too).
pub proof fn lemma_plan_default_deployment(absent_count: i32, encount_map: bool)
    ensures
        ({
            let plan = spec_create_player_team(
                DeploymentConfig { deployment_type: 0, random_emblems: false },
                absent_count,
                false,
                encount_map,
            );
            &&& absent_count != 0 ==> plan == seq![DeployStep::SaveConfig, DeployStep::Patch(spec_restore(SORTIE_BRANCH))]
            &&& absent_count == 0 ==> plan == seq![
                DeployStep::SaveConfig,
                DeployStep::Patch(spec_restore(SORTIE_BRANCH)),
                DeployStep::Patch(spec_restore(EMBLEM_BRANCH)),
                DeployStep::Patch(spec_restore(SORTIE_BRANCH)),
            ]
        }),
{
    let plan = spec_create_player_team(
        DeploymentConfig { deployment_type: 0, random_emblems: false },
        absent_count,
        false,
        encount_map,
    );
    if absent_count != 0 {
        assert(plan =~= seq![DeployStep::SaveConfig, DeployStep::Patch(spec_restore(SORTIE_BRANCH))]);
    } else {
        assert(plan =~= seq![
            DeployStep::SaveConfig,
            DeployStep::Patch(spec_restore(SORTIE_BRANCH)),
            DeployStep::Patch(spec_restore(EMBLEM_BRANCH)),
            DeployStep::Patch(spec_restore(SORTIE_BRANCH)),
        ]);
    }
}

/// The fill-up follows the deployment mode alone: whenever the team builder
/// redeploys, mode 1 runs the lowest-rating fill-up and mode 2 the random
/// one, each right after the sortie branch is switched off (a no-op at
/// 0x01d785f8) and the emblem branch restored (0xc0 0x00 0x00 0x36 at
/// 0x01d77028), whatever the emblem setting and the map; any other mode, or
/// a plan that does not redeploy, runs no fill-up and never switches the
/// sortie branch off. The hero gets status 20 exactly on maps that are not
/// encounter maps.
pub proof fn lemma_plan_fill_follows_mode(config: DeploymentConfig, absent_count: i32, evil_map: bool, encount_map: bool)
    ensures
        ({
            let plan = spec_create_player_team(config, absent_count, evil_map, encount_map);
            let sortie_off = DeployStep::Patch(TextPatch { offset: 0x01d785f8, write: PatchWrite::Nop });
            let emblem_on = DeployStep::Patch(TextPatch { offset: 0x01d77028, write: PatchWrite::Word(0xc0, 0x00, 0x00, 0x36) });
            let redeploys = !evil_map && config.deployment_type != 0 && absent_count != 0;
            &&& (redeploys && config.deployment_type == 1) ==> exists|i: int| 0 <= i && i + 2 < plan.len()
                && plan[i] == sortie_off && plan[i + 1] == emblem_on && #[trigger] plan[i + 2] == DeployStep::FillByLowestRating
            &&& (redeploys && config.deployment_type == 2) ==> exists|i: int| 0 <= i && i + 2 < plan.len()
                && plan[i] == sortie_off && plan[i + 1] == emblem_on && #[trigger] plan[i + 2] == DeployStep::FillAtRandom
            &&& config.deployment_type != 1 ==> !plan.contains(DeployStep::FillByLowestRating)
            &&& config.deployment_type != 2 ==> !plan.contains(DeployStep::FillAtRandom)
            &&& !redeploys ==> !plan.contains(DeployStep::FillByLowestRating) && !plan.contains(DeployStep::FillAtRandom)
            &&& (config.deployment_type != 1 && config.deployment_type != 2) ==> !plan.contains(sortie_off)
            &&& !redeploys ==> !plan.contains(sortie_off)
            &&& redeploys ==> (plan.contains(DeployStep::SetHeroStatus) <==> !encount_map)
            &&& !redeploys ==> !plan.contains(DeployStep::SetHeroStatus) && !plan.contains(DeployStep::DeployHero)
        }),
{
    let plan = spec_create_player_team(config, absent_count, evil_map, encount_map);
    let sortie_off = DeployStep::Patch(TextPatch { offset: 0x01d785f8, write: PatchWrite::Nop });
    let emblem_on = DeployStep::Patch(TextPatch { offset: 0x01d77028, write: PatchWrite::Word(0xc0, 0x00, 0x00, 0x36) });
    let redeploys = !evil_map && config.deployment_type != 0 && absent_count != 0;
    if redeploys {
        let i: int = if encount_map { 4 } else { 5 };
        if config.deployment_type == 1 {
            assert(plan[i] == sortie_off && plan[i + 1] == emblem_on && plan[i + 2] == DeployStep::FillByLowestRating);
        } else if config.deployment_type == 2 {
            assert(plan[i] == sortie_off && plan[i + 1] == emblem_on && plan[i + 2] == DeployStep::FillAtRandom);
        }
        if !encount_map {
            assert(plan[4] == DeployStep::SetHeroStatus);
        }
    }
}

/// Every code write of a plan is one of four: the sortie branch
/// (0x01d785f8) or the emblem branch (0x01d77028), each either restored to
/// 0xc0 0x00 0x00 0x36 or switched off with a no-op.
pub proof fn lemma_plan_patches(config: DeploymentConfig, absent_count: i32, evil_map: bool, encount_map: bool, k: int)
    requires
        0 <= k < spec_create_player_team(config, absent_count, evil_map, encount_map).len(),
    ensures
        ({
            let step = spec_create_player_team(config, absent_count, evil_map, encount_map)[k];
            step matches DeployStep::Patch(p) ==> {
                &&& (p.offset == 0x01d785f8 || p.offset == 0x01d77028)
                &&& (p.write == PatchWrite::Nop || p.write == PatchWrite::Word(0xc0, 0x00, 0x00, 0x36))
            }
        }),
{
}

/// A unit's rating is the sum of its capabilities of types 1 to 7: HP (type
/// 0) and types 8 and above are left out.
pub proof fn lemma_rating_is_sum(caps: Seq<i32>)
    requires
        caps.len() >= 8,
    ensures
        spec_rating_sum(caps, 8) == caps[1] + caps[2] + caps[3] + caps[4] + caps[5] + caps[6] + caps[7],
{
    reveal_with_fuel(spec_rating_sum, 8);
}

/// A draw of the random fill-up is accepted exactly when it is a position of
/// the absent force, and then that position is deployed, one unit leaves
/// the absent force and one joins the player force.
pub proof fn lemma_random_draw_accepts_positions(s: RandomFill, value: int)
    requires
        s.player_count < s.max_player,
    ensures
        spec_random_draw(s, value).1 is Some <==> 0 <= value < s.absent_count,
        spec_random_draw(s, value).1 is Some ==> {
            &&& spec_random_draw(s, value).1 == Some(value as usize)
            &&& spec_random_draw(s, value).0.absent_count == s.absent_count - 1
            &&& spec_random_draw(s, value).0.player_count == s.player_count + 1
            &&& spec_random_draw(s, value).0.max_player == s.max_player
        },
{
}

} // verus!
