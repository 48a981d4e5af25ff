//! The emblems that can be handed out, and the random hand-out itself.
use vstd::prelude::*;

verus! {

/// The number of emblems that the game knows.
pub const EMBLEM_COUNT: usize = 19;

/// The game id of each emblem, in the order in which they are offered.
pub open spec fn spec_emblem_gid(index: int) -> Seq<char> {
    if index == 0 { "GID_マルス"@ }
    else if index == 1 { "GID_シグルド"@ }
    else if index == 2 { "GID_セリカ"@ }
    else if index == 3 { "GID_ミカヤ"@ }
    else if index == 4 { "GID_ロイ"@ }
    else if index == 5 { "GID_リーフ"@ }
    else if index == 6 { "GID_ルキナ"@ }
    else if index == 7 { "GID_リン"@ }
    else if index == 8 { "GID_アイク"@ }
    else if index == 9 { "GID_ベレト"@ }
    else if index == 10 { "GID_カムイ"@ }
    else if index == 11 { "GID_エイリーク"@ }
    else if index == 12 { "GID_エーデルガルト"@ }
    else if index == 13 { "GID_チキ"@ }
    else if index == 14 { "GID_ヘクトル"@ }
    else if index == 15 { "GID_ヴェロニカ"@ }
    else if index == 16 { "GID_セネリオ"@ }
    else if index == 17 { "GID_カミラ"@ }
    else { "GID_クロム"@ }
}

/// The game id of the emblem at `index` of the emblem table.
pub fn emblem_gid(index: usize) -> (gid: &'static str)
    requires
        index < EMBLEM_COUNT,
    ensures
        gid@ == spec_emblem_gid(index as int),
{
    match index {
        0 => "GID_マルス",
        1 => "GID_シグルド",
        2 => "GID_セリカ",
        3 => "GID_ミカヤ",
        4 => "GID_ロイ",
        5 => "GID_リーフ",
        6 => "GID_ルキナ",
        7 => "GID_リン",
        8 => "GID_アイク",
        9 => "GID_ベレト",
        10 => "GID_カムイ",
        11 => "GID_エイリーク",
        12 => "GID_エーデルガルト",
        13 => "GID_チキ",
        14 => "GID_ヘクトル",
        15 => "GID_ヴェロニカ",
        16 => "GID_セネリオ",
        17 => "GID_カミラ",
        _ => "GID_クロム",
    }
}

/// `list` holds, in increasing order, exactly the indices `i` for which
/// `available[i]` holds.
pub open spec fn spec_is_available_list(available: Seq<bool>, list: Seq<usize>) -> bool {
    &&& forall|k: int| 0 <= k < list.len() ==> (list[k] as int) < available.len() && #[trigger] available[list[k] as int]
    &&& forall|k: int, l: int| 0 <= k < l < list.len() ==> list[k] < list[l]
    &&& forall|i: int| 0 <= i < available.len() && #[trigger] available[i] ==> list.contains(i as usize)
}

/// The emblems that can be handed out, as indices into the emblem table in
/// table order: `available[i]` tells whether the emblem at index `i` is in
/// the emblem pool and has not escaped.
pub fn get_emblem_list(available: &Vec<bool>) -> (list: Vec<usize>)
    requires
        available.len() == EMBLEM_COUNT,
    ensures
        spec_is_available_list(available@, list@),
{
    let mut list: Vec<usize> = Vec::new();
    let mut i: usize = 0;
    while i < available.len()
        invariant
            i <= available.len(),
            forall|k: int| 0 <= k < list.len() ==> (#[trigger] list@[k] as int) < i && available@[list@[k] as int],
            forall|k: int, l: int| 0 <= k < l < list.len() ==> list@[k] < list@[l],
            forall|j: int| 0 <= j < i && #[trigger] available@[j] ==> list@.contains(j as usize),
        decreases available.len() - i,
    {
        let ghost old_list = list@;
        if available[i] {
            list.push(i);
            assert(list@[list.len() - 1] == i);
        }
        proof {
            assert forall|j: int| 0 <= j < i + 1 && #[trigger] available@[j] implies list@.contains(j as usize) by {
                if j == i {
                    assert(list@[list.len() - 1] == i);
                } else {
                    let k = choose|k: int| 0 <= k < old_list.len() && old_list[k] == j as usize;
                    assert(list@[k] == j as usize);
                }
            }
        }
        i = i + 1;
    }
    list
}

/// Number of `true` entries of `s`.
pub open spec fn count_taken(s: Seq<bool>) -> nat
    decreases s.len(),
{
    if s.len() == 0 {
        0
    } else {
        count_taken(s.drop_last()) + if s.last() { 1nat } else { 0nat }
    }
}

/// Marking a free entry as taken adds one to the count.
pub proof fn lemma_count_taken_update(s: Seq<bool>, i: int)
    requires
        0 <= i < s.len(),
        !s[i],
    ensures
        count_taken(s.update(i, true)) == count_taken(s) + 1,
    decreases s.len(),
{
    let t = s.update(i, true);
    if i == s.len() - 1 {
        assert(t.drop_last() =~= s.drop_last());
    } else {
        lemma_count_taken_update(s.drop_last(), i);
        assert(t.drop_last() =~= s.drop_last().update(i, true));
    }
}

/// The count never exceeds the length.
pub proof fn lemma_count_taken_bound(s: Seq<bool>)
    ensures
        count_taken(s) <= s.len(),
    decreases s.len(),
{
    if s.len() > 0 {
        lemma_count_taken_bound(s.drop_last());
    }
}

/// No entry taken: the count is zero.
pub proof fn lemma_count_taken_none(n: nat)
    ensures
        count_taken(Seq::new(n, |i: int| false)) == 0,
    decreases n,
{
    if n > 0 {
        let s = Seq::new(n, |i: int| false);
        assert(s.drop_last() =~= Seq::new((n - 1) as nat, |i: int| false));
        lemma_count_taken_none((n - 1) as nat);
    }
}

/// Every entry taken: the count is the length.
pub proof fn lemma_count_taken_all(s: Seq<bool>)
    requires
        forall|i: int| 0 <= i < s.len() ==> #[trigger] s[i],
    ensures
        count_taken(s) == s.len(),
    decreases s.len(),
{
    if s.len() > 0 {
        lemma_count_taken_all(s.drop_last());
    }
}

/// The abstract state of a random emblem hand-out.
pub struct EmblemAssignmentView {
    /// `taken[i]`: the emblem at index `i` of the emblem list was handed out.
    pub taken: Seq<bool>,
    /// How many emblems are to be handed out.
    pub target: nat,
    /// The emblems handed out, as indices into the emblem list, in the order
    /// of the units that received them: the `k`-th unit of the player force
    /// receives `handed[k]`.
    pub handed: Seq<usize>,
}

/// A consistent hand-out: no emblem handed out twice, each handed-out index
/// a position of the list, the taken marks are exactly the handed-out
/// emblems, and their count is the number handed out.
pub open spec fn spec_handout_wf(s: EmblemAssignmentView) -> bool {
    &&& forall|k: int, l: int| 0 <= k < l < s.handed.len() ==> s.handed[k] != s.handed[l]
    &&& forall|k: int| 0 <= k < s.handed.len() ==> (#[trigger] s.handed[k] as int) < s.taken.len()
    &&& forall|i: int| 0 <= i < s.taken.len() ==> (#[trigger] s.taken[i] <==> s.handed.contains(i as usize))
    &&& count_taken(s.taken) == s.handed.len()
    &&& s.taken.len() <= usize::MAX
}

/// The number of emblems to hand out: the length of the emblem list, capped
/// at the player force's sortie limit when that limit is not negative.
pub open spec fn spec_emblem_target(list_len: nat, max_player: int) -> nat {
    if max_player >= 0 && list_len > max_player { max_player as nat } else { list_len }
}

/// The state after a random draw of `value`: a free emblem is handed out
/// (to the next unit), a taken one asks for another draw.
pub open spec fn spec_offer(s: EmblemAssignmentView, value: int) -> (EmblemAssignmentView, Option<usize>) {
    if s.taken[value] {
        (s, None)
    } else {
        (
            EmblemAssignmentView {
                taken: s.taken.update(value, true),
                target: s.target,
                handed: s.handed.push(value as usize),
            },
            Some(value as usize),
        )
    }
}

/// Whether a hand-out has handed out as many emblems as it was to.
pub open spec fn spec_handout_done(s: EmblemAssignmentView) -> bool {
    s.handed.len() == s.target
}

/// The state after a whole series of draws, each a position of the list.
pub open spec fn spec_run(s: EmblemAssignmentView, draws: Seq<int>) -> EmblemAssignmentView
    decreases draws.len(),
{
    if draws.len() == 0 {
        s
    } else {
        spec_run(spec_offer(s, draws[0]).0, draws.drop_first())
    }
}

/// A random hand-out of emblems to the units of the player force, one unit
/// after the other in the force's order. For each unit the caller draws
/// `value` in `0..list_len` until `offer` accepts one, gives the unit the
/// emblem at that index of the emblem list, and stops when `is_done` holds.
pub struct EmblemAssignment {
    taken: Vec<bool>,
    target: usize,
    handed: Vec<usize>,
}

impl View for EmblemAssignment {
    type V = EmblemAssignmentView;

    closed spec fn view(&self) -> EmblemAssignmentView {
        EmblemAssignmentView { taken: self.taken@, target: self.target as nat, handed: self.handed@ }
    }
}

impl EmblemAssignment {
    /// The hand-out is consistent.
    pub open spec fn wf(&self) -> bool {
        spec_handout_wf(self@)
    }

    /// A hand-out of a list of `list_len` emblems to a player force whose
    /// sortie limit is `max_player`; nothing is handed out yet.
    pub fn new(list_len: usize, max_player: i32) -> (a: EmblemAssignment)
        ensures
            a.wf(),
            a@.taken == Seq::new(list_len as nat, |i: int| false),
            a@.target == spec_emblem_target(list_len as nat, max_player as int),
            a@.handed == Seq::<usize>::empty(),
    {
        let mut taken: Vec<bool> = Vec::new();
        let mut i: usize = 0;
        while i < list_len
            invariant
                i <= list_len,
                taken@ =~= Seq::new(i as nat, |j: int| false),
            decreases list_len - i,
        {
            taken.push(false);
            i = i + 1;
        }
        let target = if max_player >= 0 && list_len > max_player as usize {
            max_player as usize
        } else {
            list_len
        };
        proof {
            lemma_count_taken_none(list_len as nat);
        }
        let a = EmblemAssignment { taken, target, handed: Vec::new() };
        assert(a@.handed =~= Seq::<usize>::empty());
        a
    }

    /// The number of emblems in the list.
    pub fn list_len(&self) -> (n: usize)
        ensures
            n == self@.taken.len(),
    {
        self.taken.len()
    }

    /// The emblems handed out so far, in the order of the units that
    /// received them.
    pub fn handed(&self) -> (h: &Vec<usize>)
        ensures
            h@ == self@.handed,
    {
        &self.handed
    }

    /// Takes a draw of `value`: where that emblem is still free, it is
    /// handed out to the next unit and its index returned; where it was
    /// handed out already, `None` asks for another draw.
    pub fn offer(&mut self, value: usize) -> (r: Option<usize>)
        requires
            old(self).wf(),
            value < old(self)@.taken.len(),
        ensures
            final(self).wf(),
            (final(self)@, r) == spec_offer(old(self)@, value as int),
    {
        proof {
            lemma_offer_keeps_wf(self@, value as int);
        }
        if self.taken[value] {
            None
        } else {
            let n = self.taken.len();
            proof {
                lemma_count_taken_update(self.taken@, value as int);
                lemma_count_taken_bound(self.taken@.update(value as int, true));
            }
            self.taken.set(value, true);
            self.handed.push(value);
            Some(value)
        }
    }

    /// Whether as many emblems as were to be handed out have been.
    pub fn is_done(&self) -> (b: bool)
        requires
            self.wf(),
        ensures
            b == spec_handout_done(self@),
            b ==> count_taken(self@.taken) == self@.target,
    {
        self.handed.len() == self.target
    }
}

/// A draw keeps a hand-out consistent.
pub proof fn lemma_offer_keeps_wf(s: EmblemAssignmentView, v: int)
    requires
        spec_handout_wf(s),
        0 <= v < s.taken.len(),
    ensures
        spec_handout_wf(spec_offer(s, v).0),
        spec_offer(s, v).0.target == s.target,
        spec_offer(s, v).0.taken.len() == s.taken.len(),
        s.handed.is_prefix_of(spec_offer(s, v).0.handed),
{
    if !s.taken[v] {
        let t = spec_offer(s, v).0;
        lemma_count_taken_update(s.taken, v);
        assert(!s.handed.contains(v as usize));
        assert forall|k: int, l: int| 0 <= k < l < t.handed.len() implies t.handed[k] != t.handed[l] by {
            if l == s.handed.len() {
                assert(s.handed.contains(s.handed[k]));
            }
        }
        assert forall|i: int| 0 <= i < t.taken.len() implies (#[trigger] t.taken[i] <==> t.handed.contains(i as usize)) by {
            if i == v {
                assert(t.handed[s.handed.len() as int] == v as usize);
            } else {
                if s.handed.contains(i as usize) {
                    let k = choose|k: int| 0 <= k < s.handed.len() && s.handed[k] == i as usize;
                    assert(t.handed[k] == i as usize);
                }
                if t.handed.contains(i as usize) {
                    let k = choose|k: int| 0 <= k < t.handed.len() && t.handed[k] == i as usize;
                    assert(k < s.handed.len());
                    assert(s.handed[k] == i as usize);
                }
            }
        }
    }
}

/// A whole hand-out never hands an emblem out twice: whatever the draws,
/// the emblems handed out stay pairwise distinct positions of the list,
/// what was handed out before stays handed out (to the same units), and the
/// number to hand out does not change.
pub proof fn lemma_run_never_repeats(s: EmblemAssignmentView, draws: Seq<int>)
    requires
        spec_handout_wf(s),
        forall|k: int| 0 <= k < draws.len() ==> 0 <= #[trigger] draws[k] < s.taken.len(),
    ensures
        spec_handout_wf(spec_run(s, draws)),
        spec_run(s, draws).target == s.target,
        spec_run(s, draws).taken.len() == s.taken.len(),
        s.handed.is_prefix_of(spec_run(s, draws).handed),
        forall|k: int, l: int| 0 <= k < l < spec_run(s, draws).handed.len()
            ==> spec_run(s, draws).handed[k] != spec_run(s, draws).handed[l],
    decreases draws.len(),
{
    if draws.len() > 0 {
        let s1 = spec_offer(s, draws[0]).0;
        lemma_offer_keeps_wf(s, draws[0]);
        let rest = draws.drop_first();
        assert forall|k: int| 0 <= k < rest.len() implies 0 <= #[trigger] rest[k] < s1.taken.len() by {
            assert(rest[k] == draws[k + 1]);
        }
        lemma_run_never_repeats(s1, rest);
        let h = spec_run(s, draws).handed;
        assert forall|k: int| 0 <= k < s.handed.len() implies s.handed[k] == h[k] by {
            assert(s1.handed[k] == s.handed[k]);
        }
    }
}

/// A hand-out that is not done yet never gets stuck: while fewer emblems
/// than its target were handed out, some emblem is free and a draw of it
/// is accepted.
pub proof fn lemma_free_emblem_exists(s: EmblemAssignmentView, list_len: nat, max_player: int)
    requires
        spec_handout_wf(s),
        s.taken.len() == list_len,
        s.target == spec_emblem_target(list_len, max_player),
        s.handed.len() < s.target,
    ensures
        exists|i: int| 0 <= i < s.taken.len() && !s.taken[i] && spec_offer(s, i).1 == Some(i as usize),
{
    if forall|i: int| 0 <= i < s.taken.len() ==> #[trigger] s.taken[i] {
        lemma_count_taken_all(s.taken);
    }
    let i = choose|i: int| 0 <= i < s.taken.len() && !s.taken[i];
    assert(spec_offer(s, i).1 == Some(i as usize));
}

/// An emblem is handed out at most once: of two successive draws that are
/// both accepted, the second never gives the emblem of the first.
pub proof fn lemma_offers_never_repeat(s: EmblemAssignmentView, v1: int, v2: int)
    requires
        s.taken.len() <= usize::MAX,
        0 <= v1 < s.taken.len(),
        0 <= v2 < s.taken.len(),
    ensures
        ({
            let (s1, r1) = spec_offer(s, v1);
            let (s2, r2) = spec_offer(s1, v2);
            r1 is Some && r2 is Some ==> r1 != r2
        }),
{
    let (s1, r1) = spec_offer(s, v1);
    if r1 is Some {
        assert(s1.taken[v1]);
    }
}

/// No more emblems are to be handed out than the list holds, nor, where the
/// sortie limit is not negative, more than the limit; where the list fits
/// in the limit, all of it is handed out.
pub proof fn lemma_emblem_target_bounds(list_len: nat, max_player: int)
    ensures
        spec_emblem_target(list_len, max_player) <= list_len,
        max_player >= 0 ==> spec_emblem_target(list_len, max_player) <= max_player,
        list_len <= max_player ==> spec_emblem_target(list_len, max_player) == list_len,
{
}

/// The number to hand out is the smaller of the list's length and the
/// sortie limit, where that limit is not negative, and the whole list
/// otherwise: with a limit of 10 and 12 emblems, 10 are handed out.
pub proof fn lemma_emblem_target_is_min(list_len: nat, max_player: int)
    ensures
        max_player >= 0 && list_len > max_player ==> spec_emblem_target(list_len, max_player) == max_player,
        max_player >= 0 && list_len <= max_player ==> spec_emblem_target(list_len, max_player) == list_len,
        max_player < 0 ==> spec_emblem_target(list_len, max_player) == list_len,
{
}

/// A draw is accepted exactly when its emblem is still free; it then goes to
/// the next unit, is marked taken, and nothing else changes.
pub proof fn lemma_offer_accepts_free(s: EmblemAssignmentView, v: int)
    requires
        0 <= v < s.taken.len(),
        s.taken.len() <= usize::MAX,
    ensures
        spec_offer(s, v).1 is Some <==> !s.taken[v],
        !s.taken[v] ==> {
            &&& spec_offer(s, v).1 == Some(v as usize)
            &&& spec_offer(s, v).0.handed == s.handed.push(v as usize)
            &&& spec_offer(s, v).0.taken[v]
            &&& forall|i: int| 0 <= i < s.taken.len() && i != v ==> spec_offer(s, v).0.taken[i] == s.taken[i]
            &&& spec_offer(s, v).0.target == s.target
        },
        s.taken[v] ==> spec_offer(s, v).0 == s,
{
}

/// The emblem table, entry by entry.
pub proof fn lemma_emblem_table()
    ensures
        spec_emblem_gid(0) == "GID_マルス"@,
        spec_emblem_gid(1) == "GID_シグルド"@,
        spec_emblem_gid(2) == "GID_セリカ"@,
        spec_emblem_gid(3) == "GID_ミカヤ"@,
        spec_emblem_gid(4) == "GID_ロイ"@,
        spec_emblem_gid(5) == "GID_リーフ"@,
        spec_emblem_gid(6) == "GID_ルキナ"@,
        spec_emblem_gid(7) == "GID_リン"@,
        spec_emblem_gid(8) == "GID_アイク"@,
        spec_emblem_gid(9) == "GID_ベレト"@,
        spec_emblem_gid(10) == "GID_カムイ"@,
        spec_emblem_gid(11) == "GID_エイリーク"@,
        spec_emblem_gid(12) == "GID_エーデルガルト"@,
        spec_emblem_gid(13) == "GID_チキ"@,
        spec_emblem_gid(14) == "GID_ヘクトル"@,
        spec_emblem_gid(15) == "GID_ヴェロニカ"@,
        spec_emblem_gid(16) == "GID_セネリオ"@,
        spec_emblem_gid(17) == "GID_カミラ"@,
        spec_emblem_gid(18) == "GID_クロム"@,
{
}

} // verus!
