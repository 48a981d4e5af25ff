//! Raised stat caps: personal stat limits are cleared, class limits are
//! raised to 127 above the class base, and the buff limits are widened.
use vstd::prelude::*;
use crate::patches::{TextPatch, PatchWrite, spec_word_patch, word_patch};

verus! {

/// A table of stat values indexed by stat type (HP is type 0, move is
/// type 10).
pub struct Capability {
    pub data: Vec<u8>,
}

impl View for Capability {
    type V = Seq<u8>;

    open spec fn view(&self) -> Seq<u8> {
        self.data@
    }
}

/// The number of stat types whose personal limit is cleared (all eleven,
/// move included).
pub const PERSON_CAP_TYPES: usize = 11;

/// The number of stat types whose class limit is raised (all but move).
pub const RAISED_CAP_TYPES: usize = 10;

/// The class limit of move.
pub const MOVE_CAP: u8 = 99;

/// A personal limit table with its first eleven entries set to 0.
pub open spec fn spec_cleared_person_limit(s: Seq<u8>) -> Seq<u8> {
    Seq::new(s.len(), |i: int| if i < 11 { 0u8 } else { s[i] })
}

/// A class limit table whose first ten entries are 127 above the class
/// base, and whose move limit (entry 10) is 99.
pub open spec fn spec_raised_job_limit(limit: Seq<u8>, base: Seq<u8>) -> Seq<u8> {
    Seq::new(limit.len(), |i: int| if i < 10 { (127 + base[i]) as u8 } else if i == 10 { 99u8 } else { limit[i] })
}

/// What raising a class limit takes: a limit table with a move entry, a
/// base table with the ten raised types, and bases low enough that 127 more
/// still fits in a byte.
pub open spec fn spec_raisable(limit: Seq<u8>, base: Seq<u8>) -> bool {
    &&& limit.len() >= 11
    &&& base.len() >= 10
    &&& forall|i: int| 0 <= i < 10 ==> #[trigger] base[i] <= 128
}

/// The personal limit table `limit` with its eleven stat limits set to 0.
pub fn cleared_person_limit(limit: &Capability) -> (r: Capability)
    requires
        limit@.len() >= PERSON_CAP_TYPES,
    ensures
        r@ == spec_cleared_person_limit(limit@),
{
    let mut data: Vec<u8> = Vec::new();
    let mut i: usize = 0;
    while i < limit.data.len()
        invariant
            i <= limit.data.len(),
            data@ =~= spec_cleared_person_limit(limit@).take(i as int),
        decreases limit.data.len() - i,
    {
        if i < PERSON_CAP_TYPES {
            data.push(0);
        } else {
            data.push(limit.data[i]);
        }
        i = i + 1;
    }
    assert(data@ =~= spec_cleared_person_limit(limit@));
    Capability { data }
}

/// The class limit table `limit` raised from the class base table `base`.
pub fn raised_job_limit(limit: &Capability, base: &Capability) -> (r: Capability)
    requires
        spec_raisable(limit@, base@),
    ensures
        r@ == spec_raised_job_limit(limit@, base@),
{
    let mut data: Vec<u8> = Vec::new();
    let mut i: usize = 0;
    while i < limit.data.len()
        invariant
            i <= limit.data.len(),
            spec_raisable(limit@, base@),
            data@ =~= spec_raised_job_limit(limit@, base@).take(i as int),
        decreases limit.data.len() - i,
    {
        if i < RAISED_CAP_TYPES {
            let b = base.data[i];
            assert(b <= 128);
            data.push(127 + b);
        } else if i == RAISED_CAP_TYPES {
            data.push(MOVE_CAP);
        } else {
            data.push(limit.data[i]);
        }
        i = i + 1;
    }
    assert(data@ =~= spec_raised_job_limit(limit@, base@));
    Capability { data }
}

/// Clears the personal limits of every person and raises the class limits
/// of every class: `job_limits[x]` is the limit table and `job_bases[x]`
/// the base table of class `x`.
pub fn set_job_caps(person_limits: &mut Vec<Capability>, job_limits: &mut Vec<Capability>, job_bases: &Vec<Capability>)
    requires
        forall|x: int| 0 <= x < old(person_limits).len() ==> (#[trigger] old(person_limits)@[x])@.len() >= 11,
        old(job_limits).len() == job_bases.len(),
        forall|x: int| 0 <= x < old(job_limits).len() ==> spec_raisable(
            (#[trigger] old(job_limits)@[x])@,
            job_bases@[x]@,
        ),
    ensures
        final(person_limits).len() == old(person_limits).len(),
        forall|x: int| 0 <= x < final(person_limits).len() ==> (#[trigger] final(person_limits)@[x])@
            == spec_cleared_person_limit(old(person_limits)@[x]@),
        final(job_limits).len() == old(job_limits).len(),
        forall|x: int| 0 <= x < final(job_limits).len() ==> (#[trigger] final(job_limits)@[x])@
            == spec_raised_job_limit(old(job_limits)@[x]@, job_bases@[x]@),
{
    let ghost persons0 = person_limits@;
    let ghost jobs0 = job_limits@;
    let mut x: usize = 0;
    while x < person_limits.len()
        invariant
            x <= person_limits.len(),
            person_limits.len() == persons0.len(),
            forall|j: int| 0 <= j < persons0.len() ==> (#[trigger] persons0[j])@.len() >= 11,
            forall|j: int| 0 <= j < x ==> (#[trigger] person_limits@[j])@ == spec_cleared_person_limit(persons0[j]@),
            forall|j: int| x <= j < persons0.len() ==> #[trigger] person_limits@[j] == persons0[j],
        decreases persons0.len() - x,
    {
        let cleared = cleared_person_limit(&person_limits[x]);
        person_limits.set(x, cleared);
        x = x + 1;
    }
    let mut x: usize = 0;
    while x < job_limits.len()
        invariant
            x <= job_limits.len(),
            job_limits.len() == jobs0.len(),
            jobs0.len() == job_bases.len(),
            forall|j: int| 0 <= j < jobs0.len() ==> spec_raisable((#[trigger] jobs0[j])@, job_bases@[j]@),
            forall|j: int| 0 <= j < x ==> (#[trigger] job_limits@[j])@ == spec_raised_job_limit(jobs0[j]@, job_bases@[j]@),
            forall|j: int| x <= j < jobs0.len() ==> #[trigger] job_limits@[j] == jobs0[j],
        decreases jobs0.len() - x,
    {
        let raised = raised_job_limit(&job_limits[x], &job_bases[x]);
        job_limits.set(x, raised);
        x = x + 1;
    }
}

/// Setting the caps twice is setting them once: a cleared personal table
/// stays as it is when cleared again, and a raised class table, raised again
/// from the same base table, stays as it is too.
pub proof fn lemma_set_caps_idempotent(person: Seq<u8>, limit: Seq<u8>, base: Seq<u8>)
    requires
        person.len() >= 11,
        spec_raisable(limit, base),
    ensures
        spec_cleared_person_limit(spec_cleared_person_limit(person)) == spec_cleared_person_limit(person),
        spec_raisable(spec_raised_job_limit(limit, base), base),
        spec_raised_job_limit(spec_raised_job_limit(limit, base), base) == spec_raised_job_limit(limit, base),
{
    assert(spec_cleared_person_limit(spec_cleared_person_limit(person)) =~= spec_cleared_person_limit(person));
    assert(spec_raised_job_limit(spec_raised_job_limit(limit, base), base) =~= spec_raised_job_limit(limit, base));
}

/// What a game event is, as far as the stat caps care.
#[derive(Clone, Copy, Debug, PartialEq, Eq)]
pub enum SystemEventKind {
    /// The language was changed, which the game does once its data is loaded.
    LanguageChanged,
    /// Any other system event.
    Other,
}

/// A game event as the event handler receives it.
#[derive(Clone, Copy, Debug, PartialEq, Eq)]
pub enum GameEvent {
    /// An event that carries a system event.
    Args(SystemEventKind),
    /// An event without its system event.
    Missing,
}

/// Whether an event is the one on which the stat caps are set: a language
/// change.
pub fn job_caps_wanted(event: GameEvent) -> (r: bool)
    ensures
        r == (event == GameEvent::Args(SystemEventKind::LanguageChanged)),
{
    match event {
        GameEvent::Args(SystemEventKind::LanguageChanged) => true,
        _ => false,
    }
}

/// Code offsets of the instructions that bound a buff to the range -10..10;
/// each is followed by the instruction of the upper bound.
pub open spec fn spec_buff_pos() -> Seq<usize> {
    seq![
        0x01a1c92c, 0x01a1c95c, 0x01a1c990, 0x01a1c9c4,
        0x01a1c9f8, 0x01a1ca30, 0x01a1ca68, 0x01a1ca9c,
        0x01a1cad0, 0x01a1cb08, 0x01a1cb40, 0x01a1d7d0,
        0x01a1d800, 0x01a1d834, 0x01a1d868, 0x01a1d89c,
        0x01a1d8d4, 0x01a1d90c, 0x01a1d940, 0x01a1d974,
        0x01a1d9ac, 0x01a1d9e4, 0x01f76408, 0x01f76438,
        0x01f7646c, 0x01f764a0, 0x01f764d4, 0x01f7650c,
        0x01f76544, 0x01f76578, 0x01f765ac, 0x01f765e4,
        0x01f7661c, 0x01f77b24, 0x01f77b54, 0x01f77b88,
        0x01f77bbc, 0x01f77bf0, 0x01f77c28, 0x01f77c60,
        0x01f77c94, 0x01f77cc8, 0x01f77d00, 0x01f77d38,
    ]
}

/// The number of buff bounds.
pub const BUFF_POS_COUNT: usize = 44;

/// The code offsets of the buff bounds, in order.
pub fn buff_pos() -> (v: Vec<usize>)
    ensures
        v@ == spec_buff_pos(),
{
    let v: Vec<usize> = vec![
        0x01a1c92c, 0x01a1c95c, 0x01a1c990, 0x01a1c9c4,
        0x01a1c9f8, 0x01a1ca30, 0x01a1ca68, 0x01a1ca9c,
        0x01a1cad0, 0x01a1cb08, 0x01a1cb40, 0x01a1d7d0,
        0x01a1d800, 0x01a1d834, 0x01a1d868, 0x01a1d89c,
        0x01a1d8d4, 0x01a1d90c, 0x01a1d940, 0x01a1d974,
        0x01a1d9ac, 0x01a1d9e4, 0x01f76408, 0x01f76438,
        0x01f7646c, 0x01f764a0, 0x01f764d4, 0x01f7650c,
        0x01f76544, 0x01f76578, 0x01f765ac, 0x01f765e4,
        0x01f7661c, 0x01f77b24, 0x01f77b54, 0x01f77b88,
        0x01f77bbc, 0x01f77bf0, 0x01f77c28, 0x01f77c60,
        0x01f77c94, 0x01f77cc8, 0x01f77d00, 0x01f77d38,
    ];
    assert(v@ =~= spec_buff_pos());
    v
}

/// The instruction that sets the lower buff bound to -99.
pub open spec fn spec_negative99(offset: usize) -> TextPatch {
    spec_word_patch(offset, 0x61, 0x0C, 0x80, 0x12)
}

/// The instruction that sets the upper buff bound to 99.
pub open spec fn spec_positive99(offset: usize) -> TextPatch {
    spec_word_patch(offset, 0xE2, 0x7C, 0x80, 0x52)
}

/// The patches that the stat cap plugin makes when it loads: two
/// instructions of the stat limit check, then for each buff bound the
/// lower bound set to -99 and the upper bound, four bytes on, set to 99.
pub open spec fn spec_stat_cap_patches() -> Seq<TextPatch> {
    seq![
        spec_word_patch(0x01a2a7c0, 0xe1, 0x0e, 0x80, 0x12),
        spec_word_patch(0x01a2a7c4, 0x02, 0x0f, 0x80, 0x52),
    ] + Seq::new(88, |i: int| if i % 2 == 0 {
        spec_negative99(spec_buff_pos()[i / 2])
    } else {
        spec_positive99((spec_buff_pos()[i / 2] + 4) as usize)
    })
}

/// The patches that the stat cap plugin makes when it loads, in order.
pub fn stat_cap_patches() -> (v: Vec<TextPatch>)
    ensures
        v@ == spec_stat_cap_patches(),
{
    let mut v: Vec<TextPatch> = Vec::new();
    v.push(word_patch(0x01a2a7c0, 0xe1, 0x0e, 0x80, 0x12));
    v.push(word_patch(0x01a2a7c4, 0x02, 0x0f, 0x80, 0x52));
    let pos = buff_pos();
    assert(forall|k: int| 0 <= k < 44 ==> #[trigger] spec_buff_pos()[k] < 0x0200_0000);
    let mut k: usize = 0;
    while k < pos.len()
        invariant
            k <= pos.len(),
            pos@ == spec_buff_pos(),
            forall|j: int| 0 <= j < 44 ==> #[trigger] spec_buff_pos()[j] < 0x0200_0000,
            v@ =~= spec_stat_cap_patches().take(2 + 2 * k),
        decreases pos.len() - k,
    {
        let x = pos[k];
        v.push(word_patch(x, 0x61, 0x0C, 0x80, 0x12));
        v.push(word_patch(x + 4, 0xE2, 0x7C, 0x80, 0x52));
        assert(v@ =~= spec_stat_cap_patches().take(2 + 2 * (k + 1)));
        k = k + 1;
    }
    assert(v@ =~= spec_stat_cap_patches());
    v
}

/// Clearing a personal limit table sets each of its first eleven entries to
/// 0, whatever it held, keeps every later entry, and keeps its length.
pub proof fn lemma_person_limit_cleared(s: Seq<u8>)
    requires
        s.len() >= 11,
    ensures
        spec_cleared_person_limit(s).len() == s.len(),
        forall|i: int| 0 <= i < 11 ==> #[trigger] spec_cleared_person_limit(s)[i] == 0,
        forall|i: int| 11 <= i < s.len() ==> #[trigger] spec_cleared_person_limit(s)[i] == s[i],
{
}

/// Raising a class limit table sets each of its first ten entries to 127
/// above the class base, the move limit (entry 10) to 99, keeps every later
/// entry, and keeps its length.
pub proof fn lemma_job_limit_raised(limit: Seq<u8>, base: Seq<u8>)
    requires
        spec_raisable(limit, base),
    ensures
        spec_raised_job_limit(limit, base).len() == limit.len(),
        forall|i: int| 0 <= i < 10 ==> #[trigger] spec_raised_job_limit(limit, base)[i] == base[i] + 127,
        spec_raised_job_limit(limit, base)[10] == 99,
        forall|i: int| 11 <= i < limit.len() ==> #[trigger] spec_raised_job_limit(limit, base)[i] == limit[i],
{
    assert forall|i: int| 0 <= i < 10 implies #[trigger] spec_raised_job_limit(limit, base)[i] == base[i] + 127 by {
        assert(base[i] <= 128);
    }
}

/// The buff bound table, entry by entry: 44 code offsets.
pub proof fn lemma_buff_pos_table()
    ensures
        spec_buff_pos().len() == 44,
        spec_buff_pos()[0] == 0x01a1c92c,
        spec_buff_pos()[1] == 0x01a1c95c,
        spec_buff_pos()[2] == 0x01a1c990,
        spec_buff_pos()[3] == 0x01a1c9c4,
        spec_buff_pos()[4] == 0x01a1c9f8,
        spec_buff_pos()[5] == 0x01a1ca30,
        spec_buff_pos()[6] == 0x01a1ca68,
        spec_buff_pos()[7] == 0x01a1ca9c,
        spec_buff_pos()[8] == 0x01a1cad0,
        spec_buff_pos()[9] == 0x01a1cb08,
        spec_buff_pos()[10] == 0x01a1cb40,
        spec_buff_pos()[11] == 0x01a1d7d0,
        spec_buff_pos()[12] == 0x01a1d800,
        spec_buff_pos()[13] == 0x01a1d834,
        spec_buff_pos()[14] == 0x01a1d868,
        spec_buff_pos()[15] == 0x01a1d89c,
        spec_buff_pos()[16] == 0x01a1d8d4,
        spec_buff_pos()[17] == 0x01a1d90c,
        spec_buff_pos()[18] == 0x01a1d940,
        spec_buff_pos()[19] == 0x01a1d974,
        spec_buff_pos()[20] == 0x01a1d9ac,
        spec_buff_pos()[21] == 0x01a1d9e4,
        spec_buff_pos()[22] == 0x01f76408,
        spec_buff_pos()[23] == 0x01f76438,
        spec_buff_pos()[24] == 0x01f7646c,
        spec_buff_pos()[25] == 0x01f764a0,
        spec_buff_pos()[26] == 0x01f764d4,
        spec_buff_pos()[27] == 0x01f7650c,
        spec_buff_pos()[28] == 0x01f76544,
        spec_buff_pos()[29] == 0x01f76578,
        spec_buff_pos()[30] == 0x01f765ac,
        spec_buff_pos()[31] == 0x01f765e4,
        spec_buff_pos()[32] == 0x01f7661c,
        spec_buff_pos()[33] == 0x01f77b24,
        spec_buff_pos()[34] == 0x01f77b54,
        spec_buff_pos()[35] == 0x01f77b88,
        spec_buff_pos()[36] == 0x01f77bbc,
        spec_buff_pos()[37] == 0x01f77bf0,
        spec_buff_pos()[38] == 0x01f77c28,
        spec_buff_pos()[39] == 0x01f77c60,
        spec_buff_pos()[40] == 0x01f77c94,
        spec_buff_pos()[41] == 0x01f77cc8,
        spec_buff_pos()[42] == 0x01f77d00,
        spec_buff_pos()[43] == 0x01f77d38,
{
}

/// The load patches: the stat limit check gets 0xe1 0x0e 0x80 0x12 at
/// 0x01a2a7c0 and 0x02 0x0f 0x80 0x52 at 0x01a2a7c4; then, for the `k`-th
/// buff bound, the lower bound at its offset gets 0x61 0x0C 0x80 0x12 (-99)
/// and the upper bound four bytes on gets 0xE2 0x7C 0x80 0x52 (99).
pub proof fn lemma_stat_cap_patch_layout()
    ensures
        spec_stat_cap_patches().len() == 90,
        spec_stat_cap_patches()[0] == (TextPatch { offset: 0x01a2a7c0, write: PatchWrite::Word(0xe1, 0x0e, 0x80, 0x12) }),
        spec_stat_cap_patches()[1] == (TextPatch { offset: 0x01a2a7c4, write: PatchWrite::Word(0x02, 0x0f, 0x80, 0x52) }),
        forall|k: int| 0 <= k < 44 ==> #[trigger] spec_stat_cap_patches()[2 + 2 * k] == (TextPatch {
            offset: spec_buff_pos()[k],
            write: PatchWrite::Word(0x61, 0x0C, 0x80, 0x12),
        }),
        forall|k: int| 0 <= k < 44 ==> #[trigger] spec_stat_cap_patches()[3 + 2 * k] == (TextPatch {
            offset: (spec_buff_pos()[k] + 4) as usize,
            write: PatchWrite::Word(0xE2, 0x7C, 0x80, 0x52),
        }),
{
    assert forall|k: int| 0 <= k < 44 implies #[trigger] spec_stat_cap_patches()[2 + 2 * k] == (TextPatch {
        offset: spec_buff_pos()[k],
        write: PatchWrite::Word(0x61, 0x0C, 0x80, 0x12),
    }) by {
        assert((2 + 2 * k - 2) / 2 == k);
        assert((2 + 2 * k - 2) % 2 == 0);
    }
    assert forall|k: int| 0 <= k < 44 implies #[trigger] spec_stat_cap_patches()[3 + 2 * k] == (TextPatch {
        offset: (spec_buff_pos()[k] + 4) as usize,
        write: PatchWrite::Word(0xE2, 0x7C, 0x80, 0x52),
    }) by {
        assert((3 + 2 * k - 2) / 2 == k);
        assert((3 + 2 * k - 2) % 2 == 1);
    }
}

} // verus!
