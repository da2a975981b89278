//! Achievements: unlocked at splashdown from the results of the flight.
use vstd::prelude::*;

use crate::config::Difficulty;
use crate::text::str_eq;

verus! {

/// One achievement, with its display texts and whether it is unlocked.
#[derive(Clone, Copy, Debug)]
pub struct Achievement {
    pub id: &'static str,
    pub name_ru: &'static str,
    pub name_en: &'static str,
    pub desc_ru: &'static str,
    pub desc_en: &'static str,
    pub unlocked: bool,
}

/// The achievements of the current flight.
pub struct AchievementTracker {
    pub list: Vec<Achievement>,
}

impl Default for AchievementTracker {
    fn default() -> (t: Self)
        ensures
            t.list@.len() == 0,
    {
        AchievementTracker { list: Vec::new() }
    }
}

/// The results of a flight that the achievements are judged on.
#[derive(Clone, Copy, Debug)]
pub struct MissionResults {
    /// TLI accuracy of at least 99 %.
    pub perfect_tli: bool,
    /// Entry angle within 0.1° of 6.25°.
    pub precision_entry: bool,
    /// Perilune of at most 6 600 km.
    pub close_flyby: bool,
    /// Number of mid-course corrections made during the transit.
    pub mcc_corrections: u8,
    /// Heat shield load of at most 60 % at splashdown.
    pub cool_shield: bool,
}

/// `a` is a locked achievement with exactly these texts.
pub open spec fn is_entry(
    a: Achievement,
    id: &str,
    name_ru: &str,
    name_en: &str,
    desc_ru: &str,
    desc_en: &str,
) -> bool {
    &&& a.id@ == id@
    &&& a.name_ru@ == name_ru@
    &&& a.name_en@ == name_en@
    &&& a.desc_ru@ == desc_ru@
    &&& a.desc_en@ == desc_en@
    &&& !a.unlocked
}

/// `s` is the fresh list of achievements of a new flight, in display order.
pub open spec fn is_default_list(s: Seq<Achievement>) -> bool {
    &&& s.len() == 6
    &&& is_entry(
        s[0],
        "perfect_tli",
        "Идеальный burn",
        "Perfect Burn",
        "Точность TLI ≥ 99%",
        "TLI accuracy ≥ 99%",
    )
    &&& is_entry(
        s[1],
        "precision_entry",
        "Снайпер входа",
        "Precision Entry",
        "Угол входа ±0.1° от 6.25°",
        "Entry angle within ±0.1° of 6.25°",
    )
    &&& is_entry(
        s[2],
        "close_flyby",
        "Близкий облёт",
        "Close Flyby",
        "Перицентр ≤ 6 600 км",
        "Perilune ≤ 6,600 km",
    )
    &&& is_entry(
        s[3],
        "no_mcc",
        "Без коррекций",
        "No Corrections",
        "Перелёт без коррекции курса",
        "Transit without MCC burns",
    )
    &&& is_entry(
        s[4],
        "cool_shield",
        "Холодный щит",
        "Cool Shield",
        "Тепловой щит ≤ 60% при посадке",
        "Heat shield ≤ 60% at splashdown",
    )
    &&& is_entry(
        s[5],
        "master_pilot",
        "Мастер-пилот",
        "Master Pilot",
        "Все 5 достижений на Realistic",
        "All 5 achievements on Realistic",
    )
}

fn entry(
    id: &'static str,
    name_ru: &'static str,
    name_en: &'static str,
    desc_ru: &'static str,
    desc_en: &'static str,
) -> (a: Achievement)
    ensures
        is_entry(a, id, name_ru, name_en, desc_ru, desc_en),
{
    Achievement { id, name_ru, name_en, desc_ru, desc_en, unlocked: false }
}

/// The fresh list of achievements, all locked.
pub fn default_achievements() -> (r: Vec<Achievement>)
    ensures
        is_default_list(r@),
{
    let mut v: Vec<Achievement> = Vec::new();
    v.push(
        entry(
            "perfect_tli",
            "Идеальный burn",
            "Perfect Burn",
            "Точность TLI ≥ 99%",
            "TLI accuracy ≥ 99%",
        ),
    );
    v.push(
        entry(
            "precision_entry",
            "Снайпер входа",
            "Precision Entry",
            "Угол входа ±0.1° от 6.25°",
            "Entry angle within ±0.1° of 6.25°",
        ),
    );
    v.push(
        entry(
            "close_flyby",
            "Близкий облёт",
            "Close Flyby",
            "Перицентр ≤ 6 600 км",
            "Perilune ≤ 6,600 km",
        ),
    );
    v.push(
        entry(
            "no_mcc",
            "Без коррекций",
            "No Corrections",
            "Перелёт без коррекции курса",
            "Transit without MCC burns",
        ),
    );
    v.push(
        entry(
            "cool_shield",
            "Холодный щит",
            "Cool Shield",
            "Тепловой щит ≤ 60% при посадке",
            "Heat shield ≤ 60% at splashdown",
        ),
    );
    v.push(
        entry(
            "master_pilot",
            "Мастер-пилот",
            "Master Pilot",
            "Все 5 достижений на Realistic",
            "All 5 achievements on Realistic",
        ),
    );
    v
}

/// The ids of the achievements in `list`, in order.
pub open spec fn ids(list: Seq<Achievement>) -> Seq<Seq<char>> {
    list.map_values(|a: Achievement| a.id@)
}

/// Position `k` holds the first achievement with id `id`.
pub open spec fn is_first(ids: Seq<Seq<char>>, k: int, id: Seq<char>) -> bool {
    &&& 0 <= k < ids.len()
    &&& ids[k] == id
    &&& forall|j: int| 0 <= j < k ==> ids[j] != id
}

/// `a` with its unlocked flag set to `unlocked`, every other field kept.
pub open spec fn with_unlocked(a: Achievement, unlocked: bool) -> Achievement {
    Achievement { unlocked, ..a }
}

/// Whether a result of the flight unlocks position `k`: each condition
/// unlocks the first achievement that carries its id.
pub open spec fn earned_by_results(ids: Seq<Seq<char>>, k: int, r: MissionResults) -> bool {
    ||| r.perfect_tli && is_first(ids, k, "perfect_tli"@)
    ||| r.precision_entry && is_first(ids, k, "precision_entry"@)
    ||| r.close_flyby && is_first(ids, k, "close_flyby"@)
    ||| r.mcc_corrections == 0 && is_first(ids, k, "no_mcc"@)
    ||| r.cool_shield && is_first(ids, k, "cool_shield"@)
}

/// Whether position `k` is unlocked once the results are applied, before the
/// master achievement is judged.
pub open spec fn unlocked_by_results(list: Seq<Achievement>, k: int, r: MissionResults) -> bool {
    list[k].unlocked || earned_by_results(ids(list), k, r)
}

/// Every achievement other than the master one is unlocked once the results
/// are applied.
pub open spec fn others_all_unlocked(list: Seq<Achievement>, r: MissionResults) -> bool {
    forall|k: int|
        0 <= k < list.len() && list[k].id@ != "master_pilot"@ ==> unlocked_by_results(list, k, r)
}

/// Whether position `k` is unlocked after the flight is judged: by its own
/// result, or, for the master achievement, because all others are unlocked
/// and the flight was flown on Realistic.
pub open spec fn unlocked_after_check(
    list: Seq<Achievement>,
    k: int,
    r: MissionResults,
    d: Difficulty,
) -> bool {
    ||| unlocked_by_results(list, k, r)
    ||| is_first(ids(list), k, "master_pilot"@) && others_all_unlocked(list, r) && d is Realistic
}

/// Unlocks the first achievement with id `id` when `cond` holds.
fn unlock_first(list: &mut Vec<Achievement>, id: &str, cond: bool)
    ensures
        final(list)@.len() == old(list)@.len(),
        forall|k: int|
            0 <= k < old(list)@.len() ==> final(list)@[k] == with_unlocked(
                old(list)@[k],
                old(list)@[k].unlocked || (cond && is_first(ids(old(list)@), k, id@)),
            ),
{
    let ghost ids0 = ids(list@);
    if !cond {
        assert forall|k: int| 0 <= k < list@.len() implies list@[k] == with_unlocked(
            list@[k],
            list@[k].unlocked,
        ) by {}
        return;
    }
    let n = list.len();
    let mut i: usize = 0;
    while i < n
        invariant
            n == list@.len(),
            list@ == old(list)@,
            ids0 == ids(old(list)@),
            cond,
            i <= n,
            forall|j: int| 0 <= j < i ==> ids0[j] != id@,
        decreases n - i,
    {
        if str_eq(list[i].id, id) {
            let mut a = list[i];
            a.unlocked = true;
            assert(ids0[i as int] == id@);
            assert(is_first(ids0, i as int, id@));
            assert(a == with_unlocked(old(list)@[i as int], true));
            list.set(i, a);
            assert forall|k: int| 0 <= k < old(list)@.len() implies list@[k] == with_unlocked(
                old(list)@[k],
                old(list)@[k].unlocked || (cond && is_first(ids0, k, id@)),
            ) by {
                if k == i {
                } else {
                    assert(!is_first(ids0, k, id@)) by {
                        if k > i {
                            assert(ids0[i as int] == id@);
                        }
                    }
                    assert(list@[k] == old(list)@[k]);
                    assert(with_unlocked(old(list)@[k], old(list)@[k].unlocked) == old(list)@[k]);
                }
            }
            return;
        }
        i = i + 1;
    }
    assert forall|k: int| 0 <= k < old(list)@.len() implies list@[k] == with_unlocked(
        old(list)@[k],
        old(list)@[k].unlocked || (cond && is_first(ids0, k, id@)),
    ) by {
        assert(ids0[k] != id@);
    }
}

/// Whether every achievement whose id is not `id` is unlocked.
fn all_unlocked_except(list: &Vec<Achievement>, id: &str) -> (r: bool)
    ensures
        r == forall|k: int| 0 <= k < list@.len() && list@[k].id@ != id@ ==> list@[k].unlocked,
{
    let n = list.len();
    let mut i: usize = 0;
    while i < n
        invariant
            n == list@.len(),
            i <= n,
            forall|k: int| 0 <= k < i && list@[k].id@ != id@ ==> list@[k].unlocked,
        decreases n - i,
    {
        if !str_eq(list[i].id, id) && !list[i].unlocked {
            return false;
        }
        i = i + 1;
    }
    true
}

impl AchievementTracker {
    /// Starts a new flight: every achievement back, locked.
    pub fn reset(&mut self)
        ensures
            is_default_list(final(self).list@),
    {
        self.list = default_achievements();
    }

    /// Judges a finished flight: unlocks each achievement whose condition the
    /// results meet, then the master achievement when all others are unlocked
    /// and the flight was flown on Realistic. Nothing is ever locked again.
    pub fn check(&mut self, results: &MissionResults, difficulty: Difficulty)
        ensures
            final(self).list@.len() == old(self).list@.len(),
            forall|k: int|
                0 <= k < old(self).list@.len() ==> final(self).list@[k] == with_unlocked(
                    old(self).list@[k],
                    unlocked_after_check(old(self).list@, k, *results, difficulty),
                ),
    {
        let ghost l0 = self.list@;
        let ghost ids0 = ids(l0);
        unlock_first(&mut self.list, "perfect_tli", results.perfect_tli);
        assert(ids(self.list@) =~= ids0);
        unlock_first(&mut self.list, "precision_entry", results.precision_entry);
        assert(ids(self.list@) =~= ids0);
        unlock_first(&mut self.list, "close_flyby", results.close_flyby);
        assert(ids(self.list@) =~= ids0);
        unlock_first(&mut self.list, "no_mcc", results.mcc_corrections == 0);
        assert(ids(self.list@) =~= ids0);
        unlock_first(&mut self.list, "cool_shield", results.cool_shield);
        assert(ids(self.list@) =~= ids0);
        let ghost l1 = self.list@;
        assert forall|k: int| 0 <= k < l0.len() implies l1[k] == with_unlocked(
            l0[k],
            unlocked_by_results(l0, k, *results),
        ) by {}
        let first_five = all_unlocked_except(&self.list, "master_pilot");
        assert(first_five == others_all_unlocked(l0, *results)) by {
            assert forall|k: int| 0 <= k < l0.len() implies (l1[k].id@ == l0[k].id@) by {}
        }
        let realistic = match difficulty {
            Difficulty::Realistic => true,
            Difficulty::Story => false,
        };
        unlock_first(&mut self.list, "master_pilot", first_five && realistic);
        assert(ids(l1) =~= ids0);
    }

    /// How many achievements are unlocked.
    pub fn unlocked_count(&self) -> (n: usize)
        ensures
            n == count_unlocked(self.list@),
    {
        let len = self.list.len();
        let mut n: usize = 0;
        let mut i: usize = 0;
        while i < len
            invariant
                len == self.list@.len(),
                i <= len,
                n == count_unlocked(self.list@.take(i as int)),
                n <= i,
            decreases len - i,
        {
            assert(self.list@.take(i + 1).drop_last() =~= self.list@.take(i as int));
            if self.list[i].unlocked {
                n = n + 1;
            }
            i = i + 1;
        }
        assert(self.list@.take(len as int) =~= self.list@);
        n
    }
}

/// The number of unlocked achievements in `s`.
pub open spec fn count_unlocked(s: Seq<Achievement>) -> nat
    decreases s.len(),
{
    if s.len() == 0 {
        0
    } else {
        count_unlocked(s.drop_last()) + if s.last().unlocked {
            1nat
        } else {
            0nat
        }
    }
}

/// Law: at most every achievement is unlocked.
pub proof fn lemma_count_at_most_len(s: Seq<Achievement>)
    ensures
        count_unlocked(s) <= s.len(),
    decreases s.len(),
{
    if s.len() > 0 {
        lemma_count_at_most_len(s.drop_last());
    }
}

/// Law: judging a flight never locks an achievement again.
pub proof fn lemma_unlocks_are_permanent(
    list: Seq<Achievement>,
    k: int,
    r: MissionResults,
    d: Difficulty,
)
    requires
        0 <= k < list.len(),
        list[k].unlocked,
    ensures
        unlocked_after_check(list, k, r, d),
{
}

/// The six achievement ids are pairwise different.
proof fn lemma_ids_distinct()
    ensures
        "perfect_tli"@ != "precision_entry"@,
        "perfect_tli"@ != "close_flyby"@,
        "perfect_tli"@ != "no_mcc"@,
        "perfect_tli"@ != "cool_shield"@,
        "perfect_tli"@ != "master_pilot"@,
        "precision_entry"@ != "close_flyby"@,
        "precision_entry"@ != "no_mcc"@,
        "precision_entry"@ != "cool_shield"@,
        "precision_entry"@ != "master_pilot"@,
        "close_flyby"@ != "no_mcc"@,
        "close_flyby"@ != "cool_shield"@,
        "close_flyby"@ != "master_pilot"@,
        "no_mcc"@ != "cool_shield"@,
        "no_mcc"@ != "master_pilot"@,
        "cool_shield"@ != "master_pilot"@,
{
    reveal_strlit("perfect_tli");
    reveal_strlit("precision_entry");
    reveal_strlit("close_flyby");
    reveal_strlit("no_mcc");
    reveal_strlit("cool_shield");
    reveal_strlit("master_pilot");
    assert("perfect_tli"@.len() == 11);
    assert("precision_entry"@.len() == 15);
    assert("close_flyby"@.len() == 11);
    assert("no_mcc"@.len() == 6);
    assert("cool_shield"@.len() == 11);
    assert("master_pilot"@.len() == 12);
    assert("perfect_tli"@[0] != "close_flyby"@[0]);
    assert("perfect_tli"@[0] != "cool_shield"@[0]);
    assert("close_flyby"@[1] != "cool_shield"@[1]);
}

/// Law: a locked master achievement is unlocked only on Realistic, and only
/// when every other achievement is unlocked.
pub proof fn lemma_master_needs_realistic(
    list: Seq<Achievement>,
    k: int,
    r: MissionResults,
    d: Difficulty,
)
    requires
        0 <= k < list.len(),
        list[k].id@ == "master_pilot"@,
        !list[k].unlocked,
        unlocked_after_check(list, k, r, d),
    ensures
        d is Realistic,
        others_all_unlocked(list, r),
{
    lemma_ids_distinct();
    assert(ids(list)[k] == "master_pilot"@);
    assert(!earned_by_results(ids(list), k, r));
}

/// Law: on the fresh list of a new flight, each of the first five
/// achievements is unlocked exactly when its condition is met, and the master
/// achievement exactly when all five are met on Realistic.
pub proof fn lemma_fresh_flight(list: Seq<Achievement>, r: MissionResults, d: Difficulty)
    requires
        is_default_list(list),
    ensures
        unlocked_after_check(list, 0, r, d) == r.perfect_tli,
        unlocked_after_check(list, 1, r, d) == r.precision_entry,
        unlocked_after_check(list, 2, r, d) == r.close_flyby,
        unlocked_after_check(list, 3, r, d) == (r.mcc_corrections == 0),
        unlocked_after_check(list, 4, r, d) == r.cool_shield,
        unlocked_after_check(list, 5, r, d) == (d is Realistic && r.perfect_tli
            && r.precision_entry && r.close_flyby && r.mcc_corrections == 0 && r.cool_shield),
{
    lemma_ids_distinct();
    let ids = ids(list);
    assert(ids[0] == "perfect_tli"@);
    assert(ids[1] == "precision_entry"@);
    assert(ids[2] == "close_flyby"@);
    assert(ids[3] == "no_mcc"@);
    assert(ids[4] == "cool_shield"@);
    assert(ids[5] == "master_pilot"@);
    assert(is_first(ids, 0, "perfect_tli"@));
    assert(is_first(ids, 1, "precision_entry"@));
    assert(is_first(ids, 2, "close_flyby"@));
    assert(is_first(ids, 3, "no_mcc"@));
    assert(is_first(ids, 4, "cool_shield"@));
    assert(is_first(ids, 5, "master_pilot"@));
    if others_all_unlocked(list, r) {
        assert(unlocked_by_results(list, 0, r));
        assert(unlocked_by_results(list, 1, r));
        assert(unlocked_by_results(list, 2, r));
        assert(unlocked_by_results(list, 3, r));
        assert(unlocked_by_results(list, 4, r));
    }
}

} // verus!
