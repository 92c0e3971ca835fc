//! The turns that are left for skills: cooldowns and trigger timers.
//!
//! A table holds one entry for each skill that has turns left. An entry
//! loses one turn at each turn boundary and is removed when none is left.

use crate::ids::SkillId;
use crate::search::{first_index, lemma_first_index};
use crate::types::values::SkillTimer;
use vstd::prelude::*;

verus! {

/// The turns that are left for `skill`: those of its first entry, none
/// without an entry.
pub open spec fn turns_left(timers: Seq<SkillTimer>, skill: SkillId) -> int {
    let at = first_index(timers, |t: SkillTimer| t.skill == skill);
    if at < timers.len() {
        timers[at].turns as int
    } else {
        0
    }
}

/// The table without the entries of `skill`.
pub open spec fn without(timers: Seq<SkillTimer>, skill: SkillId) -> Seq<SkillTimer>
    decreases timers.len(),
{
    if timers.len() == 0 {
        Seq::empty()
    } else if timers.last().skill == skill {
        without(timers.drop_last(), skill)
    } else {
        without(timers.drop_last(), skill).push(timers.last())
    }
}

/// The table after `skill` was given `turns` turns: its former entries are
/// gone, and where `turns` is positive a new entry stands at the end.
pub open spec fn started(timers: Seq<SkillTimer>, skill: SkillId, turns: i32) -> Seq<SkillTimer> {
    if turns > 0 {
        without(timers, skill).push(SkillTimer { skill, turns })
    } else {
        without(timers, skill)
    }
}

/// The table after `n` turn boundaries at once: every entry with more than
/// `n` turns left stays, with `n` turns fewer, in the same order.
pub open spec fn aged_timers(timers: Seq<SkillTimer>, n: nat) -> Seq<SkillTimer>
    decreases timers.len(),
{
    if timers.len() == 0 {
        Seq::empty()
    } else {
        let rest = aged_timers(timers.drop_last(), n);
        if timers.last().turns > n {
            rest.push(
                SkillTimer { skill: timers.last().skill, turns: (timers.last().turns - n) as i32 },
            )
        } else {
            rest
        }
    }
}

/// The table after one turn boundary.
pub open spec fn ticked_timers(timers: Seq<SkillTimer>) -> Seq<SkillTimer> {
    aged_timers(timers, 1)
}

/// Whether the table holds an entry of `skill`.
pub open spec fn holds(timers: Seq<SkillTimer>, skill: SkillId) -> bool
    decreases timers.len(),
{
    if timers.len() == 0 {
        false
    } else {
        timers.last().skill == skill || holds(timers.drop_last(), skill)
    }
}

/// Whether the table is in order: every entry has turns left, and no skill
/// has two entries.
pub open spec fn in_order(timers: Seq<SkillTimer>) -> bool
    decreases timers.len(),
{
    if timers.len() == 0 {
        true
    } else {
        &&& in_order(timers.drop_last())
        &&& timers.last().turns > 0
        &&& !holds(timers.drop_last(), timers.last().skill)
    }
}

/// The turns that are left for `skill`.
pub fn remaining_turns(timers: &Vec<SkillTimer>, skill: &SkillId) -> (r: i32)
    ensures
        r == turns_left(timers@, *skill),
{
    let mut i: usize = 0;
    while i < timers.len()
        invariant
            i <= timers.len(),
            forall|j: int| 0 <= j < i ==> timers[j].skill != *skill,
        decreases timers.len() - i,
    {
        if timers[i].skill.same_as(skill) {
            proof {
                lemma_first_index(timers@, |t: SkillTimer| t.skill == *skill, i as int);
            }
            return timers[i].turns;
        }
        i = i + 1;
    }
    proof {
        lemma_first_index(timers@, |t: SkillTimer| t.skill == *skill, i as int);
    }
    0
}

/// Gives `skill` `turns` turns, in place of what it had.
pub fn start_timer(timers: &mut Vec<SkillTimer>, skill: SkillId, turns: i32)
    ensures
        final(timers)@ == started(old(timers)@, skill, turns),
        in_order(old(timers)@) ==> in_order(final(timers)@),
{
    proof {
        if in_order(timers@) {
            lemma_started_stays_in_order(timers@, skill, turns);
        }
    }
    let ghost before = timers@;
    let ghost mut seen: int = 0;
    let mut i: usize = 0;
    proof {
        assert(before.take(0) =~= Seq::empty());
        assert(timers@.take(0) =~= Seq::empty());
        assert(timers@.skip(0) =~= before.skip(0));
    }
    while i < timers.len()
        invariant
            0 <= seen <= before.len(),
            i <= timers.len(),
            timers.len() - i == before.len() - seen,
            timers@.take(i as int) == without(before.take(seen), skill),
            timers@.skip(i as int) == before.skip(seen),
        decreases timers.len() - i,
    {
        let ghost current = timers@;
        proof {
            assert(current[i as int] == current.skip(i as int)[0]);
            assert(before[seen] == before.skip(seen)[0]);
            assert(before.take(seen + 1).drop_last() =~= before.take(seen));
            assert(before.take(seen + 1).last() == before[seen]);
            assert(before.skip(seen + 1) =~= before.skip(seen).skip(1));
        }
        if timers[i].skill.same_as(&skill) {
            timers.remove(i);
            proof {
                assert(timers@.take(i as int) =~= current.take(i as int));
                assert(timers@.skip(i as int) =~= current.skip(i as int).skip(1));
            }
        } else {
            proof {
                assert(current.take(i + 1) =~= current.take(i as int).push(before[seen]));
                assert(current.skip(i + 1) =~= current.skip(i as int).skip(1));
            }
            i = i + 1;
        }
        proof {
            seen = seen + 1;
        }
    }
    proof {
        assert(timers@.take(i as int) =~= timers@);
        assert(before.take(seen) =~= before);
    }
    if turns > 0 {
        timers.push(SkillTimer { skill, turns });
    }
}

/// Passes one turn boundary: every entry loses one turn, and those with
/// none left are removed.
pub fn tick_timers(timers: &mut Vec<SkillTimer>)
    ensures
        final(timers)@ == ticked_timers(old(timers)@),
        in_order(old(timers)@) ==> in_order(final(timers)@),
{
    proof {
        if in_order(timers@) {
            lemma_aged_stays_in_order(timers@, 1);
        }
    }
    let ghost before = timers@;
    let ghost mut seen: int = 0;
    let mut i: usize = 0;
    proof {
        assert(before.take(0) =~= Seq::empty());
        assert(timers@.take(0) =~= Seq::empty());
        assert(timers@.skip(0) =~= before.skip(0));
    }
    while i < timers.len()
        invariant
            0 <= seen <= before.len(),
            i <= timers.len(),
            timers.len() - i == before.len() - seen,
            timers@.take(i as int) == ticked_timers(before.take(seen)),
            timers@.skip(i as int) == before.skip(seen),
        decreases timers.len() - i,
    {
        let ghost current = timers@;
        proof {
            assert(current[i as int] == current.skip(i as int)[0]);
            assert(before[seen] == before.skip(seen)[0]);
            assert(before.take(seen + 1).drop_last() =~= before.take(seen));
            assert(before.take(seen + 1).last() == before[seen]);
            assert(before.skip(seen + 1) =~= before.skip(seen).skip(1));
        }
        if timers[i].turns > 1 {
            let entry = SkillTimer { skill: timers[i].skill, turns: timers[i].turns - 1 };
            timers.set(i, entry);
            proof {
                assert(timers@.take(i + 1) =~= current.take(i as int).push(entry));
                assert(timers@.skip(i + 1) =~= current.skip(i as int).skip(1));
            }
            i = i + 1;
        } else {
            timers.remove(i);
            proof {
                assert(timers@.take(i as int) =~= current.take(i as int));
                assert(timers@.skip(i as int) =~= current.skip(i as int).skip(1));
            }
        }
        proof {
            seen = seen + 1;
        }
    }
    proof {
        assert(timers@.take(i as int) =~= timers@);
        assert(before.take(seen) =~= before);
    }
}

/// The table without the entries of `skill` holds no entry of `skill`.
pub proof fn lemma_without_has_none(timers: Seq<SkillTimer>, skill: SkillId)
    ensures
        forall|i: int|
            0 <= i < without(timers, skill).len() ==> (#[trigger] without(timers, skill)[i]).skill
                != skill,
    decreases timers.len(),
{
    if timers.len() > 0 {
        let rest = without(timers.drop_last(), skill);
        lemma_without_has_none(timers.drop_last(), skill);
        assert forall|i: int| 0 <= i < without(timers, skill).len() implies (#[trigger] without(
            timers,
            skill,
        )[i]).skill != skill by {
            if i < rest.len() {
                assert(without(timers, skill)[i] == rest[i]);
            }
        }
    }
}

/// Turn boundaries bring no skill into a table that did not hold it.
pub proof fn lemma_aged_has_none(timers: Seq<SkillTimer>, skill: SkillId, n: nat)
    requires
        forall|i: int| 0 <= i < timers.len() ==> (#[trigger] timers[i]).skill != skill,
    ensures
        forall|i: int|
            0 <= i < aged_timers(timers, n).len() ==> (#[trigger] aged_timers(timers, n)[i]).skill
                != skill,
    decreases timers.len(),
{
    if timers.len() > 0 {
        let rest = aged_timers(timers.drop_last(), n);
        assert forall|i: int| 0 <= i < timers.drop_last().len() implies (
        #[trigger] timers.drop_last()[i]).skill != skill by {
            assert(timers.drop_last()[i] == timers[i]);
        }
        lemma_aged_has_none(timers.drop_last(), skill, n);
        assert(timers.last() == timers[timers.len() - 1]);
        assert forall|i: int| 0 <= i < aged_timers(timers, n).len() implies (
        #[trigger] aged_timers(timers, n)[i]).skill != skill by {
            if i < rest.len() {
                assert(aged_timers(timers, n)[i] == rest[i]);
            }
        }
    }
}

/// A skill that was given `turns` turns has `turns - n` of them left after
/// `n` turn boundaries, as long as that is positive, and none from then
/// on: a cooldown of `turns` blocks the skill at the `turns - 1` boundaries
/// that follow and no longer at the next.
pub proof fn lemma_timer_runs_down(timers: Seq<SkillTimer>, skill: SkillId, turns: i32, n: nat)
    ensures
        turns > n ==> turns_left(aged_timers(started(timers, skill, turns), n), skill) == turns
            - n,
        turns <= n ==> turns_left(aged_timers(started(timers, skill, turns), n), skill) == 0,
{
    let rest = without(timers, skill);
    let wanted = |t: SkillTimer| t.skill == skill;
    lemma_without_has_none(timers, skill);
    lemma_aged_has_none(rest, skill, n);
    let kept = aged_timers(rest, n);
    if turns > 0 {
        let entry = SkillTimer { skill, turns };
        assert(rest.push(entry).drop_last() =~= rest);
        assert(rest.push(entry).last() == entry);
        if turns > n {
            let later = SkillTimer { skill, turns: (turns - n) as i32 };
            assert(aged_timers(rest.push(entry), n) == kept.push(later));
            assert forall|j: int| 0 <= j < kept.len() implies !wanted(
                #[trigger] kept.push(later)[j],
            ) by {
                assert(kept.push(later)[j] == kept[j]);
            }
            lemma_first_index(kept.push(later), wanted, kept.len() as int);
        } else {
            assert(aged_timers(rest.push(entry), n) == kept);
            lemma_first_index(kept, wanted, kept.len() as int);
        }
    } else {
        lemma_first_index(kept, wanted, kept.len() as int);
    }
}

/// Taking a skill out of a table brings no other skill in.
pub proof fn lemma_without_holds_no_more(timers: Seq<SkillTimer>, skill: SkillId, other: SkillId)
    ensures
        holds(without(timers, skill), other) ==> holds(timers, other),
        !holds(without(timers, skill), skill),
    decreases timers.len(),
{
    if timers.len() > 0 {
        lemma_without_holds_no_more(timers.drop_last(), skill, other);
        if timers.last().skill != skill {
            let kept = without(timers.drop_last(), skill).push(timers.last());
            assert(kept.drop_last() =~= without(timers.drop_last(), skill));
            assert(kept.last() == timers.last());
        }
    }
}

/// Turn boundaries bring no skill into a table.
pub proof fn lemma_aged_holds_no_more(timers: Seq<SkillTimer>, n: nat, other: SkillId)
    ensures
        holds(aged_timers(timers, n), other) ==> holds(timers, other),
    decreases timers.len(),
{
    if timers.len() > 0 {
        lemma_aged_holds_no_more(timers.drop_last(), n, other);
        if timers.last().turns > n {
            let later = SkillTimer {
                skill: timers.last().skill,
                turns: (timers.last().turns - n) as i32,
            };
            let kept = aged_timers(timers.drop_last(), n).push(later);
            assert(kept.drop_last() =~= aged_timers(timers.drop_last(), n));
            assert(kept.last() == later);
        }
    }
}

/// A table in order stays in order when a skill is given turns.
pub proof fn lemma_started_stays_in_order(timers: Seq<SkillTimer>, skill: SkillId, turns: i32)
    requires
        in_order(timers),
    ensures
        in_order(started(timers, skill, turns)),
{
    lemma_without_stays_in_order(timers, skill);
    lemma_without_holds_no_more(timers, skill, skill);
    if turns > 0 {
        let entry = SkillTimer { skill, turns };
        let table = without(timers, skill).push(entry);
        assert(table.drop_last() =~= without(timers, skill));
        assert(table.last() == entry);
    }
}

/// A table in order stays in order when a skill is taken out.
pub proof fn lemma_without_stays_in_order(timers: Seq<SkillTimer>, skill: SkillId)
    requires
        in_order(timers),
    ensures
        in_order(without(timers, skill)),
    decreases timers.len(),
{
    if timers.len() > 0 {
        lemma_without_stays_in_order(timers.drop_last(), skill);
        if timers.last().skill != skill {
            let kept = without(timers.drop_last(), skill).push(timers.last());
            assert(kept.drop_last() =~= without(timers.drop_last(), skill));
            assert(kept.last() == timers.last());
            lemma_without_holds_no_more(timers.drop_last(), skill, timers.last().skill);
        }
    }
}

/// A table in order stays in order through turn boundaries.
pub proof fn lemma_aged_stays_in_order(timers: Seq<SkillTimer>, n: nat)
    requires
        in_order(timers),
    ensures
        in_order(aged_timers(timers, n)),
    decreases timers.len(),
{
    if timers.len() > 0 {
        lemma_aged_stays_in_order(timers.drop_last(), n);
        if timers.last().turns > n {
            let later = SkillTimer {
                skill: timers.last().skill,
                turns: (timers.last().turns - n) as i32,
            };
            let kept = aged_timers(timers.drop_last(), n).push(later);
            assert(kept.drop_last() =~= aged_timers(timers.drop_last(), n));
            assert(kept.last() == later);
            lemma_aged_holds_no_more(timers.drop_last(), n, timers.last().skill);
        }
    }
}

} // verus!
