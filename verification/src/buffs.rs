//! The ledger of timed effects: decay at each turn boundary and expiry.
//!
//! A ledger is a sequence of buffs in the order in which they were
//! activated. Buffs are only ever appended; equal kinds do not merge.

use crate::types::values::{Buff, BuffType};
use vstd::prelude::*;

verus! {

/// `buff` with `n` turns fewer left.
pub open spec fn aged_buff(buff: Buff, n: int) -> Buff {
    Buff { remaining_turns: (buff.remaining_turns - n) as i32, ..buff }
}

/// The ledger after `n` turn boundaries at once: every buff with more than
/// `n` turns left stays, with `n` turns fewer, in the same order; the
/// others are gone.
pub open spec fn aged(buffs: Seq<Buff>, n: nat) -> Seq<Buff>
    decreases buffs.len(),
{
    if buffs.len() == 0 {
        Seq::empty()
    } else {
        let rest = aged(buffs.drop_last(), n);
        if buffs.last().remaining_turns > n {
            rest.push(aged_buff(buffs.last(), n as int))
        } else {
            rest
        }
    }
}

/// The ledger after one turn boundary.
pub open spec fn ticked(buffs: Seq<Buff>) -> Seq<Buff> {
    aged(buffs, 1)
}

/// The ledger after `n` turn boundaries, one after the other.
pub open spec fn ticked_times(buffs: Seq<Buff>, n: nat) -> Seq<Buff>
    decreases n,
{
    if n == 0 {
        buffs
    } else {
        ticked(ticked_times(buffs, (n - 1) as nat))
    }
}

/// A buff as a skill's effect creates it: named after its source, with all
/// of its duration left.
pub open spec fn fresh_buff(source: String, buff_type: BuffType, duration: i32) -> Buff {
    Buff { id: source, name: source, buff_type, duration, remaining_turns: duration }
}

/// Passes one turn boundary: every buff loses one turn, and those with none
/// left are removed. The order of the others is kept.
pub fn tick(active_buffs: &mut Vec<Buff>)
    ensures
        final(active_buffs)@ == ticked(old(active_buffs)@),
{
    let ghost before = active_buffs@;
    let ghost mut seen: int = 0;
    let mut i: usize = 0;
    proof {
        assert(before.take(0) =~= Seq::empty());
        assert(active_buffs@.take(0) =~= Seq::empty());
        assert(active_buffs@.skip(0) =~= before.skip(0));
    }
    while i < active_buffs.len()
        invariant
            0 <= seen <= before.len(),
            i <= active_buffs.len(),
            active_buffs.len() - i == before.len() - seen,
            active_buffs@.take(i as int) == ticked(before.take(seen)),
            active_buffs@.skip(i as int) == before.skip(seen),
        decreases active_buffs.len() - i,
    {
        let ghost current = active_buffs@;
        proof {
            assert(current[i as int] == current.skip(i as int)[0]);
            assert(before[seen] == before.skip(seen)[0]);
            assert(before.take(seen + 1).drop_last() =~= before.take(seen));
            assert(before.take(seen + 1).last() == before[seen]);
        }
        if active_buffs[i].remaining_turns > 1 {
            active_buffs[i].remaining_turns = active_buffs[i].remaining_turns - 1;
            proof {
                assert(active_buffs@.take(i + 1) =~= current.take(i as int).push(
                    aged_buff(before[seen], 1),
                ));
                assert(active_buffs@.skip(i + 1) =~= current.skip(i as int).skip(1));
                assert(before.skip(seen + 1) =~= before.skip(seen).skip(1));
            }
            i = i + 1;
        } else {
            active_buffs.remove(i);
            proof {
                assert(active_buffs@.take(i as int) =~= current.take(i as int));
                assert(active_buffs@.skip(i as int) =~= current.skip(i as int).skip(1));
                assert(before.skip(seen + 1) =~= before.skip(seen).skip(1));
            }
        }
        proof {
            seen = seen + 1;
        }
    }
    proof {
        assert(active_buffs@.take(i as int) =~= active_buffs@);
        assert(before.take(seen) =~= before);
    }
}

/// Appends the buff that a skill's effect creates to the ledger.
pub fn add_buff(active_buffs: &mut Vec<Buff>, source: &String, buff_type: BuffType, duration: i32)
    ensures
        final(active_buffs)@ == old(active_buffs)@.push(fresh_buff(*source, buff_type, duration)),
{
    active_buffs.push(
        Buff {
            id: source.clone(),
            name: source.clone(),
            buff_type,
            duration,
            remaining_turns: duration,
        },
    );
}

/// The ledger without the buffs whose identifier reads `id`.
pub open spec fn without_id(buffs: Seq<Buff>, id: Seq<char>) -> Seq<Buff>
    decreases buffs.len(),
{
    if buffs.len() == 0 {
        Seq::empty()
    } else if buffs.last().id@ == id {
        without_id(buffs.drop_last(), id)
    } else {
        without_id(buffs.drop_last(), id).push(buffs.last())
    }
}

/// Puts `buff` in the place of the buffs with its identifier: those are
/// removed, and `buff` is appended. This is how a caller keeps buffs of
/// one source from stacking.
pub fn replace_buff(active_buffs: &mut Vec<Buff>, buff: Buff)
    ensures
        final(active_buffs)@ == without_id(old(active_buffs)@, buff.id@).push(buff),
{
    let ghost before = active_buffs@;
    let ghost mut seen: int = 0;
    let mut i: usize = 0;
    proof {
        assert(before.take(0) =~= Seq::empty());
        assert(active_buffs@.take(0) =~= Seq::empty());
        assert(active_buffs@.skip(0) =~= before.skip(0));
    }
    while i < active_buffs.len()
        invariant
            0 <= seen <= before.len(),
            i <= active_buffs.len(),
            active_buffs.len() - i == before.len() - seen,
            active_buffs@.take(i as int) == without_id(before.take(seen), buff.id@),
            active_buffs@.skip(i as int) == before.skip(seen),
        decreases active_buffs.len() - i,
    {
        let ghost current = active_buffs@;
        proof {
            assert(current[i as int] == current.skip(i as int)[0]);
            assert(before[seen] == before.skip(seen)[0]);
            assert(before.take(seen + 1).drop_last() =~= before.take(seen));
            assert(before.take(seen + 1).last() == before[seen]);
            assert(before.skip(seen + 1) =~= before.skip(seen).skip(1));
        }
        if active_buffs[i].id == buff.id {
            active_buffs.remove(i);
            proof {
                assert(active_buffs@.take(i as int) =~= current.take(i as int));
                assert(active_buffs@.skip(i as int) =~= current.skip(i as int).skip(1));
            }
        } else {
            proof {
                assert(current.take(i + 1) =~= current.take(i as int).push(before[seen]));
                assert(current.skip(i + 1) =~= current.skip(i as int).skip(1));
            }
            i = i + 1;
        }
        proof {
            seen = seen + 1;
        }
    }
    proof {
        assert(active_buffs@.take(i as int) =~= active_buffs@);
        assert(before.take(seen) =~= before);
    }
    active_buffs.push(buff);
}

/// Ageing a ledger that is two ledgers put together ages each of them.
pub proof fn lemma_aged_concat(a: Seq<Buff>, b: Seq<Buff>, n: nat)
    ensures
        aged(a + b, n) == aged(a, n) + aged(b, n),
    decreases b.len(),
{
    if b.len() == 0 {
        assert(a + b =~= a);
        assert(aged(a, n) + aged(b, n) =~= aged(a, n));
    } else {
        assert((a + b).drop_last() =~= a + b.drop_last());
        assert((a + b).last() == b.last());
        lemma_aged_concat(a, b.drop_last(), n);
        if b.last().remaining_turns > n {
            assert(aged(a, n) + aged(b.drop_last(), n).push(aged_buff(b.last(), n as int)) =~= (
            aged(a, n) + aged(b.drop_last(), n)).push(aged_buff(b.last(), n as int)));
        }
    }
}

/// Ageing by `m` turns and then by `n` is ageing by `m + n`.
pub proof fn lemma_aged_twice(buffs: Seq<Buff>, m: nat, n: nat)
    ensures
        aged(aged(buffs, m), n) == aged(buffs, m + n),
    decreases buffs.len(),
{
    if buffs.len() > 0 {
        let rest = buffs.drop_last();
        let last = buffs.last();
        lemma_aged_twice(rest, m, n);
        if last.remaining_turns > m {
            let kept = aged_buff(last, m as int);
            assert(aged(buffs, m) == aged(rest, m).push(kept));
            assert(aged(rest, m).push(kept) =~= aged(rest, m) + seq![kept]);
            lemma_aged_concat(aged(rest, m), seq![kept], n);
            assert(seq![kept].drop_last() =~= Seq::<Buff>::empty());
            assert(seq![kept].last() == kept);
            assert(aged(Seq::<Buff>::empty(), n) =~= Seq::<Buff>::empty());
            if kept.remaining_turns > n {
                assert(aged(seq![kept], n) =~= seq![aged_buff(kept, n as int)]);
                assert(aged_buff(kept, n as int) == aged_buff(last, (m + n) as int));
                assert(aged(rest, m + n) + seq![aged_buff(kept, n as int)] =~= aged(
                    rest,
                    m + n,
                ).push(aged_buff(last, (m + n) as int)));
            } else {
                assert(aged(seq![kept], n) =~= Seq::<Buff>::empty());
                assert(aged(rest, m + n) + Seq::<Buff>::empty() =~= aged(rest, m + n));
            }
        }
    } else {
        assert(aged(buffs, m) =~= Seq::<Buff>::empty());
    }
}

/// A buff that has `d` turns left, `d` at least one, is still in the ledger
/// after `d - 1` turn boundaries, with exactly one turn left, and is gone
/// after `d`. The buffs before and after it in the ledger fare as they
/// would without it.
pub proof fn lemma_buff_lasts_its_turns(before: Seq<Buff>, buff: Buff, after: Seq<Buff>)
    requires
        buff.remaining_turns >= 1,
    ensures
        ticked_times(before + seq![buff] + after, (buff.remaining_turns - 1) as nat)
            == ticked_times(before, (buff.remaining_turns - 1) as nat) + seq![
            Buff { remaining_turns: 1, ..buff },
        ] + ticked_times(after, (buff.remaining_turns - 1) as nat),
        ticked_times(before + seq![buff] + after, buff.remaining_turns as nat) == ticked_times(
            before,
            buff.remaining_turns as nat,
        ) + ticked_times(after, buff.remaining_turns as nat),
{
    let d = buff.remaining_turns as nat;
    let short = (d - 1) as nat;
    let ledger = before + seq![buff] + after;
    lemma_ticked_times_is_aged(ledger, short);
    lemma_ticked_times_is_aged(ledger, d);
    lemma_ticked_times_is_aged(before, short);
    lemma_ticked_times_is_aged(before, d);
    lemma_ticked_times_is_aged(after, short);
    lemma_ticked_times_is_aged(after, d);
    lemma_aged_concat(before + seq![buff], after, short);
    lemma_aged_concat(before, seq![buff], short);
    lemma_aged_concat(before + seq![buff], after, d);
    lemma_aged_concat(before, seq![buff], d);
    assert(seq![buff].drop_last() =~= Seq::<Buff>::empty());
    assert(seq![buff].last() == buff);
    assert(aged(Seq::<Buff>::empty(), short) =~= Seq::<Buff>::empty());
    assert(aged(Seq::<Buff>::empty(), d) =~= Seq::<Buff>::empty());
    assert(aged(seq![buff], short) =~= seq![Buff { remaining_turns: 1, ..buff }]);
    assert(aged(seq![buff], d) =~= Seq::<Buff>::empty());
    assert(aged(before, d) + Seq::<Buff>::empty() =~= aged(before, d));
    if short == 0 {
        assert(buff == Buff { remaining_turns: 1, ..buff });
    }
}

/// Passing `n` turn boundaries one after the other, `n` at least one,
/// leaves what passing them at once leaves, whatever the ledger holds.
pub proof fn lemma_ticked_times_is_aged(buffs: Seq<Buff>, n: nat)
    ensures
        n >= 1 ==> ticked_times(buffs, n) == aged(buffs, n),
        n == 0 ==> ticked_times(buffs, n) == buffs,
    decreases n,
{
    if n == 1 {
        assert(ticked_times(buffs, 0) == buffs);
    } else if n > 1 {
        lemma_ticked_times_is_aged(buffs, (n - 1) as nat);
        lemma_aged_twice(buffs, (n - 1) as nat, 1);
    }
}

} // verus!
