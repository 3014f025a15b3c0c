//! Tick-driven timer scheduler.
//!
//! Holds two ordered lists of timer entries: the periodic list (`freq > 0`)
//! and the one-shot list (`freq == 0`). Both lists are kept in non-decreasing
//! `timeout` order, and ids are unique across both lists, monotonically
//! assigned starting at 1. Timeouts saturate at `i64::MAX`.

use vstd::multiset::Multiset;
use vstd::prelude::*;

verus! {

/// One scheduled timer: absolute expiry, unique id, period (0 for one-shot).
#[derive(Debug, Clone, Copy, PartialEq, Eq, Structural)]
pub struct TimerEntry {
    pub timeout: i64,
    pub id: u64,
    pub freq: i64,
}

/// Non-decreasing expiry order.
pub open spec fn sorted_entries(s: Seq<TimerEntry>) -> bool {
    forall|i: int, j: int| 0 <= i < j < s.len() ==> s[i].timeout <= s[j].timeout
}

/// The ids of a list of entries, in list order.
pub open spec fn entry_ids(s: Seq<TimerEntry>) -> Seq<u64> {
    s.map_values(|e: TimerEntry| e.id)
}

/// Addition on `i64` that clamps at the representable bounds.
pub open spec fn sat_add_i64(a: i64, b: i64) -> i64 {
    if a + b > i64::MAX {
        i64::MAX
    } else if a + b < i64::MIN {
        i64::MIN
    } else {
        (a + b) as i64
    }
}

/// Length of the leading run of entries with `timeout <= now`; on a sorted
/// list this is exactly the number of matured entries.
pub open spec fn matured_count(s: Seq<TimerEntry>, now: i64) -> int
    decreases s.len(),
{
    if s.len() == 0 {
        0
    } else if s[0].timeout > now {
        0
    } else {
        1 + matured_count(s.drop_first(), now)
    }
}

/// The periodic list after one tick at `now`: every matured entry gets its
/// next expiry `now + freq` (saturating); the rest are unchanged.
pub open spec fn reschedule(s: Seq<TimerEntry>, now: i64) -> Seq<TimerEntry> {
    Seq::new(
        s.len(),
        |i: int|
            if i < matured_count(s, now) {
                TimerEntry { timeout: sat_add_i64(now, s[i].freq), id: s[i].id, freq: s[i].freq }
            } else {
                s[i]
            },
    )
}

/// A list with the first entry carrying `id` removed; the list itself when no
/// entry carries `id`.
pub open spec fn remove_id(s: Seq<TimerEntry>, id: u64) -> Seq<TimerEntry>
    decreases s.len(),
{
    if s.len() == 0 {
        s
    } else if s[0].id == id {
        s.drop_first()
    } else {
        seq![s[0]] + remove_id(s.drop_first(), id)
    }
}

/// Whether `add_timer` must reject the request: negative arguments, or a
/// periodic rate finer than the scheduler's tick rate.
pub open spec fn spec_timer_rejected(fps: i32, begin: i64, freq: i64) -> bool {
    begin < 0 || freq < 0 || (freq > 0 && 1000int / (freq as int) > fps as int)
}

/// Relation between the scheduler before and after one `add_timer` request
/// made at clock value `now`, returning `id`.
pub open spec fn spec_add_timer(
    pre: TimerState,
    post: TimerState,
    now: i64,
    begin: i64,
    freq: i64,
    id: u64,
) -> bool {
    let e = TimerEntry { timeout: sat_add_i64(now, begin), id: id, freq: freq };
    &&& (id == 0 <==> spec_timer_rejected(pre.fps, begin, freq))
    &&& post.fps == pre.fps
    &&& (id == 0 ==> post == pre)
    &&& (id != 0 ==> {
        &&& id == pre.inc_id + 1
        &&& post.inc_id == id
        &&& (freq == 0 ==> post.orders@ == pre.orders@ && (exists|p: int|
            0 <= p <= pre.once_orders@.len() && post.once_orders@ == pre.once_orders@.insert(
                p,
                e,
            )))
        &&& (freq > 0 ==> post.once_orders@ == pre.once_orders@ && (exists|p: int|
            0 <= p <= pre.orders@.len() && post.orders@ == pre.orders@.insert(p, e)))
    })
}

/// On a sorted list, exactly the first `matured_count` entries have matured.
proof fn lemma_matured_prefix(s: Seq<TimerEntry>, now: i64)
    requires
        sorted_entries(s),
    ensures
        0 <= matured_count(s, now) <= s.len(),
        forall|i: int| 0 <= i < matured_count(s, now) ==> s[i].timeout <= now,
        forall|i: int| matured_count(s, now) <= i < s.len() ==> s[i].timeout > now,
    decreases s.len(),
{
    if s.len() == 0 {
    } else if s[0].timeout > now {
        assert forall|i: int| 0 <= i < s.len() implies s[i].timeout > now by {
            assert(s[0].timeout <= s[i].timeout);
        }
    } else {
        let rest = s.drop_first();
        assert(sorted_entries(rest)) by {
            assert forall|i: int, j: int| 0 <= i < j < rest.len() implies rest[i].timeout
                <= rest[j].timeout by {
                assert(s[i + 1].timeout <= s[j + 1].timeout);
            }
        }
        lemma_matured_prefix(rest, now);
        assert forall|i: int| 0 <= i < matured_count(s, now) implies s[i].timeout <= now by {
            if i > 0 {
                assert(rest[i - 1].timeout <= now);
            }
        }
        assert forall|i: int| matured_count(s, now) <= i < s.len() implies s[i].timeout > now by {
            assert(rest[i - 1].timeout > now);
        }
    }
}

/// Law: on a sorted timer list, an entry has matured (`timeout <= now`)
/// exactly when its index falls below `matured_count`, so `update` returns
/// an id if and only if its entry's `timeout` was at most `now` on entry.
pub proof fn lemma_matured_iff(s: Seq<TimerEntry>, now: i64, i: int)
    requires
        sorted_entries(s),
        0 <= i < s.len(),
    ensures
        s[i].timeout <= now <==> i < matured_count(s, now),
{
    lemma_matured_prefix(s, now);
}

/// Inserting into the left part of a concatenation is inserting into the whole.
proof fn lemma_insert_concat_left(a: Seq<TimerEntry>, b: Seq<TimerEntry>, p: int, e: TimerEntry)
    requires
        0 <= p <= a.len(),
    ensures
        a.insert(p, e) + b =~= (a + b).insert(p, e),
{
    a.insert_ensures(p, e);
    (a + b).insert_ensures(p, e);
}

/// Inserting into the right part of a concatenation is inserting into the whole.
proof fn lemma_insert_concat_right(a: Seq<TimerEntry>, b: Seq<TimerEntry>, p: int, e: TimerEntry)
    requires
        0 <= p <= b.len(),
    ensures
        a + b.insert(p, e) =~= (a + b).insert(a.len() + p, e),
{
    b.insert_ensures(p, e);
    (a + b).insert_ensures(a.len() + p, e);
}

/// Insert an entry into a sorted list, keeping it sorted; the entry lands
/// after every entry with an equal or smaller timeout, as a stable
/// push-then-sort would place it.
fn insert_sorted(v: &mut Vec<TimerEntry>, e: TimerEntry) -> (pos: usize)
    requires
        sorted_entries(old(v)@),
    ensures
        sorted_entries(final(v)@),
        0 <= pos <= old(v)@.len(),
        final(v)@ == old(v)@.insert(pos as int, e),
{
    let mut i: usize = 0;
    while i < v.len() && v[i].timeout <= e.timeout
        invariant
            0 <= i <= v@.len(),
            v@ == old(v)@,
            sorted_entries(v@),
            forall|j: int| 0 <= j < i ==> v@[j].timeout <= e.timeout,
        decreases v@.len() - i,
    {
        i = i + 1;
    }
    proof {
        old(v)@.insert_ensures(i as int, e);
        assert forall|x: int, y: int|
            0 <= x < y < old(v)@.insert(i as int, e).len() implies old(v)@.insert(i as int, e)[x].timeout
            <= old(v)@.insert(i as int, e)[y].timeout by {
            let w = old(v)@.insert(i as int, e);
            let ox: int = if x < i {
                x
            } else {
                x - 1
            };
            let oy: int = if y < i {
                y
            } else {
                y - 1
            };
            if x == i as int {
                assert(w[y] == old(v)@[oy]);
                assert(old(v)@[i as int].timeout > e.timeout);
                assert(old(v)@[i as int].timeout <= old(v)@[oy].timeout);
            } else if y == i as int {
                assert(w[x] == old(v)@[ox]);
            } else {
                assert(w[x] == old(v)@[ox] && w[y] == old(v)@[oy]);
                if ox < oy {
                } else {
                    assert(ox == oy);
                }
            }
        }
    }
    v.insert(i, e);
    i
}

/// An entry with an unused id no larger than `inc_id`, inserted into the
/// matching list, preserves the scheduler's invariant.
proof fn lemma_insert_entry_wf(
    pre: TimerState,
    post: TimerState,
    e: TimerEntry,
    p: int,
    into_once: bool,
)
    requires
        pre.wf(),
        post.inc_id == pre.inc_id,
        post.fps == pre.fps,
        1 <= e.id <= pre.inc_id,
        forall|k: int| 0 <= k < pre.all_entries().len() ==> #[trigger] pre.all_entries()[k].id != e.id,
        sorted_entries(post.orders@),
        sorted_entries(post.once_orders@),
        into_once ==> e.freq == 0 && 0 <= p <= pre.once_orders@.len() && post.once_orders@
            == pre.once_orders@.insert(p, e) && post.orders@ == pre.orders@,
        !into_once ==> e.freq > 0 && 0 <= p <= pre.orders@.len() && post.orders@
            == pre.orders@.insert(p, e) && post.once_orders@ == pre.once_orders@,
    ensures
        post.wf(),
{
    let all_old = pre.all_entries();
    let all_new = post.all_entries();
    let q: int = if into_once {
        pre.orders@.len() + p
    } else {
        p
    };
    if into_once {
        lemma_insert_concat_right(pre.orders@, pre.once_orders@, p, e);
    } else {
        lemma_insert_concat_left(pre.orders@, pre.once_orders@, p, e);
    }
    assert(all_new =~= all_old.insert(q, e));
    all_old.insert_ensures(q, e);
    if !into_once {
        pre.orders@.insert_ensures(p, e);
        assert forall|i: int| 0 <= i < post.orders@.len() implies post.orders@[i].freq > 0 by {
            if i != p {
                let oi: int = if i < p {
                    i
                } else {
                    i - 1
                };
                assert(post.orders@[i] == pre.orders@[oi]);
            }
        }
    }
    if into_once {
        pre.once_orders@.insert_ensures(p, e);
        assert forall|i: int| 0 <= i < post.once_orders@.len() implies post.once_orders@[i].freq
            == 0 by {
            if i != p {
                let oi: int = if i < p {
                    i
                } else {
                    i - 1
                };
                assert(post.once_orders@[i] == pre.once_orders@[oi]);
            }
        }
    }
    assert forall|i: int| 0 <= i < all_new.len() implies 1 <= #[trigger] all_new[i].id
        <= post.inc_id by {
        if i != q {
            let oi: int = if i < q {
                i
            } else {
                i - 1
            };
            assert(all_new[i] == all_old[oi]);
        }
    }
    assert forall|i: int, j: int| 0 <= i < j < all_new.len() implies #[trigger] all_new[i].id
        != #[trigger] all_new[j].id by {
        let oi: int = if i < q {
            i
        } else {
            i - 1
        };
        let oj: int = if j < q {
            j
        } else {
            j - 1
        };
        if i == q {
            assert(all_new[j] == all_old[oj]);
        } else if j == q {
            assert(all_new[i] == all_old[oi]);
        } else {
            assert(all_new[i] == all_old[oi] && all_new[j] == all_old[oj]);
        }
    }
}

/// A freshly numbered entry inserted into either list preserves the
/// scheduler's invariant.
proof fn lemma_add_entry_wf(pre: TimerState, post: TimerState, e: TimerEntry, p: int)
    requires
        pre.wf(),
        pre.inc_id < u64::MAX,
        e.id == pre.inc_id + 1,
        post.inc_id == e.id,
        post.fps == pre.fps,
        sorted_entries(post.orders@),
        sorted_entries(post.once_orders@),
        (e.freq == 0 && 0 <= p <= pre.once_orders@.len() && post.once_orders@
            == pre.once_orders@.insert(p, e) && post.orders@ == pre.orders@) || (e.freq > 0 && 0
            <= p <= pre.orders@.len() && post.orders@ == pre.orders@.insert(p, e)
            && post.once_orders@ == pre.once_orders@),
    ensures
        post.wf(),
{
    let mid = TimerState {
        fps: pre.fps,
        inc_id: e.id,
        orders: pre.orders,
        once_orders: pre.once_orders,
    };
    assert(mid.all_entries() =~= pre.all_entries());
    assert(mid.all_entries() == pre.all_entries());
    assert(mid.wf());
    if e.freq == 0 {
        lemma_insert_entry_wf(mid, post, e, p, true);
    } else {
        lemma_insert_entry_wf(mid, post, e, p, false);
    }
}

/// `remove_id` removes exactly the first entry carrying `id`.
proof fn lemma_remove_id_found(s: Seq<TimerEntry>, id: u64, i: int)
    requires
        0 <= i < s.len(),
        s[i].id == id,
        forall|j: int| 0 <= j < i ==> s[j].id != id,
    ensures
        remove_id(s, id) =~= s.remove(i),
    decreases s.len(),
{
    s.remove_ensures(i);
    if i == 0 {
        assert(remove_id(s, id) =~= s.drop_first());
        assert(s.drop_first() =~= s.remove(0));
    } else {
        let rest = s.drop_first();
        assert(rest[i - 1].id == id);
        assert forall|j: int| 0 <= j < i - 1 implies rest[j].id != id by {
            assert(rest[j] == s[j + 1]);
        }
        lemma_remove_id_found(rest, id, i - 1);
        rest.remove_ensures(i - 1);
        assert(remove_id(s, id) =~= seq![s[0]] + rest.remove(i - 1));
        assert(seq![s[0]] + rest.remove(i - 1) =~= s.remove(i));
    }
}

/// `remove_id` leaves a list without the id untouched.
proof fn lemma_remove_id_absent(s: Seq<TimerEntry>, id: u64)
    requires
        forall|j: int| 0 <= j < s.len() ==> s[j].id != id,
    ensures
        remove_id(s, id) =~= s,
    decreases s.len(),
{
    if s.len() > 0 {
        let rest = s.drop_first();
        assert forall|j: int| 0 <= j < rest.len() implies rest[j].id != id by {
            assert(rest[j] == s[j + 1]);
        }
        lemma_remove_id_absent(rest, id);
        assert(seq![s[0]] + rest =~= s);
    }
}

/// Dropping one entry from either list preserves the scheduler's invariant.
proof fn lemma_remove_entry_wf(pre: TimerState, post: TimerState, i: int, from_orders: bool)
    requires
        pre.wf(),
        post.inc_id == pre.inc_id,
        post.fps == pre.fps,
        from_orders ==> 0 <= i < pre.orders@.len() && post.orders@ == pre.orders@.remove(i)
            && post.once_orders@ == pre.once_orders@,
        !from_orders ==> 0 <= i < pre.once_orders@.len() && post.once_orders@
            == pre.once_orders@.remove(i) && post.orders@ == pre.orders@,
    ensures
        post.wf(),
{
    let all_old = pre.all_entries();
    let all_new = post.all_entries();
    let q: int = if from_orders {
        i
    } else {
        pre.orders@.len() + i
    };
    if from_orders {
        pre.orders@.remove_ensures(i);
    } else {
        pre.once_orders@.remove_ensures(i);
    }
    all_old.remove_ensures(q);
    assert(all_new =~= all_old.remove(q));
    assert forall|x: int, y: int|
        0 <= x < y < post.orders@.len() implies post.orders@[x].timeout
        <= post.orders@[y].timeout by {
        if from_orders {
            let ox: int = if x < i {
                x
            } else {
                x + 1
            };
            let oy: int = if y < i {
                y
            } else {
                y + 1
            };
            assert(post.orders@[x] == pre.orders@[ox] && post.orders@[y] == pre.orders@[oy]);
        }
    }
    assert forall|x: int, y: int|
        0 <= x < y < post.once_orders@.len() implies post.once_orders@[x].timeout
        <= post.once_orders@[y].timeout by {
        if !from_orders {
            let ox: int = if x < i {
                x
            } else {
                x + 1
            };
            let oy: int = if y < i {
                y
            } else {
                y + 1
            };
            assert(post.once_orders@[x] == pre.once_orders@[ox] && post.once_orders@[y]
                == pre.once_orders@[oy]);
        }
    }
    assert forall|x: int| 0 <= x < post.orders@.len() implies post.orders@[x].freq > 0 by {
        if from_orders {
            let ox: int = if x < i {
                x
            } else {
                x + 1
            };
            assert(post.orders@[x] == pre.orders@[ox]);
        }
    }
    assert forall|x: int| 0 <= x < post.once_orders@.len() implies post.once_orders@[x].freq
        == 0 by {
        if !from_orders {
            let ox: int = if x < i {
                x
            } else {
                x + 1
            };
            assert(post.once_orders@[x] == pre.once_orders@[ox]);
        }
    }
    assert forall|x: int, y: int| 0 <= x < y < all_new.len() implies #[trigger] all_new[x].id
        != #[trigger] all_new[y].id by {
        let ox: int = if x < q {
            x
        } else {
            x + 1
        };
        let oy: int = if y < q {
            y
        } else {
            y + 1
        };
        assert(all_new[x] == all_old[ox] && all_new[y] == all_old[oy]);
    }
    assert forall|x: int| 0 <= x < all_new.len() implies 1 <= #[trigger] all_new[x].id
        <= post.inc_id by {
        let ox: int = if x < q {
            x
        } else {
            x + 1
        };
        assert(all_new[x] == all_old[ox]);
    }
}

/// Find the index of the first entry carrying `id`, if any.
fn find_id(v: &Vec<TimerEntry>, id: u64) -> (r: Option<usize>)
    ensures
        r matches Some(i) ==> 0 <= i < v@.len() && v@[i as int].id == id && (forall|j: int|
            0 <= j < i ==> v@[j].id != id),
        r is None ==> forall|j: int| 0 <= j < v@.len() ==> v@[j].id != id,
{
    let mut i: usize = 0;
    while i < v.len()
        invariant
            0 <= i <= v@.len(),
            forall|j: int| 0 <= j < i ==> v@[j].id != id,
        decreases v@.len() - i,
    {
        if v[i].id == id {
            return Some(i);
        }
        i = i + 1;
    }
    None
}

/// Dropping a prefix of each list preserves the scheduler's invariant.
proof fn lemma_skip_wf(pre: TimerState, post: TimerState, kp: int, ko: int)
    requires
        pre.wf(),
        0 <= kp <= pre.orders@.len(),
        0 <= ko <= pre.once_orders@.len(),
        post.orders@ == pre.orders@.skip(kp),
        post.once_orders@ == pre.once_orders@.skip(ko),
        post.inc_id == pre.inc_id,
        post.fps == pre.fps,
    ensures
        post.wf(),
{
    let all_old = pre.all_entries();
    let all_new = post.all_entries();
    let no = post.orders@.len();
    let shift = pre.orders@.len() - no;
    assert forall|i: int| 0 <= i < all_new.len() implies all_new[i] == all_old[
        if i < no {
            i + kp
        } else {
            i + shift + ko
        }
    ] by {
        if i < no {
            assert(post.orders@[i] == pre.orders@[i + kp]);
        } else {
            assert(post.once_orders@[i - no] == pre.once_orders@[i - no + ko]);
        }
    }
    assert forall|i: int, j: int|
        0 <= i < j < post.orders@.len() implies post.orders@[i].timeout
        <= post.orders@[j].timeout by {
        assert(pre.orders@[i + kp].timeout <= pre.orders@[j + kp].timeout);
    }
    assert forall|i: int, j: int|
        0 <= i < j < post.once_orders@.len() implies post.once_orders@[i].timeout
        <= post.once_orders@[j].timeout by {
        assert(pre.once_orders@[i + ko].timeout <= pre.once_orders@[j + ko].timeout);
    }
    assert forall|i: int| 0 <= i < post.orders@.len() implies post.orders@[i].freq > 0 by {
        assert(post.orders@[i] == pre.orders@[i + kp]);
    }
    assert forall|i: int| 0 <= i < post.once_orders@.len() implies post.once_orders@[i].freq
        == 0 by {
        assert(post.once_orders@[i] == pre.once_orders@[i + ko]);
    }
    assert forall|i: int| 0 <= i < all_new.len() implies 1 <= #[trigger] all_new[i].id
        <= post.inc_id by {
        let oi: int = if i < no {
            i + kp
        } else {
            i + shift + ko
        };
        assert(1 <= all_old[oi].id <= pre.inc_id);
    }
    assert forall|i: int, j: int| 0 <= i < j < all_new.len() implies #[trigger] all_new[i].id
        != #[trigger] all_new[j].id by {
        let oi: int = if i < no {
            i + kp
        } else {
            i + shift + ko
        };
        let oj: int = if j < no {
            j + kp
        } else {
            j + shift + ko
        };
        assert(all_old[oi].id != all_old[oj].id);
    }
}

/// Inserting at any position adds exactly that element to the multiset.
proof fn lemma_insert_multiset(s: Seq<TimerEntry>, p: int, e: TimerEntry)
    requires
        0 <= p <= s.len(),
    ensures
        s.insert(p, e).to_multiset() =~= s.to_multiset().insert(e),
{
    broadcast use vstd::seq_lib::group_to_multiset_ensures;
    broadcast use vstd::multiset::group_multiset_axioms;

    let a = s.subrange(0, p);
    let b = s.subrange(p, s.len() as int);
    assert(s =~= a + b);
    vstd::seq_lib::lemma_multiset_commutative(a, b);
    vstd::seq_lib::lemma_multiset_commutative(a.push(e), b);
    assert(a.push(e).to_multiset() =~= a.to_multiset().insert(e));
    assert(a.to_multiset().insert(e).add(b.to_multiset()) =~= a.to_multiset().add(
        b.to_multiset(),
    ).insert(e));
}

/// Ids of one more element of a prefix.
proof fn lemma_entry_ids_take_push(s: Seq<TimerEntry>, i: int)
    requires
        0 <= i < s.len(),
    ensures
        entry_ids(s.take(i + 1)) =~= entry_ids(s.take(i)).push(s[i].id),
{
}

/// The ids no longer inserted are still absent from the lists under rebuild:
/// the entries of a well-formed scheduler at indices `kp` onward, and the
/// one-shot list, carry none of the first `kp` periodic ids.
proof fn lemma_update_freshness(pre: TimerState, mid: TimerState, kp: int, ko: int)
    requires
        pre.wf(),
        0 <= kp <= pre.orders@.len(),
        0 <= ko <= pre.once_orders@.len(),
        mid.orders@ == pre.orders@.skip(kp),
        mid.once_orders@ == pre.once_orders@.skip(ko),
    ensures
        forall|t1: int, t2: int|
            0 <= t1 < t2 < kp ==> #[trigger] pre.orders@[t1].id != #[trigger] pre.orders@[t2].id,
        forall|t: int, k: int|
            0 <= t < kp && 0 <= k < mid.all_entries().len() ==> #[trigger] mid.all_entries()[k].id
                != #[trigger] pre.orders@[t].id,
{
    let all_old = pre.all_entries();
    let all_mid = mid.all_entries();
    let no = mid.orders@.len();
    let shift = pre.orders@.len() - no;
    assert forall|t1: int, t2: int|
        0 <= t1 < t2 < kp implies #[trigger] pre.orders@[t1].id
        != #[trigger] pre.orders@[t2].id by {
        assert(all_old[t1] == pre.orders@[t1] && all_old[t2] == pre.orders@[t2]);
        assert(all_old[t1].id != all_old[t2].id);
    }
    assert forall|t: int, k: int|
        0 <= t < kp && 0 <= k < all_mid.len() implies #[trigger] all_mid[k].id
        != #[trigger] pre.orders@[t].id by {
        let ok: int = if k < no {
            k + kp
        } else {
            k + shift + ko
        };
        if k < no {
            assert(all_mid[k] == pre.orders@[k + kp]);
            assert(all_old[ok] == pre.orders@[k + kp]);
        } else {
            assert(all_mid[k] == mid.once_orders@[k - no]);
            assert(all_old[ok] == pre.once_orders@[k - no + ko]);
        }
        assert(all_old[t] == pre.orders@[t]);
        assert(all_old[t].id != all_old[ok].id);
    }
}

/// Count the matured entries at the head of a sorted list.
fn matured_prefix_exec(v: &Vec<TimerEntry>, now: i64) -> (k: usize)
    requires
        sorted_entries(v@),
    ensures
        k as int == matured_count(v@, now),
        k <= v@.len(),
{
    let mut i: usize = 0;
    while i < v.len() && v[i].timeout <= now
        invariant
            0 <= i <= v@.len(),
            sorted_entries(v@),
            forall|j: int| 0 <= j < i ==> v@[j].timeout <= now,
        decreases v@.len() - i,
    {
        i = i + 1;
    }
    proof {
        lemma_matured_prefix(v@, now);
        let mc = matured_count(v@, now);
        if (i as int) < mc {
            assert(v@[i as int].timeout <= now);
        } else if (i as int) > mc {
            assert(v@[mc].timeout <= now);
            assert(v@[mc].timeout > now);
        }
    }
    i
}

/// The tick-driven timer scheduler.
pub struct TimerState {
    pub fps: i32,
    pub inc_id: u64,
    pub orders: Vec<TimerEntry>,
    pub once_orders: Vec<TimerEntry>,
}

impl TimerState {
    /// Both lists in one sequence: periodic entries first.
    pub open spec fn all_entries(self) -> Seq<TimerEntry> {
        self.orders@ + self.once_orders@
    }

    /// Structural invariant: positive tick rate, both lists sorted by expiry,
    /// periodic entries have a positive period and one-shot entries none, and
    /// every id is in `1 ..= inc_id` and occurs at most once across both lists.
    pub open spec fn wf(self) -> bool {
        &&& self.fps > 0
        &&& sorted_entries(self.orders@)
        &&& sorted_entries(self.once_orders@)
        &&& forall|i: int| 0 <= i < self.orders@.len() ==> self.orders@[i].freq > 0
        &&& forall|i: int| 0 <= i < self.once_orders@.len() ==> self.once_orders@[i].freq == 0
        &&& forall|i: int|
            0 <= i < self.all_entries().len() ==> 1 <= #[trigger] self.all_entries()[i].id
                <= self.inc_id
        &&& forall|i: int, j: int|
            0 <= i < j < self.all_entries().len() ==> #[trigger] self.all_entries()[i].id
                != #[trigger] self.all_entries()[j].id
    }

    /// A fresh scheduler with no timers; ids start being assigned at 1.
    pub fn new(fps: i32) -> (r: TimerState)
        requires
            fps > 0,
        ensures
            r.wf(),
            r.fps == fps,
            r.inc_id == 0,
            r.orders@ =~= Seq::<TimerEntry>::empty(),
            r.once_orders@ =~= Seq::<TimerEntry>::empty(),
    {
        TimerState { fps, inc_id: 0, orders: Vec::new(), once_orders: Vec::new() }
    }

    /// Enrol a timer as if the clock read `now`: rejected requests return 0
    /// and change nothing; otherwise the next id is assigned and the entry
    /// `(now + begin, id, freq)` joins the matching list, which stays sorted.
    pub fn add_timer_at(&mut self, now: i64, begin: i64, freq: i64) -> (id: u64)
        requires
            old(self).wf(),
            old(self).inc_id < u64::MAX,
        ensures
            final(self).wf(),
            spec_add_timer(*old(self), *final(self), now, begin, freq, id),
    {
        if freq < 0 || begin < 0 {
            return 0;
        }
        if freq > 0 {
            let tar_fps: i64 = 1000 / freq;
            if tar_fps > self.fps as i64 {
                return 0;
            }
        }
        let id = self.inc_id + 1;
        self.inc_id = id;
        let timeout: i64 = if now > i64::MAX - begin {
            i64::MAX
        } else {
            now + begin
        };
        let e = TimerEntry { timeout, id, freq };
        let ghost pre = *old(self);
        if freq == 0 {
            let pos = insert_sorted(&mut self.once_orders, e);
            proof {
                lemma_add_entry_wf(pre, *self, e, pos as int);
            }
        } else {
            let pos = insert_sorted(&mut self.orders, e);
            proof {
                lemma_add_entry_wf(pre, *self, e, pos as int);
            }
        }
        id
    }

    /// Enrol a timer against the real clock. The expiry is measured from the
    /// current wall-clock milliseconds; everything else is as `add_timer_at`.
    pub fn add_timer(&mut self, begin: i64, freq: i64) -> (id: u64)
        requires
            old(self).wf(),
            old(self).inc_id < u64::MAX,
        ensures
            final(self).wf(),
            exists|now: i64| spec_add_timer(*old(self), *final(self), now, begin, freq, id),
            (id == 0 <==> spec_timer_rejected(old(self).fps, begin, freq)),
    {
        let now = crate::clock::now_millis();
        self.add_timer_at(now, begin, freq)
    }

    /// Cancel the timer with the given id, from whichever list holds it;
    /// unknown ids are ignored without error.
    pub fn remove_timer(&mut self, id: u64)
        requires
            old(self).wf(),
        ensures
            final(self).wf(),
            final(self).orders@ =~= remove_id(old(self).orders@, id),
            final(self).once_orders@ =~= remove_id(old(self).once_orders@, id),
            final(self).fps == old(self).fps,
            final(self).inc_id == old(self).inc_id,
    {
        let ghost pre = *self;
        if let Some(pos) = find_id(&self.orders, id) {
            self.orders.remove(pos);
            proof {
                lemma_remove_id_found(pre.orders@, id, pos as int);
                pre.orders@.remove_ensures(pos as int);
                lemma_remove_entry_wf(pre, *self, pos as int, true);
            }
        } else {
            proof {
                lemma_remove_id_absent(pre.orders@, id);
            }
        }
        let ghost mid = *self;
        if let Some(pos) = find_id(&self.once_orders, id) {
            self.once_orders.remove(pos);
            proof {
                lemma_remove_id_found(mid.once_orders@, id, pos as int);
                mid.once_orders@.remove_ensures(pos as int);
                lemma_remove_entry_wf(mid, *self, pos as int, false);
            }
        } else {
            proof {
                lemma_remove_id_absent(mid.once_orders@, id);
            }
        }
    }

    /// One scheduler tick at clock value `now`: return the ids of every
    /// matured timer — periodic ones first, each group in list order — or
    /// nothing when none matured. Matured periodic timers are re-enrolled at
    /// `now + freq`; matured one-shot timers leave the scheduler.
    pub fn update(&mut self, now: i64) -> (r: Option<Vec<u64>>)
        requires
            old(self).wf(),
        ensures
            final(self).wf(),
            final(self).fps == old(self).fps,
            final(self).inc_id == old(self).inc_id,
            ({
                let kp = matured_count(old(self).orders@, now);
                let ko = matured_count(old(self).once_orders@, now);
                &&& (r is Some <==> kp + ko > 0)
                &&& (r is None ==> *final(self) == *old(self))
                &&& (r matches Some(ids) ==> ids@ == entry_ids(old(self).orders@.take(kp))
                    + entry_ids(old(self).once_orders@.take(ko)))
                &&& final(self).once_orders@ =~= old(self).once_orders@.skip(ko)
                &&& final(self).orders@.to_multiset() == reschedule(
                    old(self).orders@,
                    now,
                ).to_multiset()
            }),
    {
        proof {
            lemma_matured_prefix(old(self).orders@, now);
            lemma_matured_prefix(old(self).once_orders@, now);
        }
        let kp = matured_prefix_exec(&self.orders, now);
        let ko = matured_prefix_exec(&self.once_orders, now);
        if kp == 0 && ko == 0 {
            proof {
                assert(reschedule(old(self).orders@, now) =~= old(self).orders@);
                assert(old(self).once_orders@.skip(0) =~= old(self).once_orders@);
            }
            return None;
        }
        let ghost s0 = *old(self);
        let mut trigger: Vec<u64> = Vec::new();
        let mut i: usize = 0;
        while i < kp
            invariant
                0 <= i <= kp,
                kp <= self.orders@.len(),
                *self == s0,
                trigger@ =~= entry_ids(s0.orders@.take(i as int)),
            decreases kp - i,
        {
            trigger.push(self.orders[i].id);
            proof {
                lemma_entry_ids_take_push(s0.orders@, i as int);
            }
            i = i + 1;
        }
        let mut j: usize = 0;
        while j < ko
            invariant
                0 <= j <= ko,
                ko <= self.once_orders@.len(),
                kp <= self.orders@.len(),
                *self == s0,
                trigger@ =~= entry_ids(s0.orders@.take(kp as int)) + entry_ids(
                    s0.once_orders@.take(j as int),
                ),
            decreases ko - j,
        {
            trigger.push(self.once_orders[j].id);
            proof {
                lemma_entry_ids_take_push(s0.once_orders@, j as int);
            }
            j = j + 1;
        }
        let mut matured: Vec<TimerEntry> = Vec::new();
        let mut t: usize = 0;
        while t < kp
            invariant
                0 <= t <= kp,
                kp <= self.orders@.len(),
                *self == s0,
                matured@ =~= s0.orders@.take(t as int),
            decreases kp - t,
        {
            matured.push(self.orders[t]);
            t = t + 1;
        }
        let mut d: usize = 0;
        while d < kp
            invariant
                0 <= d <= kp,
                kp <= s0.orders@.len(),
                self.orders@ =~= s0.orders@.skip(d as int),
                self.once_orders@ == s0.once_orders@,
                self.inc_id == s0.inc_id,
                self.fps == s0.fps,
            decreases kp - d,
        {
            self.orders.remove(0);
            d = d + 1;
        }
        let mut d2: usize = 0;
        while d2 < ko
            invariant
                0 <= d2 <= ko,
                ko <= s0.once_orders@.len(),
                self.orders@ =~= s0.orders@.skip(kp as int),
                self.once_orders@ =~= s0.once_orders@.skip(d2 as int),
                self.inc_id == s0.inc_id,
                self.fps == s0.fps,
            decreases ko - d2,
        {
            self.once_orders.remove(0);
            d2 = d2 + 1;
        }
        let ghost mid = *self;
        proof {
            assert(mid.orders@ == s0.orders@.skip(kp as int) && mid.once_orders@
                == s0.once_orders@.skip(ko as int)) by {
                assert(mid.orders@ =~= s0.orders@.skip(kp as int));
                assert(mid.once_orders@ =~= s0.once_orders@.skip(ko as int));
            }
            lemma_skip_wf(s0, mid, kp as int, ko as int);
            lemma_update_freshness(s0, mid, kp as int, ko as int);
            broadcast use vstd::seq_lib::group_to_multiset_ensures;
            broadcast use vstd::multiset::group_multiset_axioms;

            assert(reschedule(s0.orders@, now).take(0).to_multiset() =~= Multiset::empty());
            assert(mid.orders@.to_multiset() =~= s0.orders@.skip(kp as int).to_multiset().add(
                reschedule(s0.orders@, now).take(0).to_multiset(),
            ));
        }
        let ghost resched = reschedule(s0.orders@, now);
        let mut t2: usize = 0;
        while t2 < kp
            invariant
                0 <= t2 <= kp,
                s0.wf(),
                kp as int == matured_count(s0.orders@, now),
                kp <= s0.orders@.len(),
                self.wf(),
                self.inc_id == s0.inc_id,
                self.fps == s0.fps,
                self.once_orders@ == s0.once_orders@.skip(ko as int),
                matured@ =~= s0.orders@.take(kp as int),
                resched == reschedule(s0.orders@, now),
                self.orders@.to_multiset() == s0.orders@.skip(kp as int).to_multiset().add(
                    resched.take(t2 as int).to_multiset(),
                ),
                forall|w: int, k: int|
                    t2 <= w < kp && 0 <= k < self.all_entries().len()
                        ==> #[trigger] self.all_entries()[k].id != #[trigger] s0.orders@[w].id,
                forall|t1: int, w: int|
                    0 <= t1 < w < kp ==> #[trigger] s0.orders@[t1].id
                        != #[trigger] s0.orders@[w].id,
            decreases kp - t2,
        {
            let m = matured[t2];
            proof {
                assert(matured@[t2 as int] == s0.orders@[t2 as int]);
                assert(s0.all_entries()[t2 as int] == s0.orders@[t2 as int]);
                assert(m.freq > 0);
            }
            let nt: i64 = if now > i64::MAX - m.freq {
                i64::MAX
            } else {
                now + m.freq
            };
            let e = TimerEntry { timeout: nt, id: m.id, freq: m.freq };
            let ghost st0 = *self;
            let pos = insert_sorted(&mut self.orders, e);
            proof {
                broadcast use vstd::seq_lib::group_to_multiset_ensures;
                broadcast use vstd::multiset::group_multiset_axioms;

                assert(e == resched[t2 as int]);
                lemma_insert_entry_wf(st0, *self, e, pos as int, false);
                lemma_insert_multiset(st0.orders@, pos as int, e);
                assert(resched.take(t2 + 1) =~= resched.take(t2 as int).push(
                    resched[t2 as int],
                ));
                assert(self.orders@.to_multiset() =~= s0.orders@.skip(
                    kp as int,
                ).to_multiset().add(resched.take(t2 + 1).to_multiset()));
                lemma_insert_concat_left(st0.orders@, st0.once_orders@, pos as int, e);
                st0.all_entries().insert_ensures(pos as int, e);
                assert(self.all_entries() =~= st0.all_entries().insert(pos as int, e));
                assert forall|w: int, k: int|
                    t2 + 1 <= w < kp && 0 <= k < self.all_entries().len()
                        implies #[trigger] self.all_entries()[k].id
                        != #[trigger] s0.orders@[w].id by {
                    if k != pos as int {
                        let ok: int = if k < pos as int {
                            k
                        } else {
                            k - 1
                        };
                        assert(self.all_entries()[k] == st0.all_entries()[ok]);
                    } else {
                        assert(self.all_entries()[k] == e);
                        assert(s0.orders@[t2 as int].id != s0.orders@[w].id);
                    }
                }
            }
            t2 = t2 + 1;
        }
        proof {
            broadcast use vstd::seq_lib::group_to_multiset_ensures;
            broadcast use vstd::multiset::group_multiset_axioms;

            assert(resched.skip(kp as int) =~= s0.orders@.skip(kp as int));
            assert(resched =~= resched.take(kp as int) + resched.skip(kp as int));
            vstd::seq_lib::lemma_multiset_commutative(
                resched.take(kp as int),
                resched.skip(kp as int),
            );
            assert(self.orders@.to_multiset() =~= resched.to_multiset());
            assert(trigger@ =~= entry_ids(s0.orders@.take(kp as int)) + entry_ids(
                s0.once_orders@.take(ko as int),
            ));
        }
        Some(trigger)
    }
}

} // verus!
