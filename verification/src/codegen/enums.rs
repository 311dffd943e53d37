//! What is decided about an enum before it is written.

use vstd::prelude::*;
use crate::codegen::api::{enumerator_values, EnumConstant};

verus! {

/// Whether each value is greater than the one before it.
pub open spec fn strictly_ascending(values: Seq<i32>) -> bool {
    forall|i: int, j: int| 0 <= i < j < values.len() ==> values[i] < values[j]
}

/// Puts `value` at its place among the ascending `ords`, unless it is there
/// already.
pub fn insert_ord(ords: &mut Vec<i32>, value: i32)
    requires
        strictly_ascending(old(ords)@),
    ensures
        strictly_ascending(final(ords)@),
        forall|x: i32| final(ords)@.contains(x) <==> (old(ords)@.contains(x) || x == value),
{
    let ghost before = ords@;
    let mut p: usize = 0;
    while p < ords.len() && ords[p] < value
        invariant
            p <= ords.len(),
            ords@ == before,
            forall|k: int| 0 <= k < p ==> before[k] < value,
        decreases ords.len() - p,
    {
        p = p + 1;
    }
    if p < ords.len() && ords[p] == value {
        proof {
            assert(before[p as int] == value);
            assert(before.contains(value));
        }
        return ;
    }
    ords.insert(p, value);
    proof {
        let after = ords@;
        assert(after == before.insert(p as int, value));
        assert forall|i: int, j: int| 0 <= i < j < after.len() implies after[i] < after[j] by {
            if j < p {
                assert(after[i] == before[i] && after[j] == before[j]);
            } else if j == p {
                assert(after[i] == before[i]);
            } else if i < p {
                assert(after[i] == before[i] && after[j] == before[j - 1]);
                assert(before[p as int] > value);
                if j - 1 > p {
                    assert(before[p as int] < before[j - 1]);
                }
            } else if i == p {
                assert(after[j] == before[j - 1]);
                assert(before[p as int] > value);
                if j - 1 > p {
                    assert(before[p as int] < before[j - 1]);
                }
            } else {
                assert(after[i] == before[i - 1] && after[j] == before[j - 1]);
            }
        }
        assert forall|x: i32| after.contains(x) <==> (before.contains(x) || x == value) by {
            if after.contains(x) {
                let i = choose|i: int| 0 <= i < after.len() && after[i] == x;
                if i < p {
                    assert(before[i] == x);
                } else if i > p {
                    assert(before[i - 1] == x);
                }
            }
            if before.contains(x) {
                let i = choose|i: int| 0 <= i < before.len() && before[i] == x;
                if i < p {
                    assert(after[i] == x);
                } else {
                    assert(after[i + 1] == x);
                }
            }
            if x == value {
                assert(after[p as int] == x);
            }
        }
    }
}

/// The distinct values of the enumerators, in ascending order.
pub fn unique_ords(values: &Vec<EnumConstant>) -> (ords: Vec<i32>)
    ensures
        strictly_ascending(ords@),
        forall|x: i32| ords@.contains(x) <==> enumerator_values(values@).contains(x),
{
    let ghost all = enumerator_values(values@);
    let mut ords: Vec<i32> = Vec::new();
    let mut i: usize = 0;
    while i < values.len()
        invariant
            i <= values.len(),
            all == enumerator_values(values@),
            strictly_ascending(ords@),
            forall|x: i32| ords@.contains(x) <==> all.take(i as int).contains(x),
        decreases values.len() - i,
    {
        let ghost before = ords@;
        insert_ord(&mut ords, values[i].value);
        proof {
            let v = values[i as int].value;
            assert(all[i as int] == v);
            let prev = all.take(i as int);
            let cur = all.take(i + 1);
            assert forall|x: i32| ords@.contains(x) <==> cur.contains(x) by {
                if cur.contains(x) {
                    let k = choose|k: int| 0 <= k < cur.len() && cur[k] == x;
                    if k < i {
                        assert(prev[k] == x);
                        assert(prev.contains(x));
                    }
                }
                if prev.contains(x) {
                    let k = choose|k: int| 0 <= k < prev.len() && prev[k] == x;
                    assert(cur[k] == x);
                }
                if x == v {
                    assert(cur[i as int] == x);
                }
            }
        }
        i = i + 1;
    }
    proof {
        assert(all.take(i as int) =~= all);
    }
    ords
}

} // verus!
