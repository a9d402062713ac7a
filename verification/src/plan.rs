//! What holds of plans, whatever their operations are.

use vstd::prelude::*;

verus! {

/// A short plan holds an operation just where it stands at one of its places.
pub proof fn lemma_short_plan<T>(plan: Seq<T>, op: T)
    requires
        plan.len() <= 8,
    ensures
        plan.contains(op) <==> {
            ||| plan.len() > 0 && plan[0] == op
            ||| plan.len() > 1 && plan[1] == op
            ||| plan.len() > 2 && plan[2] == op
            ||| plan.len() > 3 && plan[3] == op
            ||| plan.len() > 4 && plan[4] == op
            ||| plan.len() > 5 && plan[5] == op
            ||| plan.len() > 6 && plan[6] == op
            ||| plan.len() > 7 && plan[7] == op
        },
{
    if plan.contains(op) {
        let i = choose|i: int| 0 <= i < plan.len() && plan[i] == op;
        assert(i == 0 || i == 1 || i == 2 || i == 3 || i == 4 || i == 5 || i == 6 || i == 7);
    }
}

/// A short list in which each number is less than the next is increasing
/// throughout.
pub proof fn lemma_short_increasing(turns: Seq<int>, i: int, j: int)
    requires
        turns.len() <= 8,
        0 <= i < j < turns.len(),
        turns.len() > 1 ==> turns[0] < turns[1],
        turns.len() > 2 ==> turns[1] < turns[2],
        turns.len() > 3 ==> turns[2] < turns[3],
        turns.len() > 4 ==> turns[3] < turns[4],
        turns.len() > 5 ==> turns[4] < turns[5],
        turns.len() > 6 ==> turns[5] < turns[6],
        turns.len() > 7 ==> turns[6] < turns[7],
    ensures
        turns[i] < turns[j],
{
    assert(i == 0 || i == 1 || i == 2 || i == 3 || i == 4 || i == 5 || i == 6);
    assert(j == 1 || j == 2 || j == 3 || j == 4 || j == 5 || j == 6 || j == 7);
}

} // verus!
