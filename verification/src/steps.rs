//! Ordered lists of steps.

use vstd::prelude::*;

verus! {

/// `part` where the condition holds, nothing otherwise.
pub open spec fn when<T>(condition: bool, part: Seq<T>) -> Seq<T> {
    if condition {
        part
    } else {
        Seq::empty()
    }
}

/// The text that an optional string holds.
pub open spec fn text_of(text: Option<String>) -> Option<Seq<char>> {
    match text {
        Some(text) => Some(text@),
        None => None,
    }
}

/// The text that an optional string slice holds.
pub open spec fn str_of(text: Option<&str>) -> Option<Seq<char>> {
    match text {
        Some(text) => Some(text@),
        None => None,
    }
}

/// An owned copy of an optional string slice.
pub fn owned(text: Option<&str>) -> (r: Option<String>)
    ensures
        text_of(r) == str_of(text),
{
    match text {
        Some(text) => Some(text.to_owned()),
        None => None,
    }
}

/// A copy of an optional string.
pub fn copied(text: &Option<String>) -> (r: Option<String>)
    ensures
        r == *text,
{
    match text {
        Some(text) => Some(text.clone()),
        None => None,
    }
}

/// The step is in the list.
#[verifier::opaque]
pub open spec fn has<T>(list: Seq<T>, step: T) -> bool {
    list.contains(step)
}

/// A list contains the steps that it has.
pub broadcast proof fn contained_steps<T>(list: Seq<T>, step: T)
    ensures
        #[trigger] list.contains(step) <==> has(list, step),
{
    reveal(has);
}

/// A step of a joined list is a step of one of its parts.
pub broadcast proof fn joined_steps<T>(a: Seq<T>, b: Seq<T>, step: T)
    ensures
        #[trigger] has(a + b, step) <==> has(a, step) || has(b, step),
{
    reveal(has);
    if a.contains(step) {
        let i = a.index_of(step);
        assert((a + b)[i] == step);
    }
    if b.contains(step) {
        let i = b.index_of(step);
        assert((a + b)[a.len() + i] == step);
    }
    if (a + b).contains(step) {
        let i = (a + b).index_of(step);
        if i < a.len() {
            assert(a[i] == step);
        } else {
            assert(b[i - a.len()] == step);
        }
    }
}

/// A step of a list that a step was added to is that one or was there before.
pub broadcast proof fn added_steps<T>(list: Seq<T>, last: T, step: T)
    ensures
        #[trigger] has(list.push(last), step) <==> has(list, step) || step == last,
{
    reveal(has);
    if list.contains(step) {
        let i = list.index_of(step);
        assert(list.push(last)[i] == step);
    }
    if step == last {
        assert(list.push(last)[list.len() as int] == step);
    }
    if list.push(last).contains(step) && step != last {
        let i = list.push(last).index_of(step);
        assert(list[i] == step);
    }
}

/// Steps under a condition are there only where it holds.
pub broadcast proof fn conditional_steps<T>(condition: bool, part: Seq<T>, step: T)
    ensures
        #[trigger] has(when(condition, part), step) <==> condition && has(part, step),
{
    reveal(has);
}

/// An empty list has no steps.
pub broadcast proof fn no_steps<T>(step: T)
    ensures
        !(#[trigger] has(Seq::<T>::empty(), step)),
{
    reveal(has);
}

/// The steps of a list of two.
pub broadcast proof fn two_steps<T>(list: [T; 2], step: T)
    ensures
        #[trigger] has(list@, step) <==> step == list@[0] || step == list@[1],
{
    reveal(has);
    if list@.contains(step) {
        let i = list@.index_of(step);
        assert(list@[i] == step);
    }
}

/// The steps of a list of three.
pub broadcast proof fn three_steps<T>(list: [T; 3], step: T)
    ensures
        #[trigger] has(list@, step) <==> step == list@[0] || step == list@[1] || step == list@[2],
{
    reveal(has);
    if list@.contains(step) {
        let i = list@.index_of(step);
        assert(list@[i] == step);
    }
}

/// The steps of a list of four.
pub broadcast proof fn four_steps<T>(list: [T; 4], step: T)
    ensures
        #[trigger] has(list@, step) <==> step == list@[0] || step == list@[1] || step == list@[2] || step == list@[3],
{
    reveal(has);
    if list@.contains(step) {
        let i = list@.index_of(step);
        assert(list@[i] == step);
    }
}

/// The steps of a list of five.
pub broadcast proof fn five_steps<T>(list: [T; 5], step: T)
    ensures
        #[trigger] has(list@, step) <==> step == list@[0] || step == list@[1] || step == list@[2] || step == list@[3] || step == list@[4],
{
    reveal(has);
    if list@.contains(step) {
        let i = list@.index_of(step);
        assert(list@[i] == step);
    }
}

/// The steps of a list of six.
pub broadcast proof fn six_steps<T>(list: [T; 6], step: T)
    ensures
        #[trigger] has(list@, step) <==> step == list@[0] || step == list@[1] || step == list@[2] || step == list@[3] || step == list@[4] || step == list@[5],
{
    reveal(has);
    if list@.contains(step) {
        let i = list@.index_of(step);
        assert(list@[i] == step);
    }
}

/// The steps of a list of seven.
pub broadcast proof fn seven_steps<T>(list: [T; 7], step: T)
    ensures
        #[trigger] has(list@, step) <==> step == list@[0] || step == list@[1] || step == list@[2] || step == list@[3] || step == list@[4] || step == list@[5] || step == list@[6],
{
    reveal(has);
    if list@.contains(step) {
        let i = list@.index_of(step);
        assert(list@[i] == step);
    }
}

/// What a list of steps contains.
pub broadcast group group_steps {
    contained_steps,
    joined_steps,
    added_steps,
    conditional_steps,
    no_steps,
    two_steps,
    three_steps,
    four_steps,
    five_steps,
    six_steps,
    seven_steps,
}

/// Wherever both steps are in the list, the first comes before the second.
#[verifier::opaque]
pub open spec fn comes_before<T>(list: Seq<T>, first: T, second: T) -> bool {
    forall|i: int, j: int|
        #![trigger list[i], list[j]]
        0 <= i < list.len() && 0 <= j < list.len() && list[i] == first && list[j] == second ==> i
            < j
}

/// In a joined list steps keep their order, and those of the first part come before those of
/// the second.
pub broadcast proof fn order_of_joined<T>(a: Seq<T>, b: Seq<T>, first: T, second: T)
    ensures
        #[trigger] comes_before(a + b, first, second) <==> comes_before(a, first, second)
            && comes_before(b, first, second) && !(has(a, second) && has(b, first)),
{
    reveal(comes_before);
    reveal(has);
    let whole = a + b;
    if comes_before(whole, first, second) {
        assert forall|i: int, j: int|
            #![trigger a[i], a[j]]
            0 <= i < a.len() && 0 <= j < a.len() && a[i] == first && a[j] == second implies i
            < j by {
            assert(whole[i] == first && whole[j] == second);
        }
        assert forall|i: int, j: int|
            #![trigger b[i], b[j]]
            0 <= i < b.len() && 0 <= j < b.len() && b[i] == first && b[j] == second implies i
            < j by {
            assert(whole[a.len() + i] == first && whole[a.len() + j] == second);
        }
        if a.contains(second) && b.contains(first) {
            let j = a.index_of(second);
            let i = b.index_of(first);
            assert(whole[a.len() + i] == first && whole[j] == second);
        }
    }
    if comes_before(a, first, second) && comes_before(b, first, second) && !(a.contains(second)
        && b.contains(first)) {
        assert forall|i: int, j: int|
            #![trigger whole[i], whole[j]]
            0 <= i < whole.len() && 0 <= j < whole.len() && whole[i] == first && whole[j]
                == second implies i < j by {
            if i < a.len() {
                assert(a[i] == first);
                if j < a.len() {
                    assert(a[j] == second);
                }
            } else {
                assert(b[i - a.len()] == first);
                if j < a.len() {
                    assert(a[j] == second);
                } else {
                    assert(b[j - a.len()] == second);
                }
            }
        }
    }
}

/// A step that is added comes last.
pub broadcast proof fn order_of_added<T>(list: Seq<T>, last: T, first: T, second: T)
    ensures
        #[trigger] comes_before(list.push(last), first, second) <==> comes_before(
            list,
            first,
            second,
        ) && !(last == first && (has(list, second) || first == second)),
{
    reveal(comes_before);
    reveal(has);
    let one = Seq::<T>::empty().push(last);
    assert(list.push(last) =~= list + one);
    order_of_joined(list, one, first, second);
    assert(one[0] == last);
}

/// Steps under a condition keep their order.
pub broadcast proof fn order_of_conditional<T>(condition: bool, part: Seq<T>, first: T, second: T)
    ensures
        #[trigger] comes_before(when(condition, part), first, second) <==> !condition
            || comes_before(part, first, second),
{
    reveal(comes_before);
}

/// An empty list puts nothing out of order.
pub broadcast proof fn order_of_none<T>(first: T, second: T)
    ensures
        #[trigger] comes_before(Seq::<T>::empty(), first, second),
{
    reveal(comes_before);
}

/// The order of a list of two.
pub broadcast proof fn order_of_two<T>(list: [T; 2], first: T, second: T)
    ensures
        #[trigger] comes_before(list@, first, second) <==> (list@[0] == first ==> !(list@[0] == second)) && (list@[1] == first ==> !(list@[0] == second || list@[1] == second)),
{
    reveal(comes_before);
}

/// The order of a list of three.
pub broadcast proof fn order_of_three<T>(list: [T; 3], first: T, second: T)
    ensures
        #[trigger] comes_before(list@, first, second) <==> (list@[0] == first ==> !(list@[0] == second)) && (list@[1] == first ==> !(list@[0] == second || list@[1] == second)) && (list@[2] == first ==> !(list@[0] == second || list@[1] == second || list@[2] == second)),
{
    reveal(comes_before);
}

/// The order of a list of four.
pub broadcast proof fn order_of_four<T>(list: [T; 4], first: T, second: T)
    ensures
        #[trigger] comes_before(list@, first, second) <==> (list@[0] == first ==> !(list@[0] == second)) && (list@[1] == first ==> !(list@[0] == second || list@[1] == second)) && (list@[2] == first ==> !(list@[0] == second || list@[1] == second || list@[2] == second)) && (list@[3] == first ==> !(list@[0] == second || list@[1] == second || list@[2] == second || list@[3] == second)),
{
    reveal(comes_before);
}

/// The order of a list of five.
pub broadcast proof fn order_of_five<T>(list: [T; 5], first: T, second: T)
    ensures
        #[trigger] comes_before(list@, first, second) <==> (list@[0] == first ==> !(list@[0] == second)) && (list@[1] == first ==> !(list@[0] == second || list@[1] == second)) && (list@[2] == first ==> !(list@[0] == second || list@[1] == second || list@[2] == second)) && (list@[3] == first ==> !(list@[0] == second || list@[1] == second || list@[2] == second || list@[3] == second)) && (list@[4] == first ==> !(list@[0] == second || list@[1] == second || list@[2] == second || list@[3] == second || list@[4] == second)),
{
    reveal(comes_before);
}

/// What comes before what in a list of steps.
pub broadcast group group_orders {
    order_of_joined,
    order_of_added,
    order_of_conditional,
    order_of_none,
    order_of_two,
    order_of_three,
    order_of_four,
    order_of_five,
}

} // verus!
