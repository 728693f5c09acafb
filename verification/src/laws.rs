//! Laws that relate the operations to each other.

use vstd::prelude::*;
use crate::argument::{all_digits, digit_value, digits_value, index_value};
use crate::listing::{decimal_text, line_text, listing};
use crate::task::TaskView;

verus! {

/// The list after tasks with the given descriptions have been added to
/// `tasks`, one after the other, in order.
pub open spec fn after_adding(tasks: Seq<TaskView>, descriptions: Seq<Seq<char>>) -> Seq<TaskView>
    decreases descriptions.len(),
{
    if descriptions.len() == 0 {
        tasks
    } else {
        after_adding(tasks, descriptions.drop_last()).push(
            TaskView::pending(descriptions.last()),
        )
    }
}

/// Adding keeps what is there and appends: after any number of additions
/// the list is the earlier list, unchanged and in its order, followed by one
/// pending task for each description, in the order in which they were added.
pub proof fn lemma_adding_appends(tasks: Seq<TaskView>, descriptions: Seq<Seq<char>>)
    ensures
        after_adding(tasks, descriptions) == tasks + descriptions.map_values(
            |description: Seq<char>| TaskView::pending(description),
        ),
    decreases descriptions.len(),
{
    if descriptions.len() > 0 {
        lemma_adding_appends(tasks, descriptions.drop_last());
    }
}

/// Starting from the empty list, adding tasks and then listing shows the
/// descriptions in the order in which they were added, each at the position
/// of its turn and each as pending.
pub proof fn lemma_added_tasks_are_listed_in_order(descriptions: Seq<Seq<char>>)
    ensures
        listing(after_adding(Seq::empty(), descriptions)).len() == descriptions.len(),
        forall|i: int|
            0 <= i < descriptions.len() ==> #[trigger] listing(
                after_adding(Seq::empty(), descriptions),
            )[i] == line_text(i as nat, TaskView::pending(descriptions[i])),
        forall|i: int|
            0 <= i < descriptions.len() ==> #[trigger] listing(
                after_adding(Seq::empty(), descriptions),
            )[i] == decimal_text(i as nat) + ": "@ + descriptions[i] + " ["@ + "Pending"@ + "]"@,
{
    lemma_adding_appends(Seq::empty(), descriptions);
}

/// The numeral of a number consists of digits only, has at least one, and
/// denotes that number.
pub proof fn lemma_decimal_text_denotes(n: nat)
    ensures
        decimal_text(n).len() > 0,
        all_digits(decimal_text(n)),
        digits_value(decimal_text(n)) == n,
    decreases n,
{
    reveal_strlit("0123456789");
    let text = decimal_text(n);
    if n < 10 {
        assert(digits_value(text.drop_last()) == 0);
    } else {
        lemma_decimal_text_denotes(n / 10);
        assert(text.drop_last() =~= decimal_text(n / 10));
    }
}

/// A position as a listing shows it is an argument that denotes that same
/// position: what is read off a listing can be given to the operations that
/// take an index.
pub proof fn lemma_listed_index_is_its_own_argument(n: nat)
    ensures
        index_value(decimal_text(n)) == Some(n),
{
    reveal_strlit("0123456789");
    lemma_decimal_text_denotes(n);
    let text = decimal_text(n);
    assert(digit_value(text[0]) is Some);
}

} // verus!
