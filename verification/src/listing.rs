//! The listing: one line of text for each task, in order.

use vstd::prelude::*;
use crate::store::TaskList;
use crate::task::{Task, TaskView};

verus! {

/// The character that stands for the digit `d`, for `d` below ten.
pub open spec fn digit_char(d: nat) -> char {
    "0123456789"@[d as int]
}

/// The decimal numeral of `n`: most significant digit first, no sign, no
/// leading zero (zero itself is `0`).
pub open spec fn decimal_text(n: nat) -> Seq<char>
    decreases n,
{
    if n < 10 {
        seq![digit_char(n)]
    } else {
        decimal_text(n / 10).push(digit_char(n % 10))
    }
}

/// The label under which a task's state is shown.
pub open spec fn status_text(completed: bool) -> Seq<char> {
    if completed {
        "Completed"@
    } else {
        "Pending"@
    }
}

/// The line that shows `task` at position `index`: the index, a colon and a
/// space, the description, a space, and the status label in square brackets.
pub open spec fn line_text(index: nat, task: TaskView) -> Seq<char> {
    decimal_text(index) + ": "@ + task.description + " ["@ + status_text(task.completed) + "]"@
}

/// The lines that show `tasks`: line `i` shows the task at position `i`.
pub open spec fn listing(tasks: Seq<TaskView>) -> Seq<Seq<char>> {
    Seq::new(tasks.len(), |i: int| line_text(i as nat, tasks[i]))
}

/// The one-character string for a digit.
fn digit_str(d: usize) -> (text: &'static str)
    requires
        d < 10,
    ensures
        text@ == seq![digit_char(d as nat)],
{
    proof {
        reveal_strlit("0123456789");
        reveal_strlit("0");
        reveal_strlit("1");
        reveal_strlit("2");
        reveal_strlit("3");
        reveal_strlit("4");
        reveal_strlit("5");
        reveal_strlit("6");
        reveal_strlit("7");
        reveal_strlit("8");
        reveal_strlit("9");
    }
    let text = match d {
        0 => "0",
        1 => "1",
        2 => "2",
        3 => "3",
        4 => "4",
        5 => "5",
        6 => "6",
        7 => "7",
        8 => "8",
        _ => "9",
    };
    text
}

/// Writes `n` as a decimal numeral.
pub fn decimal(n: usize) -> (text: String)
    ensures
        text@ == decimal_text(n as nat),
    decreases n,
{
    if n < 10 {
        String::from_str(digit_str(n))
    } else {
        let mut text = decimal(n / 10);
        text.append(digit_str(n % 10));
        text
    }
}

impl Task {
    /// The label under which the task's state is shown: `Completed` once it
    /// is done, `Pending` until then.
    pub fn status(&self) -> (label: &'static str)
        ensures
            label@ == status_text(self.completed),
    {
        if self.completed {
            "Completed"
        } else {
            "Pending"
        }
    }

    /// The line that shows the task at position `index`.
    pub fn line(&self, index: usize) -> (line: String)
        ensures
            line@ == line_text(index as nat, self@),
    {
        let mut line = decimal(index);
        line.append(": ");
        line.append(self.description.as_str());
        line.append(" [");
        line.append(self.status());
        line.append("]");
        line
    }
}

impl TaskList {
    /// The lines that show the tasks, in order, each with its current
    /// position. The list is not changed, so the listing can be taken again.
    pub fn list_tasks(&self) -> (lines: Vec<String>)
        ensures
            lines.deep_view() == listing(self@),
            lines@.len() == self@.len(),
            forall|i: int| 0 <= i < lines@.len() ==> lines@[i]@ == line_text(i as nat, self@[i]),
    {
        let mut lines: Vec<String> = Vec::new();
        let mut i: usize = 0;
        while i < self.tasks.len()
            invariant
                i <= self.tasks.len(),
                lines.len() == i,
                forall|j: int| 0 <= j < i ==> lines[j]@ == line_text(j as nat, self@[j]),
            decreases self.tasks.len() - i,
        {
            let line = self.tasks[i].line(i);
            lines.push(line);
            i += 1;
        }
        lines
    }
}

} // verus!
