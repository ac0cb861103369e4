//! The fish-cake recipe's task list and the dashboard's text.
use vstd::prelude::*;

verus! {

/// How many tasks one recipe has.
pub const TASK_COUNT: usize = 4;

/// Where a task stands relative to the recipe's current step.
#[derive(Clone, Copy, Debug, PartialEq, Eq, Structural)]
pub enum TaskStatus {
    /// Before the current step: finished.
    Done,
    /// The current step.
    Active,
    /// After the current step: not started.
    Pending,
}

/// The name of the task at `index`, or "Unknown" past the recipe's end.
pub open spec fn task_name(index: int) -> Seq<char> {
    if index == 0 {
        "Get White Belly"@
    } else if index == 1 {
        "Chop"@
    } else if index == 2 {
        "Fry"@
    } else if index == 3 {
        "Bake"@
    } else {
        "Unknown"@
    }
}

/// The status of task `index` while the recipe is at `current_step`.
pub open spec fn status_of(index: int, current_step: int) -> TaskStatus {
    if index < current_step {
        TaskStatus::Done
    } else if index == current_step {
        TaskStatus::Active
    } else {
        TaskStatus::Pending
    }
}

/// The mark shown in front of a task with this status.
pub open spec fn status_mark(status: TaskStatus) -> Seq<char> {
    match status {
        TaskStatus::Done => "\u{2713} "@,
        _ => "\u{25c7} "@,
    }
}

/// The text of task `index`'s line while the recipe is at `current_step`.
pub open spec fn task_line(index: int, current_step: int) -> Seq<char> {
    status_mark(status_of(index, current_step)) + task_name(index)
}

/// The decimal digit `d` (for `d` below ten).
pub open spec fn digit_char(d: nat) -> char {
    if d == 0 {
        '0'
    } else if d == 1 {
        '1'
    } else if d == 2 {
        '2'
    } else if d == 3 {
        '3'
    } else if d == 4 {
        '4'
    } else if d == 5 {
        '5'
    } else if d == 6 {
        '6'
    } else if d == 7 {
        '7'
    } else if d == 8 {
        '8'
    } else {
        '9'
    }
}

/// `n` written in decimal, without leading zeros.
pub open spec fn decimal(n: nat) -> Seq<char>
    decreases n,
{
    if n < 10 {
        seq![digit_char(n)]
    } else {
        decimal(n / 10).push(digit_char(n % 10))
    }
}

/// The text of the completed-dishes counter.
pub open spec fn counter_text(count: nat) -> Seq<char> {
    "COMPLETED: "@ + decimal(count)
}

/// The name of the task at `index`; "Unknown" past the recipe's end.
pub fn get_task_name(index: usize) -> (name: &'static str)
    ensures
        name@ == task_name(index as int),
{
    match index {
        0 => "Get White Belly",
        1 => "Chop",
        2 => "Fry",
        3 => "Bake",
        _ => "Unknown",
    }
}

/// Where task `index` stands while the recipe is at `current_step`.
pub fn task_status(index: usize, current_step: usize) -> (status: TaskStatus)
    ensures
        status == status_of(index as int, current_step as int),
{
    if index < current_step {
        TaskStatus::Done
    } else if index == current_step {
        TaskStatus::Active
    } else {
        TaskStatus::Pending
    }
}

/// The line shown for task `index` while the recipe is at `current_step`:
/// a check mark for finished tasks, a diamond for the others, then the name.
pub fn task_label(index: usize, current_step: usize) -> (label: String)
    ensures
        label@ == task_line(index as int, current_step as int),
{
    let mut label = match task_status(index, current_step) {
        TaskStatus::Done => String::from_str("\u{2713} "),
        _ => String::from_str("\u{25c7} "),
    };
    label.append(get_task_name(index));
    label
}

/// The task lines shown before any recipe has moved on: every task with a
/// diamond, the first one current.
pub fn initial_task_labels() -> (labels: Vec<String>)
    ensures
        labels.len() == TASK_COUNT,
        forall|i: int|
            0 <= i < TASK_COUNT ==> #[trigger] labels[i]@ == task_line(i, 0) && labels[i]@
                == "\u{25c7} "@ + task_name(i),
{
    let mut labels: Vec<String> = Vec::new();
    let mut i: usize = 0;
    while i < TASK_COUNT
        invariant
            i <= TASK_COUNT,
            labels.len() == i,
            forall|j: int|
                0 <= j < i ==> #[trigger] labels[j]@ == task_line(j, 0) && labels[j]@
                    == "\u{25c7} "@ + task_name(j),
        decreases TASK_COUNT - i,
    {
        labels.push(task_label(i, 0));
        i = i + 1;
    }
    labels
}

/// The single digit `d` as text.
fn digit_text(d: u32) -> (text: &'static str)
    requires
        d < 10,
    ensures
        text@ == seq![digit_char(d as nat)],
{
    proof {
        reveal_strlit("0");
        reveal_strlit("1");
        reveal_strlit("2");
        reveal_strlit("3");
        reveal_strlit("4");
        reveal_strlit("5");
        reveal_strlit("6");
        reveal_strlit("7");
        reveal_strlit("8");
        reveal_strlit("9");
    }
    match d {
        0 => "0",
        1 => "1",
        2 => "2",
        3 => "3",
        4 => "4",
        5 => "5",
        6 => "6",
        7 => "7",
        8 => "8",
        _ => "9",
    }
}

/// Appends `n` in decimal to `text`.
fn append_decimal(text: &mut String, n: u32)
    ensures
        final(text)@ == old(text)@ + decimal(n as nat),
    decreases n,
{
    if n >= 10 {
        append_decimal(text, n / 10);
    }
    text.append(digit_text(n % 10));
    proof {
        if n >= 10 {
            assert(decimal(n as nat) == decimal((n / 10) as nat).push(digit_char((n % 10) as nat)));
        }
    }
    assert(text@ =~= old(text)@ + decimal(n as nat));
}

/// The counter of finished dishes, as the dashboard shows it.
pub fn completion_counter_label(count: u32) -> (label: String)
    ensures
        label@ == counter_text(count as nat),
{
    let mut label = String::from_str("COMPLETED: ");
    append_decimal(&mut label, count);
    label
}

/// The task that is current is exactly the one at the recipe's step, every
/// earlier task is done and every later one pending.
pub proof fn lemma_one_active_task(index: int, current_step: int)
    ensures
        (status_of(index, current_step) == TaskStatus::Active) <==> index == current_step,
        (status_of(index, current_step) == TaskStatus::Done) <==> index < current_step,
        (status_of(index, current_step) == TaskStatus::Pending) <==> index > current_step,
{
}

/// Moving the recipe on by one step finishes the task that was current and
/// makes the next one current; no other task changes status.
pub proof fn lemma_advance_step(index: int, current_step: int)
    ensures
        status_of(current_step, current_step + 1) == TaskStatus::Done,
        status_of(current_step + 1, current_step + 1) == TaskStatus::Active,
        index != current_step && index != current_step + 1 ==> status_of(index, current_step)
            == status_of(index, current_step + 1),
{
}

/// The number a string of decimal digits stands for, the last digit the
/// least significant.
pub open spec fn numeral_value(digits: Seq<char>) -> int
    decreases digits.len(),
{
    if digits.len() == 0 {
        0
    } else {
        numeral_value(digits.drop_last()) * 10 + (digits.last() as int - '0' as int)
    }
}

/// Each digit character is the character `d` places after '0'.
pub proof fn lemma_digit_char_value(d: nat)
    requires
        d < 10,
    ensures
        digit_char(d) as int == '0' as int + d,
{
}

/// The decimal numeral of `n` reads back to `n`, and it starts with a zero
/// only when `n` is zero.
pub proof fn lemma_decimal_reads_back(n: nat)
    ensures
        numeral_value(decimal(n)) == n,
        decimal(n)[0] == '0' ==> n == 0,
    decreases n,
{
    lemma_digit_char_value(n % 10);
    let d = decimal(n);
    if n >= 10 {
        lemma_decimal_reads_back(n / 10);
        assert(d.drop_last() =~= decimal(n / 10));
        assert(d[0] == decimal(n / 10)[0]);
        assert((n / 10) * 10 + n % 10 == n) by (nonlinear_arith);
    } else {
        assert(d.drop_last() =~= Seq::<char>::empty());
    }
    assert(d.last() == digit_char(n % 10));
    assert(numeral_value(d) == numeral_value(d.drop_last()) * 10 + (d.last() as int - '0' as int));
    if n >= 10 {
        assert(numeral_value(d.drop_last()) == n / 10);
    } else {
        assert(numeral_value(d.drop_last()) == 0);
    }
}

/// The counter text is "COMPLETED: " followed by digits that read back to
/// the count.
pub proof fn lemma_counter_text(count: nat)
    ensures
        counter_text(count).len() > 11,
        counter_text(count).take(11) == "COMPLETED: "@,
        numeral_value(counter_text(count).skip(11)) == count,
{
    reveal_strlit("COMPLETED: ");
    lemma_decimal_digits(count);
    lemma_decimal_reads_back(count);
    assert(counter_text(count).take(11) =~= "COMPLETED: "@);
    assert(counter_text(count).skip(11) =~= decimal(count));
}

/// The tasks of the recipe, in order, and "Unknown" for any other index.
pub proof fn lemma_task_names(index: int)
    ensures
        task_name(0) == "Get White Belly"@,
        task_name(1) == "Chop"@,
        task_name(2) == "Fry"@,
        task_name(3) == "Bake"@,
        (index < 0 || index >= TASK_COUNT) ==> task_name(index) == "Unknown"@,
{
}

/// A task line starts with a check mark exactly for the tasks before the
/// current step and with a diamond for the current and later ones, followed
/// by the task's name.
pub proof fn lemma_task_line_marks(index: int, current_step: int)
    ensures
        index < current_step ==> task_line(index, current_step) == "\u{2713} "@ + task_name(index),
        index >= current_step ==> task_line(index, current_step) == "\u{25c7} "@ + task_name(
            index,
        ),
{
}

/// A decimal numeral is never empty and holds digits only.
pub proof fn lemma_decimal_digits(n: nat)
    ensures
        decimal(n).len() >= 1,
        forall|i: int| 0 <= i < decimal(n).len() ==> '0' <= #[trigger] decimal(n)[i] <= '9',
    decreases n,
{
    if n >= 10 {
        lemma_decimal_digits(n / 10);
    }
}

} // verus!
