//! How a snapshot reads in a log.
use crate::state::{Snapshot, StateView};
use vstd::prelude::*;

verus! {

/// `n` in decimal digits, without leading zeros.
pub open spec fn decimal(n: nat) -> Seq<char>
    decreases n,
{
    if n < 10 {
        seq![(48 + n) as char]
    } else {
        decimal(n / 10).push((48 + n % 10) as char)
    }
}

/// `true` or `false`.
pub open spec fn truth(flag: bool) -> Seq<char> {
    if flag {
        "true"@
    } else {
        "false"@
    }
}

impl StateView {
    /// The fields by name, in the form of a Rust struct.
    pub open spec fn text(self) -> Seq<char> {
        "Snapshot { ref_count: "@ + decimal(self.ref_count) + ", is_done: "@ + truth(self.done)
            + ", is_taken: "@ + truth(self.taken) + ", handle_dropped: "@ + truth(
            self.handle_dropped,
        ) + ", scheduled: "@ + truth(self.scheduled) + ", waker_lock: "@ + truth(self.waker_lock)
            + ", cancelled: "@ + truth(self.cancelled) + ", yielded: "@ + truth(self.yielded)
            + " }"@
    }
}

/// The number that decimal digits stand for.
pub open spec fn number(digits: Seq<char>) -> nat
    decreases digits.len(),
{
    if digits.len() == 0 {
        0
    } else {
        number(digits.drop_last()) * 10 + (digits.last() as nat - 48) as nat
    }
}

/// A number in decimal reads back as that number, in digits alone, and starts with a zero only
/// where it is zero.
pub proof fn law_decimal_reads_back(n: nat)
    ensures
        number(decimal(n)) == n,
        decimal(n).len() > 0,
        forall|i: int| 0 <= i < decimal(n).len() ==> '0' <= #[trigger] decimal(n)[i] <= '9',
        decimal(n)[0] == '0' ==> n == 0,
    decreases n,
{
    if n < 10 {
        assert(decimal(n).drop_last() =~= Seq::empty());
        assert(number(decimal(n).drop_last()) == 0);
    } else {
        law_decimal_reads_back(n / 10);
        assert(decimal(n).drop_last() =~= decimal(n / 10));
    }
}

/// Texts one after the other, with a separator between them.
pub open spec fn joined(texts: Seq<Seq<char>>, separator: Seq<char>) -> Seq<char>
    decreases texts.len(),
{
    if texts.len() == 0 {
        Seq::empty()
    } else if texts.len() == 1 {
        texts[0]
    } else {
        joined(texts.drop_last(), separator) + separator + texts.last()
    }
}

/// The text of a state is its fields by name, with commas between them, in the braces of a
/// `Snapshot`. The count is in decimal, and each flag is `true` or `false`.
pub proof fn law_text_names_every_field(state: StateView)
    ensures
        ({
            let flag = |set: bool| if set { "true"@ } else { "false"@ };
            state.text() == "Snapshot { "@ + joined(
                seq![
                    "ref_count: "@ + decimal(state.ref_count),
                    "is_done: "@ + flag(state.done),
                    "is_taken: "@ + flag(state.taken),
                    "handle_dropped: "@ + flag(state.handle_dropped),
                    "scheduled: "@ + flag(state.scheduled),
                    "waker_lock: "@ + flag(state.waker_lock),
                    "cancelled: "@ + flag(state.cancelled),
                    "yielded: "@ + flag(state.yielded),
                ],
                ", "@,
            ) + " }"@
        }),
{
    lemma_labels();
    let head = "Snapshot { "@;
    let comma = ", "@;
    let f1 = "ref_count: "@ + decimal(state.ref_count);
    let f2 = "is_done: "@ + truth(state.done);
    let f3 = "is_taken: "@ + truth(state.taken);
    let f4 = "handle_dropped: "@ + truth(state.handle_dropped);
    let f5 = "scheduled: "@ + truth(state.scheduled);
    let f6 = "waker_lock: "@ + truth(state.waker_lock);
    let f7 = "cancelled: "@ + truth(state.cancelled);
    let f8 = "yielded: "@ + truth(state.yielded);
    let j1 = f1;
    let j2 = j1 + comma + f2;
    let j3 = j2 + comma + f3;
    let j4 = j3 + comma + f4;
    let j5 = j4 + comma + f5;
    let j6 = j5 + comma + f6;
    let j7 = j6 + comma + f7;
    lemma_head(head, "ref_count: "@, decimal(state.ref_count));
    lemma_field(head, j1, comma, "is_done: "@, truth(state.done));
    lemma_field(head, j2, comma, "is_taken: "@, truth(state.taken));
    lemma_field(head, j3, comma, "handle_dropped: "@, truth(state.handle_dropped));
    lemma_field(head, j4, comma, "scheduled: "@, truth(state.scheduled));
    lemma_field(head, j5, comma, "waker_lock: "@, truth(state.waker_lock));
    lemma_field(head, j6, comma, "cancelled: "@, truth(state.cancelled));
    lemma_field(head, j7, comma, "yielded: "@, truth(state.yielded));
    let s1 = Seq::<Seq<char>>::empty().push(f1);
    let s2 = s1.push(f2);
    let s3 = s2.push(f3);
    let s4 = s3.push(f4);
    let s5 = s4.push(f5);
    let s6 = s5.push(f6);
    let s7 = s6.push(f7);
    let s8 = s7.push(f8);
    lemma_joined_push(Seq::empty(), f1, comma);
    lemma_joined_push(s1, f2, comma);
    lemma_joined_push(s2, f3, comma);
    lemma_joined_push(s3, f4, comma);
    lemma_joined_push(s4, f5, comma);
    lemma_joined_push(s5, f6, comma);
    lemma_joined_push(s6, f7, comma);
    lemma_joined_push(s7, f8, comma);
    let all = seq![f1, f2, f3, f4, f5, f6, f7, f8];
    assert(all =~= s8);
    assert(joined(all, comma) == j7 + comma + f8);
    assert(state.text() == head + (j7 + comma + f8) + " }"@);
}

proof fn lemma_labels()
    ensures
        "Snapshot { ref_count: "@ == "Snapshot { "@ + "ref_count: "@,
        ", is_done: "@ == ", "@ + "is_done: "@,
        ", is_taken: "@ == ", "@ + "is_taken: "@,
        ", handle_dropped: "@ == ", "@ + "handle_dropped: "@,
        ", scheduled: "@ == ", "@ + "scheduled: "@,
        ", waker_lock: "@ == ", "@ + "waker_lock: "@,
        ", cancelled: "@ == ", "@ + "cancelled: "@,
        ", yielded: "@ == ", "@ + "yielded: "@,
{
    reveal_strlit("Snapshot { ref_count: ");
    reveal_strlit("Snapshot { ");
    reveal_strlit("ref_count: ");
    reveal_strlit(", ");
    reveal_strlit(", is_done: ");
    reveal_strlit("is_done: ");
    reveal_strlit(", is_taken: ");
    reveal_strlit("is_taken: ");
    reveal_strlit(", handle_dropped: ");
    reveal_strlit("handle_dropped: ");
    reveal_strlit(", scheduled: ");
    reveal_strlit("scheduled: ");
    reveal_strlit(", waker_lock: ");
    reveal_strlit("waker_lock: ");
    reveal_strlit(", cancelled: ");
    reveal_strlit("cancelled: ");
    reveal_strlit(", yielded: ");
    reveal_strlit("yielded: ");
}

proof fn lemma_head(head: Seq<char>, label: Seq<char>, value: Seq<char>)
    ensures
        head + label + value == head + (label + value),
{
}

proof fn lemma_field(
    head: Seq<char>,
    fields: Seq<char>,
    comma: Seq<char>,
    label: Seq<char>,
    value: Seq<char>,
)
    ensures
        head + fields + (comma + label) + value == head + (fields + comma + (label + value)),
{
}

proof fn lemma_joined_push(texts: Seq<Seq<char>>, text: Seq<char>, separator: Seq<char>)
    ensures
        texts.len() == 0 ==> joined(texts.push(text), separator) == text,
        texts.len() > 0 ==> joined(texts.push(text), separator) == joined(texts, separator)
            + separator + text,
{
    assert(texts.push(text).drop_last() =~= texts);
}

fn digit_text(digit: u64) -> (text: &'static str)
    requires
        digit < 10,
    ensures
        text@ == seq![(48 + digit) as char],
{
    proof {
        reveal_strlit("0");
        reveal_strlit("1");
        reveal_strlit("2");
        reveal_strlit("3");
        reveal_strlit("4");
        reveal_strlit("5");
        reveal_strlit("6");
        reveal_strlit("7");
        reveal_strlit("8");
        reveal_strlit("9");
    }
    match digit {
        0 => "0",
        1 => "1",
        2 => "2",
        3 => "3",
        4 => "4",
        5 => "5",
        6 => "6",
        7 => "7",
        8 => "8",
        _ => "9",
    }
}

fn append_decimal(text: &mut String, n: u64)
    ensures
        final(text)@ == old(text)@ + decimal(n as nat),
    decreases n,
{
    if n >= 10 {
        append_decimal(text, n / 10);
    }
    text.append(digit_text(n % 10));
}

fn append_truth(text: &mut String, flag: bool)
    ensures
        final(text)@ == old(text)@ + truth(flag),
{
    text.append(if flag { "true" } else { "false" });
}

impl Snapshot {
    /// The fields by name, in the form of a Rust struct.
    pub fn to_text(self) -> (text: String)
        ensures
            text@ == self@.text(),
    {
        let mut text = String::new();
        text.append("Snapshot { ref_count: ");
        append_decimal(&mut text, self.ref_count());
        text.append(", is_done: ");
        append_truth(&mut text, self.done());
        text.append(", is_taken: ");
        append_truth(&mut text, self.taken());
        text.append(", handle_dropped: ");
        append_truth(&mut text, self.handle_dropped());
        text.append(", scheduled: ");
        append_truth(&mut text, self.scheduled());
        text.append(", waker_lock: ");
        append_truth(&mut text, self.waker_lock());
        text.append(", cancelled: ");
        append_truth(&mut text, self.cancelled());
        text.append(", yielded: ");
        append_truth(&mut text, self.yielded());
        text.append(" }");
        proof {
            assert(text@ =~= self@.text());
        }
        text
    }
}

} // verus!
