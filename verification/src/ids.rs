//! Window labels of the form `timer-<N>` and the counter that issues them.
//!
//! A label is the prefix `timer-` followed by a number in decimal. The
//! allocator issues the numbers in increasing order, starting at one, and can
//! be told of labels that are already in use so that it never issues them
//! again.
//!
//! A number is read back from a label by the grammar of an unsigned decimal
//! integer: an optional `+`, then one or more of the digits `0` to `9`,
//! leading zeros allowed, with a value of at most `u32::MAX`. Anything else
//! is not a number, and a label that carries no number leaves the allocator
//! as it is.

use vstd::prelude::*;
use vstd::std_specs::iter::IteratorSpec;
use vstd::string::*;

verus! {

/// The number that the first label of a fresh allocator carries.
pub const FIRST_NUMBER: u32 = 1;

/// The text that every generated label starts with: `timer-`.
pub open spec fn label_prefix() -> Seq<char> {
    seq!['t', 'i', 'm', 'e', 'r', '-']
}

/// `c` is one of the digits `0` to `9`.
pub open spec fn is_digit(c: char) -> bool {
    '0' <= c <= '9'
}

/// The digit that stands for `d`, for `d < 10`.
pub open spec fn digit_char(d: nat) -> char {
    (('0' as u8) + d) as u8 as char
}

/// The number that the digit `c` stands for.
pub open spec fn digit_value(c: char) -> nat {
    (c as u8 - '0' as u8) as nat
}

/// Every character of `s` is a digit.
pub open spec fn all_digits(s: Seq<char>) -> bool {
    forall|i: int| 0 <= i < s.len() ==> is_digit(#[trigger] s[i])
}

/// `n` written in decimal, without sign and without leading zeros.
pub open spec fn decimal_text(n: nat) -> Seq<char>
    decreases n,
{
    if n < 10 {
        seq![digit_char(n)]
    } else {
        decimal_text(n / 10).push(digit_char(n % 10))
    }
}

/// The number that a run of digits denotes; zero for the empty run.
pub open spec fn digits_value(s: Seq<char>) -> nat
    decreases s.len(),
{
    if s.len() == 0 {
        0
    } else {
        digits_value(s.drop_last()) * 10 + digit_value(s.last())
    }
}

/// `s` without its leading `+`, if it has one.
pub open spec fn unsigned_part(s: Seq<char>) -> Seq<char> {
    if s.len() > 0 && s[0] == '+' {
        s.skip(1)
    } else {
        s
    }
}

/// The number that `s` denotes, if it is an unsigned decimal integer of at
/// most `u32::MAX`.
pub open spec fn number_of(s: Seq<char>) -> Option<u32> {
    let digits = unsigned_part(s);
    if digits.len() > 0 && all_digits(digits) && digits_value(digits) <= u32::MAX {
        Some(digits_value(digits) as u32)
    } else {
        None
    }
}

/// The label that carries the number `n`.
pub open spec fn label_text(n: nat) -> Seq<char> {
    label_prefix() + decimal_text(n)
}

/// `id` starts with the label prefix.
pub open spec fn has_label_prefix(id: Seq<char>) -> bool {
    id.len() >= label_prefix().len() && id.take(label_prefix().len() as int) =~= label_prefix()
}

/// The number that the label `id` carries, if `id` is the label prefix
/// followed by a number.
pub open spec fn label_number(id: Seq<char>) -> Option<u32> {
    if has_label_prefix(id) {
        number_of(id.skip(label_prefix().len() as int))
    } else {
        None
    }
}

/// A decimal text is a non-empty run of digits that denotes its number.
pub proof fn lemma_decimal_text_denotes(n: nat)
    ensures
        decimal_text(n).len() >= 1,
        all_digits(decimal_text(n)),
        digits_value(decimal_text(n)) == n,
    decreases n,
{
    if n < 10 {
        let text = decimal_text(n);
        assert(text.drop_last().len() == 0);
        assert(digits_value(text.drop_last()) == 0);
        assert(text.last() == digit_char(n));
    } else {
        lemma_decimal_text_denotes(n / 10);
        let head = decimal_text(n / 10);
        let text = decimal_text(n);
        assert(text.drop_last() =~= head);
        assert(text.last() == digit_char(n % 10));
        assert forall|i: int| 0 <= i < text.len() implies is_digit(#[trigger] text[i]) by {
            if i < head.len() {
                assert(text[i] == head[i]);
            }
        }
    }
}

/// Different numbers have different decimal texts.
pub proof fn lemma_decimal_text_injective(a: nat, b: nat)
    requires
        decimal_text(a) == decimal_text(b),
    ensures
        a == b,
{
    lemma_decimal_text_denotes(a);
    lemma_decimal_text_denotes(b);
}

/// Different numbers have different labels: a label is issued for one number
/// only.
pub proof fn lemma_label_text_injective(a: nat, b: nat)
    requires
        label_text(a) == label_text(b),
    ensures
        a == b,
{
    let cut = label_prefix().len() as int;
    assert(label_text(a).skip(cut) =~= decimal_text(a));
    assert(label_text(b).skip(cut) =~= decimal_text(b));
    lemma_decimal_text_injective(a, b);
}

/// Reading a generated label gives back the number it was made from.
pub proof fn lemma_label_round_trip(n: nat)
    requires
        n <= u32::MAX,
    ensures
        has_label_prefix(label_text(n)),
        label_number(label_text(n)) == Some(n as u32),
{
    let cut = label_prefix().len() as int;
    let text = decimal_text(n);
    lemma_decimal_text_denotes(n);
    assert(label_text(n).take(cut) =~= label_prefix());
    assert(label_text(n).skip(cut) =~= text);
    assert(is_digit(text[0]));
    assert(unsigned_part(text) == text);
}

/// Extending a run of digits never lowers the number it denotes.
proof fn lemma_digits_value_grows(s: Seq<char>, k: int)
    requires
        0 <= k <= s.len(),
    ensures
        digits_value(s.take(k)) <= digits_value(s),
    decreases s.len(),
{
    if k == s.len() {
        assert(s.take(k) =~= s);
    } else {
        assert(s.drop_last().take(k) =~= s.take(k));
        lemma_digits_value_grows(s.drop_last(), k);
    }
}

/// The text of one digit.
fn digit_text(d: u32) -> (text: &'static str)
    requires
        d < 10,
    ensures
        text@ == seq![digit_char(d as nat)],
{
    proof {
        reveal_strlit("0");
        reveal_strlit("1");
        reveal_strlit("2");
        reveal_strlit("3");
        reveal_strlit("4");
        reveal_strlit("5");
        reveal_strlit("6");
        reveal_strlit("7");
        reveal_strlit("8");
        reveal_strlit("9");
    }
    let text: &'static str = if d == 0 {
        "0"
    } else if d == 1 {
        "1"
    } else if d == 2 {
        "2"
    } else if d == 3 {
        "3"
    } else if d == 4 {
        "4"
    } else if d == 5 {
        "5"
    } else if d == 6 {
        "6"
    } else if d == 7 {
        "7"
    } else if d == 8 {
        "8"
    } else {
        "9"
    };
    assert(text@ =~= seq![digit_char(d as nat)]);
    text
}

/// Appends `n` in decimal to `out`.
pub fn push_decimal(out: &mut String, n: u32)
    ensures
        final(out)@ == old(out)@ + decimal_text(n as nat),
    decreases n,
{
    if n >= 10 {
        push_decimal(out, n / 10);
    }
    out.append(digit_text(n % 10));
    proof {
        let tail = seq![digit_char((n % 10) as nat)];
        if n >= 10 {
            let head = decimal_text((n / 10) as nat);
            assert(decimal_text(n as nat) =~= head + tail);
            assert(out@ =~= old(out)@ + decimal_text(n as nat));
        } else {
            assert(decimal_text(n as nat) =~= tail);
        }
    }
}

/// The label that carries the number `n`: `timer-` and `n` in decimal.
pub fn label_for(n: u32) -> (label: String)
    ensures
        label@ == label_text(n as nat),
{
    proof {
        reveal_strlit("timer-");
    }
    let mut label: String = String::from_str("timer-");
    assert(label@ =~= label_prefix());
    push_decimal(&mut label, n);
    label
}

/// The characters of `text`, in order.
fn chars_of(text: &str) -> (chars: Vec<char>)
    ensures
        chars@ == text@,
{
    let mut chars: Vec<char> = Vec::new();
    for c in walk: text.chars()
        invariant
            walk.seq() == text@,
            chars@ == walk.seq().take(walk.index() as int),
    {
        chars.push(c);
    }
    chars
}

/// Reads the characters from position `from` on as an unsigned decimal
/// integer.
///
/// Returns the number when those characters are an optional `+` followed by
/// one or more digits whose value is at most `u32::MAX`, and `None` for any
/// other text.
fn read_number(chars: &Vec<char>, from: usize) -> (number: Option<u32>)
    requires
        from <= chars@.len(),
    ensures
        number == number_of(chars@.skip(from as int)),
{
    let len: usize = chars.len();
    let ghost digits = unsigned_part(chars@.skip(from as int));
    let mut at: usize = from;
    if at < len && chars[at] == '+' {
        at = at + 1;
    }
    let start: usize = at;
    assert(digits =~= chars@.skip(start as int));
    if at == len {
        return None;
    }
    let mut value: u32 = 0;
    while at < len
        invariant
            start <= at <= len,
            len == chars@.len(),
            digits == unsigned_part(chars@.skip(from as int)),
            digits == chars@.skip(start as int),
            all_digits(digits.take(at - start)),
            value == digits_value(digits.take(at - start)),
        decreases len - at,
    {
        let c: char = chars[at];
        let ghost seen = digits.take(at - start);
        let ghost next = digits.take(at - start + 1);
        assert(next.drop_last() =~= seen);
        assert(next.last() == c);
        if !('0' <= c && c <= '9') {
            assert(!is_digit(digits[at - start]));
            return None;
        }
        let d: u32 = (c as u32) - ('0' as u32);
        assert(d == digit_value(c));
        if value > (u32::MAX - d) / 10 {
            proof {
                assert(digits_value(next) > u32::MAX);
                lemma_digits_value_grows(digits, at - start + 1);
            }
            return None;
        }
        value = value * 10 + d;
        at = at + 1;
        assert forall|i: int| 0 <= i < next.len() implies is_digit(#[trigger] next[i]) by {
            if i < seen.len() {
                assert(next[i] == seen[i]);
            }
        }
    }
    assert(digits.take(at - start) =~= digits);
    Some(value)
}

/// Reads the number that the label `id` carries.
///
/// Returns the number when `id` is `timer-` followed by an unsigned decimal
/// integer of at most `u32::MAX`, and `None` for any other text.
pub fn parse_label(id: &str) -> (number: Option<u32>)
    ensures
        number == label_number(id@),
{
    let chars: Vec<char> = chars_of(id);
    if chars.len() < 6 {
        return None;
    }
    let matches: bool = chars[0] == 't' && chars[1] == 'i' && chars[2] == 'm' && chars[3] == 'e'
        && chars[4] == 'r' && chars[5] == '-';
    if !matches {
        assert(!has_label_prefix(id@)) by {
            let head = id@.take(6);
            if has_label_prefix(id@) {
                assert(head[0] == 't' && head[1] == 'i' && head[2] == 'm' && head[3] == 'e'
                    && head[4] == 'r' && head[5] == '-');
            }
        }
        return None;
    }
    assert(has_label_prefix(id@));
    read_number(&chars, 6)
}

/// A label can be issued for `counter`: the number still fits the range
/// from which numbers are read back.
pub open spec fn can_issue(counter: nat) -> bool {
    counter <= u32::MAX
}

/// The counter after it has been told that the label `id` is in use: one
/// more than the number of `id` where that number is not below the counter,
/// and the counter itself for any other text.
pub open spec fn reconciled(counter: nat, id: Seq<char>) -> nat {
    match label_number(id) {
        Some(n) => if n >= counter {
            n as nat + 1
        } else {
            counter
        },
        None => counter,
    }
}

/// Issues the numbers of window labels in increasing order.
///
/// The allocator holds one counter, the number of the next label. Every call
/// takes it by `&mut`, so two calls never overlap; a program that shares one
/// allocator between threads keeps it behind a lock.
#[derive(Debug)]
pub struct IdAllocator {
    next: u64,
}

impl IdAllocator {
    /// The number that the next label will carry.
    pub closed spec fn counter(&self) -> nat {
        self.next as nat
    }

    /// An allocator whose first label is `timer-1`.
    pub fn new() -> (allocator: Self)
        ensures
            allocator.counter() == FIRST_NUMBER,
    {
        IdAllocator { next: FIRST_NUMBER as u64 }
    }

    /// The number that the next label will carry.
    pub fn next_number(&self) -> (number: u64)
        ensures
            number == self.counter(),
    {
        self.next
    }

    /// Issues the next label and moves the counter past it.
    ///
    /// Returns `None`, and leaves the counter alone, once every number up to
    /// `u32::MAX` has been passed.
    pub fn next_id(&mut self) -> (id: Option<String>)
        ensures
            match id {
                Some(label) => {
                    &&& can_issue(old(self).counter())
                    &&& label@ == label_text(old(self).counter())
                    &&& final(self).counter() == old(self).counter() + 1
                },
                None => {
                    &&& !can_issue(old(self).counter())
                    &&& final(self).counter() == old(self).counter()
                },
            },
    {
        if self.next > u32::MAX as u64 {
            return None;
        }
        let label: String = label_for(self.next as u32);
        self.next = self.next + 1;
        Some(label)
    }

    /// Takes note that the label `id` is in use.
    ///
    /// Where `id` carries a number that is not below the counter, the counter
    /// moves to one past that number. Any other text, and any smaller number,
    /// leaves the counter as it is.
    pub fn reconcile(&mut self, id: &str)
        ensures
            final(self).counter() == reconciled(old(self).counter(), id@),
    {
        match parse_label(id) {
            Some(n) => {
                if n as u64 >= self.next {
                    self.next = n as u64 + 1;
                }
            },
            None => {},
        }
    }
}

/// Reconciling never lowers the counter, and a text without a number, or with
/// a number below the counter, leaves it unchanged.
pub proof fn lemma_reconcile_never_decreases(counter: nat, id: Seq<char>)
    ensures
        reconciled(counter, id) >= counter,
        label_number(id) is None ==> reconciled(counter, id) == counter,
        label_number(id) matches Some(n) && n < counter ==> reconciled(counter, id) == counter,
{
}

/// After reconciling with the label of `n`, the counter is past `n`: exactly
/// one past it where it was not beyond `n` before.
pub proof fn lemma_reconcile_passes_label(counter: nat, n: nat)
    requires
        n <= u32::MAX,
    ensures
        reconciled(counter, label_text(n)) > n,
        counter <= n ==> reconciled(counter, label_text(n)) == n + 1,
        counter > n ==> reconciled(counter, label_text(n)) == counter,
{
    lemma_label_round_trip(n);
}

/// One call on an allocator.
pub enum Call {
    /// A call of `next_id`.
    NextId,
    /// A call of `reconcile` with the given text.
    Reconcile(Seq<char>),
}

/// The counter after `calls` have been made, in order, on an allocator whose
/// counter was `counter`.
pub open spec fn counter_after(counter: nat, calls: Seq<Call>) -> nat
    decreases calls.len(),
{
    if calls.len() == 0 {
        counter
    } else {
        let before = counter_after(counter, calls.drop_last());
        match calls.last() {
            Call::NextId => if can_issue(before) {
                before + 1
            } else {
                before
            },
            Call::Reconcile(id) => reconciled(before, id),
        }
    }
}

/// The numbers of the labels that `calls` issue, in the order of issue.
pub open spec fn numbers_issued(counter: nat, calls: Seq<Call>) -> Seq<nat>
    decreases calls.len(),
{
    if calls.len() == 0 {
        Seq::empty()
    } else {
        let earlier = numbers_issued(counter, calls.drop_last());
        let before = counter_after(counter, calls.drop_last());
        match calls.last() {
            Call::NextId => if can_issue(before) {
                earlier.push(before)
            } else {
                earlier
            },
            Call::Reconcile(_) => earlier,
        }
    }
}

/// The labels that `calls` issue, in the order of issue.
pub open spec fn labels_issued(counter: nat, calls: Seq<Call>) -> Seq<Seq<char>> {
    numbers_issued(counter, calls).map_values(|n: nat| label_text(n))
}

/// Over any run of calls the counter never goes down, and the numbers issued
/// go strictly up, starting no lower than the first counter and ending below
/// the last.
pub proof fn lemma_issued_numbers_increase(counter: nat, calls: Seq<Call>)
    ensures
        counter <= counter_after(counter, calls),
        forall|i: int|
            0 <= i < numbers_issued(counter, calls).len() ==> {
                &&& counter <= #[trigger] numbers_issued(counter, calls)[i]
                &&& numbers_issued(counter, calls)[i] < counter_after(counter, calls)
                &&& can_issue(numbers_issued(counter, calls)[i])
            },
        forall|i: int, j: int|
            0 <= i < j < numbers_issued(counter, calls).len() ==> #[trigger] numbers_issued(
                counter,
                calls,
            )[i] < #[trigger] numbers_issued(counter, calls)[j],
    decreases calls.len(),
{
    if calls.len() > 0 {
        let prior = calls.drop_last();
        lemma_issued_numbers_increase(counter, prior);
        let earlier = numbers_issued(counter, prior);
        let before = counter_after(counter, prior);
        let numbers = numbers_issued(counter, calls);
        let after = counter_after(counter, calls);
        assert(before <= after);
        assert forall|i: int| 0 <= i < numbers.len() implies counter <= #[trigger] numbers[i]
            && numbers[i] < after && can_issue(numbers[i]) by {
            if i < earlier.len() {
                assert(numbers[i] == earlier[i]);
            }
        }
        assert forall|i: int, j: int| 0 <= i < j < numbers.len() implies #[trigger] numbers[i]
            < #[trigger] numbers[j] by {
            assert(numbers[i] == earlier[i]);
            if j < earlier.len() {
                assert(numbers[j] == earlier[j]);
            }
        }
    }
}

/// However an allocator is used, it never issues one label twice.
pub proof fn lemma_issued_labels_distinct(counter: nat, calls: Seq<Call>)
    ensures
        labels_issued(counter, calls).no_duplicates(),
{
    let numbers = numbers_issued(counter, calls);
    let labels = labels_issued(counter, calls);
    lemma_issued_numbers_increase(counter, calls);
    assert forall|i: int, j: int| 0 <= i < labels.len() && 0 <= j < labels.len() && i != j implies labels[i]
        != labels[j] by {
        if labels[i] == labels[j] {
            lemma_label_text_injective(numbers[i], numbers[j]);
            if i < j {
                assert(numbers[i] < numbers[j]);
            } else {
                assert(numbers[j] < numbers[i]);
            }
        }
    }
}

/// A label that the allocator has been told of is never issued afterwards,
/// whatever calls follow.
pub proof fn lemma_reconciled_label_not_reissued(counter: nat, id: Seq<char>, later: Seq<Call>)
    ensures
        !labels_issued(reconciled(counter, id), later).contains(id),
{
    let start = reconciled(counter, id);
    let numbers = numbers_issued(start, later);
    let labels = labels_issued(start, later);
    lemma_issued_numbers_increase(start, later);
    assert forall|i: int| 0 <= i < labels.len() implies labels[i] != id by {
        let k = numbers[i];
        assert(start <= k && can_issue(k));
        lemma_label_round_trip(k);
    }
}

} // verus!
