//! Small string operations with exact contracts.
use vstd::prelude::*;
use vstd::string::*;

verus! {

/// Three-way outcome of comparing two values.
#[derive(Clone, Copy, Debug, PartialEq, Eq, Structural)]
pub enum Order {
    Before,
    Same,
    After,
}

impl Order {
    /// The same comparison with its two sides exchanged.
    pub open spec fn flipped(self) -> Order {
        match self {
            Order::Before => Order::After,
            Order::Same => Order::Same,
            Order::After => Order::Before,
        }
    }

    /// This outcome, or `next` where this one does not decide.
    pub open spec fn or_else(self, next: Order) -> Order {
        if self is Same {
            next
        } else {
            self
        }
    }
}

/// Whether `needle` occurs in `hay` as a run of consecutive characters.
pub open spec fn occurs_in(needle: Seq<char>, hay: Seq<char>) -> bool {
    exists|at: int| occurs_at(needle, hay, at)
}

/// Whether `hay` holds `needle` starting at index `at`.
pub open spec fn occurs_at(needle: Seq<char>, hay: Seq<char>, at: int) -> bool {
    &&& 0 <= at
    &&& at + needle.len() <= hay.len()
    &&& forall|k: int| 0 <= k < needle.len() ==> hay[at + k] == #[trigger] needle[k]
}

/// Dictionary order of two texts by the code points of their characters.
pub open spec fn text_order(a: Seq<char>, b: Seq<char>) -> Order
    decreases a.len(),
{
    if a.len() == 0 {
        if b.len() == 0 {
            Order::Same
        } else {
            Order::Before
        }
    } else if b.len() == 0 {
        Order::After
    } else if a[0] < b[0] {
        Order::Before
    } else if b[0] < a[0] {
        Order::After
    } else {
        text_order(a.drop_first(), b.drop_first())
    }
}

/// The decimal digit for a value below ten.
pub open spec fn digit_char(d: int) -> char {
    (('0' as int) + d) as char
}

/// Decimal notation of a natural number, without leading zeros.
pub open spec fn decimal_nat(n: nat) -> Seq<char>
    decreases n,
{
    if n < 10 {
        seq![digit_char(n as int)]
    } else {
        decimal_nat(n / 10).push(digit_char((n % 10) as int))
    }
}

/// Decimal notation of an integer, with a minus sign where it is negative.
pub open spec fn decimal(n: int) -> Seq<char> {
    if n < 0 {
        seq!['-'] + decimal_nat((-n) as nat)
    } else {
        decimal_nat(n as nat)
    }
}

/// The characters of `text`, in order.
pub fn chars_of(text: &str) -> (out: Vec<char>)
    ensures
        out@ == text@,
{
    let mut out: Vec<char> = Vec::new();
    for c in it: text.chars()
        invariant
            it.seq() == text@,
            out@ == text@.take(it.index()),
    {
        out.push(c);
    }
    out
}

/// Whether `needle` occurs in `hay`.
pub fn contains(hay: &str, needle: &str) -> (found: bool)
    ensures
        found == occurs_in(needle@, hay@),
{
    let hay_chars = chars_of(hay);
    let needle_chars = chars_of(needle);
    if needle_chars.len() > hay_chars.len() {
        return false;
    }
    let last: usize = hay_chars.len() - needle_chars.len();
    let mut at: usize = 0;
    while at <= last
        invariant
            hay_chars@ == hay@,
            needle_chars@ == needle@,
            last == hay@.len() - needle@.len(),
            at <= last + 1,
            forall|p: int| 0 <= p < at ==> !occurs_at(needle@, hay@, p),
        decreases last + 1 - at,
    {
        if matches_at(&hay_chars, &needle_chars, at) {
            return true;
        }
        if at == last {
            return false;
        }
        at = at + 1;
    }
    false
}

/// Whether `hay` holds `needle` starting at index `at`.
fn matches_at(hay: &Vec<char>, needle: &Vec<char>, at: usize) -> (found: bool)
    requires
        at + needle@.len() <= hay@.len(),
    ensures
        found == occurs_at(needle@, hay@, at as int),
{
    let end: usize = hay.len();
    let mut k: usize = 0;
    while k < needle.len()
        invariant
            end == hay@.len(),
            at + needle@.len() <= end,
            k <= needle@.len(),
            forall|j: int| 0 <= j < k ==> hay@[at + j] == #[trigger] needle@[j],
        decreases needle@.len() - k,
    {
        if hay[at + k] != needle[k] {
            return false;
        }
        k = k + 1;
    }
    true
}

/// Compares two texts by the code points of their characters.
pub fn order_texts(a: &str, b: &str) -> (order: Order)
    ensures
        order == text_order(a@, b@),
{
    let left = chars_of(a);
    let right = chars_of(b);
    let mut k: usize = 0;
    proof {
        assert(a@.skip(0) =~= a@);
        assert(b@.skip(0) =~= b@);
    }
    while k < left.len() && k < right.len()
        invariant
            left@ == a@,
            right@ == b@,
            k <= a@.len(),
            k <= b@.len(),
            text_order(a@, b@) == text_order(a@.skip(k as int), b@.skip(k as int)),
        decreases a@.len() - k,
    {
        if left[k] < right[k] {
            return Order::Before;
        }
        if right[k] < left[k] {
            return Order::After;
        }
        proof {
            assert(a@.skip(k as int).drop_first() =~= a@.skip(k + 1));
            assert(b@.skip(k as int).drop_first() =~= b@.skip(k + 1));
        }
        k = k + 1;
    }
    if k < left.len() {
        Order::After
    } else if k < right.len() {
        Order::Before
    } else {
        Order::Same
    }
}

/// The one-character text of a digit.
fn digit_text(d: u32) -> (text: &'static str)
    requires
        d < 10,
    ensures
        text@ == seq![digit_char(d as int)],
{
    proof {
        reveal_strlit("0");
        reveal_strlit("1");
        reveal_strlit("2");
        reveal_strlit("3");
        reveal_strlit("4");
        reveal_strlit("5");
        reveal_strlit("6");
        reveal_strlit("7");
        reveal_strlit("8");
        reveal_strlit("9");
    }
    match d {
        0 => "0",
        1 => "1",
        2 => "2",
        3 => "3",
        4 => "4",
        5 => "5",
        6 => "6",
        7 => "7",
        8 => "8",
        _ => "9",
    }
}

/// Appends the decimal notation of `n` to `out`.
fn append_digits(out: &mut String, n: u32)
    ensures
        final(out)@ == old(out)@ + decimal_nat(n as nat),
    decreases n,
{
    if n >= 10 {
        append_digits(out, n / 10);
    }
    out.append(digit_text(n % 10));
}

/// Decimal notation of a signal strength.
pub fn decimal_text(n: i16) -> (text: String)
    ensures
        text@ == decimal(n as int),
{
    let mut out = String::new();
    if n < 0 {
        proof {
            reveal_strlit("-");
        }
        out.append("-");
        append_digits(&mut out, (-(n as i32)) as u32);
    } else {
        append_digits(&mut out, n as u32);
    }
    out
}

/// The text `first` followed by the text `second`.
pub fn concat_texts(first: &str, second: &str) -> (text: String)
    ensures
        text@ == first@ + second@,
{
    let mut out = String::from_str(first);
    out.append(second);
    out
}

/// A text comes before another exactly when the other comes after it.
pub proof fn text_order_flips(a: Seq<char>, b: Seq<char>)
    ensures
        text_order(b, a) == text_order(a, b).flipped(),
    decreases a.len(),
{
    if a.len() > 0 && b.len() > 0 && a[0] == b[0] {
        text_order_flips(a.drop_first(), b.drop_first());
    }
}

/// Only equal texts compare as the same.
pub proof fn text_order_separates(a: Seq<char>, b: Seq<char>)
    ensures
        text_order(a, b) is Same <==> a == b,
    decreases a.len(),
{
    if a.len() > 0 && b.len() > 0 {
        text_order_separates(a.drop_first(), b.drop_first());
        if a[0] == b[0] {
            assert(a =~= seq![a[0]] + a.drop_first());
            assert(b =~= seq![b[0]] + b.drop_first());
        }
    } else if a.len() == b.len() {
        assert(a =~= b);
    }
}

/// Dictionary order is transitive.
pub proof fn text_order_chains(a: Seq<char>, b: Seq<char>, c: Seq<char>)
    requires
        text_order(a, b) is Before,
        text_order(b, c) is Before,
    ensures
        text_order(a, c) is Before,
    decreases a.len(),
{
    if a.len() > 0 && b.len() > 0 && c.len() > 0 {
        if a[0] == b[0] && b[0] == c[0] {
            text_order_chains(a.drop_first(), b.drop_first(), c.drop_first());
        }
    }
}

/// A text occurs in another exactly when the other is made of something, the text,
/// and something more.
pub proof fn occurring_is_being_a_middle_part(needle: Seq<char>, hay: Seq<char>)
    ensures
        occurs_in(needle, hay) <==> exists|before: Seq<char>, after: Seq<char>|
            hay == #[trigger] (before + needle + after),
{
    if occurs_in(needle, hay) {
        let at = choose|at: int| occurs_at(needle, hay, at);
        let before = hay.take(at);
        let after = hay.skip(at + needle.len());
        assert(hay =~= before + needle + after) by {
            assert forall|k: int| 0 <= k < hay.len() implies #[trigger] hay[k] == (before + needle
                + after)[k] by {
                if at <= k < at + needle.len() {
                    assert(hay[at + (k - at)] == needle[k - at]);
                }
            }
        }
    }
    if exists|before: Seq<char>, after: Seq<char>| hay == #[trigger] (before + needle + after) {
        let (before, after) = choose|before: Seq<char>, after: Seq<char>|
            hay == #[trigger] (before + needle + after);
        assert(occurs_at(needle, hay, before.len() as int));
    }
}

/// Two texts that agree in their first `k` characters are ordered by the next
/// character, and one that ends there comes before one that goes on.
pub proof fn text_order_is_decided_at_the_first_difference(a: Seq<char>, b: Seq<char>, k: int)
    requires
        0 <= k <= a.len(),
        k <= b.len(),
        forall|i: int| 0 <= i < k ==> #[trigger] a[i] == b[i],
    ensures
        k < a.len() && k < b.len() && a[k] < b[k] ==> text_order(a, b) is Before,
        k < a.len() && k < b.len() && a[k] > b[k] ==> text_order(a, b) is After,
        k == a.len() && k < b.len() ==> text_order(a, b) is Before,
        k < a.len() && k == b.len() ==> text_order(a, b) is After,
        k == a.len() && k == b.len() ==> text_order(a, b) is Same,
    decreases k,
{
    if k > 0 {
        assert(a[0] == b[0]);
        let x = a.drop_first();
        let y = b.drop_first();
        assert forall|i: int| 0 <= i < k - 1 implies #[trigger] x[i] == y[i] by {
            assert(a[i + 1] == b[i + 1]);
        }
        text_order_is_decided_at_the_first_difference(x, y, k - 1);
    }
}

/// The number that a run of decimal digits stands for.
pub open spec fn digits_value(digits: Seq<char>) -> int
    decreases digits.len(),
{
    if digits.len() == 0 {
        0
    } else {
        digits_value(digits.drop_last()) * 10 + (digits.last() as int - '0' as int)
    }
}

/// Decimal notation of a natural number is made of digits, has no leading zero, and
/// reads back as the number.
pub proof fn decimal_nat_reads_back(n: nat)
    ensures
        digits_value(decimal_nat(n)) == n,
        decimal_nat(n).len() > 0,
        decimal_nat(n)[0] == '0' ==> n == 0,
        n < 10 ==> decimal_nat(n).len() == 1,
        forall|k: int| 0 <= k < decimal_nat(n).len() ==> '0' <= #[trigger] decimal_nat(n)[k] <= '9',
    decreases n,
{
    let text = decimal_nat(n);
    if n < 10 {
        assert(text.drop_last() =~= Seq::empty());
        assert(digits_value(text.drop_last()) == 0);
        assert(text.last() as int == '0' as int + n);
    } else {
        decimal_nat_reads_back(n / 10);
        assert(text.drop_last() =~= decimal_nat(n / 10));
        assert(text.last() as int == '0' as int + n % 10);
        assert(text[0] == decimal_nat(n / 10)[0]);
    }
}

/// Decimal notation reads back as the number: a minus sign exactly where it is
/// negative, then its digits.
pub proof fn decimal_reads_back(n: int)
    ensures
        n >= 0 ==> digits_value(decimal(n)) == n && decimal(n)[0] != '-',
        n < 0 ==> decimal(n).len() > 1 && decimal(n)[0] == '-' && digits_value(
            decimal(n).drop_first(),
        ) == -n,
        forall|k: int|
            0 <= k < decimal(n).len() && !(k == 0 && n < 0) ==> '0' <= #[trigger] decimal(n)[k]
                <= '9',
        n != 0 ==> decimal(n)[if n < 0 { 1int } else { 0 }] != '0',
{
    if n < 0 {
        decimal_nat_reads_back((-n) as nat);
        assert(decimal(n).drop_first() =~= decimal_nat((-n) as nat));
    } else {
        decimal_nat_reads_back(n as nat);
    }
}

} // verus!
