//! Helpers on sequences and on strings.
//!
//! A string is spoken of through its view, a `Seq<char>`.

use vstd::prelude::*;
use vstd::std_specs::iter::IteratorSpec;
use vstd::string::StringExecFns;

verus! {

/// The index of the first `c` in `s`, or `s.len()` where `s` holds none.
pub open spec fn position<A>(s: Seq<A>, c: A) -> int
    decreases s.len(),
{
    if s.len() == 0 || s[0] == c {
        0
    } else {
        1 + position(s.drop_first(), c)
    }
}

/// `position` is in range, nothing before it is `c`, and it holds `c`
/// unless it is the length.
pub proof fn lemma_position<A>(s: Seq<A>, c: A)
    ensures
        0 <= position(s, c) <= s.len(),
        forall|j: int| 0 <= j < position(s, c) ==> s[j] != c,
        position(s, c) < s.len() ==> s[position(s, c)] == c,
        position(s, c) < s.len() <==> s.contains(c),
    decreases s.len(),
{
    if s.len() == 0 || s[0] == c {
        if s.len() > 0 {
            assert(s.contains(c));
        }
    } else {
        let t = s.drop_first();
        lemma_position(t, c);
        assert forall|j: int| 0 <= j < position(s, c) implies s[j] != c by {
            if j > 0 {
                assert(s[j] == t[j - 1]);
            }
        }
        if position(t, c) < t.len() {
            assert(s[position(s, c)] == t[position(t, c)]);
            assert(s.contains(c));
        } else if s.contains(c) {
            let k = choose|k: int| 0 <= k < s.len() && s[k] == c;
            assert(t[k - 1] == c);
        }
    }
}

/// An index that is in range, with no `c` before it and with `c` at it unless
/// it is the length, is `position`.
pub proof fn lemma_position_unique<A>(s: Seq<A>, c: A, p: int)
    requires
        0 <= p <= s.len(),
        forall|j: int| 0 <= j < p ==> s[j] != c,
        p < s.len() ==> s[p] == c,
    ensures
        position(s, c) == p,
{
    lemma_position(s, c);
    let q = position(s, c);
    if q < p {
        assert(s[q] != c);
    } else if p < q {
        assert(s[p] == c);
    }
}

/// A sequence put together from two holds what either of them holds.
pub proof fn lemma_contains_in_concat<A>(a: Seq<A>, b: Seq<A>, c: A)
    ensures
        (a + b).contains(c) <==> a.contains(c) || b.contains(c),
{
    let s = a + b;
    if a.contains(c) {
        let i = a.index_of(c);
        assert(s[i] == c);
    }
    if b.contains(c) {
        let i = b.index_of(c);
        assert(s[a.len() + i] == c);
    }
    if s.contains(c) {
        let i = s.index_of(c);
        if i < a.len() {
            assert(a[i] == c);
        } else {
            assert(b[i - a.len()] == c);
        }
    }
}

/// Two sequences with a separator between them hold no `c` where neither of
/// them does and the separator is another.
pub proof fn lemma_joined_without<A>(a: Seq<A>, separator: A, b: Seq<A>, c: A)
    requires
        !a.contains(c),
        !b.contains(c),
        separator != c,
    ensures
        !(a + seq![separator] + b).contains(c),
{
    lemma_contains_in_concat(a, seq![separator], c);
    lemma_contains_in_concat(a + seq![separator], b, c);
    if seq![separator].contains(c) {
        let i = seq![separator].index_of(c);
        assert(seq![separator][i] == separator);
    }
}

/// Where `a` holds no `c`, the first `c` of `a`, `c`, `b` in a row is the
/// one in the middle: `a` stands before it and `b` after it.
pub proof fn lemma_position_of_separator<A>(a: Seq<A>, c: A, b: Seq<A>)
    requires
        !a.contains(c),
    ensures
        (a + seq![c] + b).contains(c),
        position(a + seq![c] + b, c) == a.len(),
        (a + seq![c] + b).take(a.len() as int) == a,
        (a + seq![c] + b).skip(a.len() as int + 1) == b,
{
    let s = a + seq![c] + b;
    assert(s[a.len() as int] == c);
    assert forall|j: int| 0 <= j < a.len() implies s[j] != c by {
        assert(s[j] == a[j]);
        assert(a.contains(a[j]));
    }
    lemma_position_unique(s, c, a.len() as int);
    assert(s.take(a.len() as int) =~= a);
    assert(s.skip(a.len() as int + 1) =~= b);
}

/// Where `s` holds no `c`, the position of `c` is the length of `s`, and
/// all of `s` stands before it.
pub proof fn lemma_position_without<A>(s: Seq<A>, c: A)
    requires
        !s.contains(c),
    ensures
        position(s, c) == s.len(),
        s.take(position(s, c)) == s,
{
    lemma_position(s, c);
    assert(s.take(s.len() as int) =~= s);
}

/// The characters of `s`, in order.
pub fn to_chars(s: &str) -> (chars: Vec<char>)
    ensures
        chars@ == s@,
{
    let mut chars: Vec<char> = Vec::new();
    let it = s.chars();
    for c in iter: it
        invariant
            chars@ == iter.seq().take(iter.index()),
            iter.seq() == s@,
    {
        chars.push(c);
    }
    chars
}

/// The index of the first `c` at or after `from`, or the length where there
/// is none; the length also where `from` lies beyond it.
pub fn find_from(chars: &Vec<char>, from: usize, c: char) -> (p: usize)
    ensures
        p <= chars.len(),
        from <= chars.len() ==> from <= p && p == from + position(chars@.skip(from as int), c),
        from > chars.len() ==> p == chars.len(),
{
    if from > chars.len() {
        return chars.len();
    }
    let mut i: usize = from;
    while i < chars.len() && chars[i] != c
        invariant
            from <= i <= chars.len(),
            forall|j: int| from <= j < i ==> chars@[j] != c,
        decreases chars.len() - i,
    {
        i += 1;
    }
    proof {
        lemma_position_unique(chars@.skip(from as int), c, i - from);
    }
    i
}

/// Whether the two strings hold the same characters.
pub fn str_eq(a: &str, b: &str) -> (same: bool)
    ensures
        same == (a@ == b@),
{
    let x = to_chars(a);
    let y = to_chars(b);
    if x.len() != y.len() {
        return false;
    }
    let mut i: usize = 0;
    while i < x.len()
        invariant
            i <= x.len(),
            x.len() == y.len(),
            x@ == a@,
            y@ == b@,
            forall|j: int| 0 <= j < i ==> x@[j] == y@[j],
        decreases x.len() - i,
    {
        if x[i] != y[i] {
            return false;
        }
        i += 1;
    }
    assert(x@ =~= y@);
    true
}

/// Whether `s` begins with `prefix`.
pub fn starts_with(s: &str, prefix: &str) -> (yes: bool)
    ensures
        yes == prefix@.is_prefix_of(s@),
{
    let x = to_chars(s);
    let y = to_chars(prefix);
    if x.len() < y.len() {
        return false;
    }
    let mut i: usize = 0;
    while i < y.len()
        invariant
            i <= y.len() <= x.len(),
            x@ == s@,
            y@ == prefix@,
            forall|j: int| 0 <= j < i ==> x@[j] == y@[j],
        decreases y.len() - i,
    {
        if x[i] != y[i] {
            assert(x@.subrange(0, y@.len() as int)[i as int] != y@[i as int]);
            return false;
        }
        i += 1;
    }
    assert(y@ =~= x@.subrange(0, y@.len() as int));
    true
}

/// Splits `s` at its first `c`: what stands before it and what stands after.
pub fn split_once(s: &str, c: char) -> (parts: Option<(&str, &str)>)
    ensures
        parts is Some <==> s@.contains(c),
        parts matches Some((before, after)) ==> {
            &&& before@ == s@.take(position(s@, c))
            &&& after@ == s@.skip(position(s@, c) + 1)
        },
{
    let chars = to_chars(s);
    let p = find_from(&chars, 0, c);
    proof {
        assert(chars@.skip(0) =~= s@);
        lemma_position(s@, c);
    }
    if p < chars.len() {
        let before = s.substring_char(0, p);
        let after = s.substring_char(p + 1, chars.len());
        Some((before, after))
    } else {
        None
    }
}

/// `a` followed by `b`, as a new string.
pub fn joined(a: &str, b: &str) -> (both: String)
    ensures
        both@ == a@ + b@,
{
    let mut both = String::from_str(a);
    both.append(b);
    both
}

/// The character that stands for the digit `d`.
pub open spec fn digit_char(d: int) -> char {
    if d == 0 {
        '0'
    } else if d == 1 {
        '1'
    } else if d == 2 {
        '2'
    } else if d == 3 {
        '3'
    } else if d == 4 {
        '4'
    } else if d == 5 {
        '5'
    } else if d == 6 {
        '6'
    } else if d == 7 {
        '7'
    } else if d == 8 {
        '8'
    } else {
        '9'
    }
}

/// The decimal digits of `n`, the most significant first.
pub open spec fn digits(n: nat) -> Seq<char>
    decreases n,
{
    if n < 10 {
        seq![digit_char(n as int)]
    } else {
        digits(n / 10).push(digit_char((n % 10) as int))
    }
}

/// The number `i` in decimal, with `-` before it where it is negative.
pub open spec fn decimal(i: int) -> Seq<char> {
    if i < 0 {
        seq!['-'] + digits((-i) as nat)
    } else {
        digits(i as nat)
    }
}

/// The characters of digits that were collected from the least significant
/// up, read from the most significant down.
pub open spec fn read_down(low_first: Seq<u8>) -> Seq<char> {
    Seq::new(low_first.len(), |k: int| digit_char(low_first[low_first.len() - 1 - k] as int))
}

/// The digit `d` as text.
fn digit_str(d: u8) -> (text: &'static str)
    requires
        d < 10,
    ensures
        text@ == seq![digit_char(d as int)],
{
    proof {
        reveal_strlit("0");
        reveal_strlit("1");
        reveal_strlit("2");
        reveal_strlit("3");
        reveal_strlit("4");
        reveal_strlit("5");
        reveal_strlit("6");
        reveal_strlit("7");
        reveal_strlit("8");
        reveal_strlit("9");
    }
    let text = if d == 0 {
        "0"
    } else if d == 1 {
        "1"
    } else if d == 2 {
        "2"
    } else if d == 3 {
        "3"
    } else if d == 4 {
        "4"
    } else if d == 5 {
        "5"
    } else if d == 6 {
        "6"
    } else if d == 7 {
        "7"
    } else if d == 8 {
        "8"
    } else {
        "9"
    };
    assert(text@ =~= seq![digit_char(d as int)]);
    text
}

/// `value` written in decimal.
pub fn decimal_string(value: i64) -> (text: String)
    ensures
        text@ == decimal(value as int),
{
    let magnitude: u64 = if value < 0 {
        (-(value as i128)) as u64
    } else {
        value as u64
    };
    let mut rest: u64 = magnitude;
    let mut low_first: Vec<u8> = Vec::new();
    assert(digits(rest as nat) + read_down(low_first@) =~= digits(magnitude as nat));
    while rest >= 10
        invariant
            digits(magnitude as nat) == digits(rest as nat) + read_down(low_first@),
            forall|k: int| 0 <= k < low_first.len() ==> low_first@[k] < 10,
        decreases rest,
    {
        let ghost before = low_first@;
        let d = (rest % 10) as u8;
        low_first.push(d);
        assert(digits(rest as nat) + read_down(before) =~= digits((rest / 10) as nat) + read_down(
            low_first@,
        ));
        rest = rest / 10;
    }
    let ghost before = low_first@;
    low_first.push(rest as u8);
    assert(read_down(low_first@) =~= digits(rest as nat) + read_down(before));
    let mut text = if value < 0 {
        String::from_str("-")
    } else {
        String::new()
    };
    proof {
        reveal_strlit("-");
    }
    let ghost sign = text@;
    assert(sign =~= if value < 0 {
        seq!['-']
    } else {
        Seq::<char>::empty()
    });
    let mut i: usize = low_first.len();
    assert(text@ =~= sign + read_down(low_first@).take(0));
    while i > 0
        invariant
            i <= low_first.len(),
            forall|k: int| 0 <= k < low_first.len() ==> low_first@[k] < 10,
            text@ == sign + read_down(low_first@).take(low_first.len() - i),
        decreases i,
    {
        i -= 1;
        text.append(digit_str(low_first[i]));
        assert(text@ =~= sign + read_down(low_first@).take(low_first.len() - i));
    }
    assert(read_down(low_first@).take(low_first.len() as int) =~= read_down(low_first@));
    assert(text@ =~= decimal(value as int));
    text
}

} // verus!
