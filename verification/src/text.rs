//! Text helpers: strings as sequences of characters, and decimal numbers.

use vstd::prelude::*;

verus! {

/// `String::push`: the string afterwards is the string before with the
/// character appended.
pub assume_specification[ String::push ](s: &mut String, c: char)
    ensures
        final(s)@ == old(s)@.push(c),
;

/// `str::eq`, which `==` on string slices calls: two strings are equal
/// exactly if they hold the same characters in the same order.
pub assume_specification[ <str as PartialEq>::eq ](a: &str, b: &str) -> (r: bool)
    ensures
        r == (a@ == b@),
;

/// The characters of `s`, in order.
pub fn chars_of(s: &str) -> (chars: Vec<char>)
    ensures
        chars@ == s@,
{
    let mut chars: Vec<char> = Vec::new();
    for c in it: s.chars()
        invariant
            chars@ == it.seq().take(it.index() as int),
            it.seq() == s@,
    {
        chars.push(c);
    }
    chars
}

/// The string made of `chars`, in order.
pub fn string_of(chars: &[char]) -> (s: String)
    ensures
        s@ == chars@,
{
    let mut s = String::new();
    let mut i: usize = 0;
    while i < chars.len()
        invariant
            i <= chars@.len(),
            s@ == chars@.take(i as int),
        decreases chars@.len() - i,
    {
        s.push(chars[i]);
        i += 1;
    }
    s
}

/// The character of a decimal digit.
pub open spec fn decimal_digit(d: nat) -> char
    recommends
        d < 10,
{
    (0x30 + d) as char
}

/// The decimal numeral of `n`, without leading zeros.
pub open spec fn decimal(n: nat) -> Seq<char>
    decreases n,
{
    if n < 10 {
        seq![decimal_digit(n)]
    } else {
        decimal(n / 10).push(decimal_digit(n % 10))
    }
}

/// Writes `n` as a decimal numeral.
pub fn decimal_string(n: u64) -> (s: String)
    ensures
        s@ == decimal(n as nat),
{
    // Digits from the least significant one upwards.
    let mut reversed: Vec<char> = Vec::new();
    let mut rest: u64 = n;
    let ghost mut tail: Seq<char> = Seq::empty();
    while rest >= 10
        invariant
            reversed@.len() == tail.len(),
            forall|i: int|
                0 <= i < tail.len() ==> #[trigger] reversed@[i] == tail[tail.len() - 1 - i],
            decimal(n as nat) == decimal(rest as nat) + tail,
        decreases rest,
    {
        let d: u8 = (rest % 10) as u8;
        let c: char = (0x30 + d) as char;
        proof {
            let ghost shorter = decimal((rest / 10) as nat);
            assert(decimal(rest as nat) == shorter.push(c));
            assert(shorter.push(c) + tail =~= shorter + (seq![c] + tail));
            tail = seq![c] + tail;
        }
        reversed.push(c);
        rest = rest / 10;
    }
    let first: char = (0x30 + (rest as u8)) as char;
    assert(decimal(rest as nat) == seq![first]);
    let mut s = String::new();
    s.push(first);
    let mut i: usize = reversed.len();
    while i > 0
        invariant
            i <= reversed@.len(),
            reversed@.len() == tail.len(),
            forall|j: int|
                0 <= j < tail.len() ==> #[trigger] reversed@[j] == tail[tail.len() - 1 - j],
            s@ == seq![first] + tail.take(tail.len() - i),
        decreases i,
    {
        i -= 1;
        s.push(reversed[i]);
        assert(s@ =~= seq![first] + tail.take(tail.len() - i));
    }
    assert(tail.take(tail.len() as int) =~= tail);
    s
}

/// Number of terminal columns that `c` takes: one for an ASCII character,
/// two for any other.
pub open spec fn char_width(c: char) -> nat {
    if (c as u32) < 0x80 {
        1
    } else {
        2
    }
}

/// Number of terminal columns that `s` takes.
pub open spec fn display_width_spec(s: Seq<char>) -> nat
    decreases s.len(),
{
    if s.len() == 0 {
        0
    } else {
        display_width_spec(s.drop_last()) + char_width(s.last())
    }
}

proof fn lemma_width_from_front(s: Seq<char>)
    requires
        s.len() > 0,
    ensures
        display_width_spec(s) == char_width(s[0]) + display_width_spec(s.drop_first()),
    decreases s.len(),
{
    if s.len() == 1 {
        assert(s.drop_last() =~= Seq::<char>::empty());
        assert(s.drop_first() =~= Seq::<char>::empty());
    } else {
        lemma_width_from_front(s.drop_last());
        assert(s.drop_last().drop_first() =~= s.drop_first().drop_last());
        assert(s.drop_first().last() == s.last());
        assert(s.drop_last()[0] == s[0]);
    }
}

proof fn lemma_width_within_bytes(s: Seq<char>)
    ensures
        display_width_spec(s) <= vstd::utf8::encode_utf8(s).len(),
    decreases s.len(),
{
    if s.len() > 0 {
        lemma_width_from_front(s);
        lemma_width_within_bytes(s.drop_first());
        vstd::utf8::char_is_scalar(s[0]);
    }
}

proof fn lemma_width_of_prefix(s: Seq<char>, i: int)
    requires
        0 <= i <= s.len(),
    ensures
        display_width_spec(s.take(i)) <= display_width_spec(s),
    decreases s.len() - i,
{
    if i < s.len() {
        lemma_width_of_prefix(s, i + 1);
        assert(s.take(i + 1).drop_last() =~= s.take(i));
    } else {
        assert(s.take(i) =~= s);
    }
}

/// Number of terminal columns that `s` takes: one for each ASCII character
/// and two for each other character.
pub fn display_width(s: &str) -> (width: usize)
    ensures
        width == display_width_spec(s@),
{
    let byte_len = s.as_bytes().len();
    proof {
        lemma_width_within_bytes(s@);
    }
    let mut width: usize = 0;
    for c in it: s.chars()
        invariant
            it.seq() == s@,
            width == display_width_spec(it.seq().take(it.index() as int)),
            display_width_spec(s@) <= byte_len,
    {
        proof {
            let i = it.index() as int;
            lemma_width_of_prefix(s@, i + 1);
            assert(s@.take(i + 1).drop_last() =~= s@.take(i));
            assert(s@.take(i + 1).last() == c);
        }
        if (c as u32) < 0x80 {
            width += 1;
        } else {
            width += 2;
        }
    }
    assert(s@.take(s@.len() as int) =~= s@);
    width
}

} // verus!
