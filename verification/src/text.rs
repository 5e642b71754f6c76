//! Text: trimming, decimal numerals, and the piece of an address that names a port.
use vstd::prelude::*;

verus! {

/// The characters with the Unicode property `White_Space`.
pub open spec fn is_white_space(c: char) -> bool {
    ||| '\u{9}' <= c <= '\u{d}'
    ||| c == '\u{20}'
    ||| c == '\u{85}'
    ||| c == '\u{a0}'
    ||| c == '\u{1680}'
    ||| '\u{2000}' <= c <= '\u{200a}'
    ||| c == '\u{2028}'
    ||| c == '\u{2029}'
    ||| c == '\u{202f}'
    ||| c == '\u{205f}'
    ||| c == '\u{3000}'
}

/// `s` without the white space that it starts with.
pub open spec fn trimmed_start(s: Seq<char>) -> Seq<char>
    decreases s.len(),
{
    if s.len() > 0 && is_white_space(s.first()) {
        trimmed_start(s.drop_first())
    } else {
        s
    }
}

/// `s` without the white space that it ends with.
pub open spec fn trimmed_end(s: Seq<char>) -> Seq<char>
    decreases s.len(),
{
    if s.len() > 0 && is_white_space(s.last()) {
        trimmed_end(s.drop_last())
    } else {
        s
    }
}

/// `s` without the white space at either end.
pub open spec fn trimmed(s: Seq<char>) -> Seq<char> {
    trimmed_end(trimmed_start(s))
}

/// `str::trim` removes the leading and the trailing characters with the
/// Unicode property `White_Space`, and nothing else.
pub assume_specification[ str::trim ](s: &str) -> (r: &str)
    ensures
        r@ == trimmed(s@),
;

/// `s` as an owned text without the white space at either end.
pub fn trim_text(s: &str) -> (r: String)
    ensures
        r@ == trimmed(s@),
{
    s.trim().to_string()
}

/// Whether two texts hold the same characters.
pub fn same_text(a: &str, b: &str) -> (r: bool)
    ensures
        r == (a@ == b@),
{
    a.to_string() == b.to_string()
}

/// The character of a decimal digit.
pub open spec fn digit_char(d: nat) -> char {
    (48 + d) as char
}

/// The decimal numeral of `n`, without leading zeros.
pub open spec fn decimal(n: nat) -> Seq<char>
    decreases n,
{
    if n < 10 {
        seq![digit_char(n)]
    } else {
        decimal(n / 10).push(digit_char(n % 10))
    }
}

/// The text of one decimal digit.
fn digit_text(d: usize) -> (r: &'static str)
    requires
        d < 10,
    ensures
        r@ == seq![digit_char(d as nat)],
{
    proof {
        reveal_strlit("0");
        reveal_strlit("1");
        reveal_strlit("2");
        reveal_strlit("3");
        reveal_strlit("4");
        reveal_strlit("5");
        reveal_strlit("6");
        reveal_strlit("7");
        reveal_strlit("8");
        reveal_strlit("9");
    }
    match d {
        0 => "0",
        1 => "1",
        2 => "2",
        3 => "3",
        4 => "4",
        5 => "5",
        6 => "6",
        7 => "7",
        8 => "8",
        _ => "9",
    }
}

/// The decimal numeral of `n`.
pub fn decimal_text(n: usize) -> (r: String)
    ensures
        r@ == decimal(n as nat),
    decreases n,
{
    if n < 10 {
        digit_text(n).to_string()
    } else {
        let mut r = decimal_text(n / 10);
        r.append(digit_text(n % 10));
        proof {
            assert(r@ =~= decimal((n / 10) as nat).push(digit_char((n % 10) as nat)));
        }
        r
    }
}

/// What follows the last colon of `s`; all of `s` where it has none.
pub open spec fn after_last_colon(s: Seq<char>) -> Seq<char>
    decreases s.len(),
{
    if s.len() == 0 {
        s
    } else if s.last() == ':' {
        Seq::empty()
    } else {
        after_last_colon(s.drop_last()).push(s.last())
    }
}

/// The port that an address names: what follows its last colon, all of it
/// where there is none.
pub fn port_of(url: &str) -> (r: String)
    ensures
        r@ == after_last_colon(url@),
{
    let mut start: usize = 0;
    let mut seen: usize = 0;
    let total: usize = url.unicode_len();
    for c in it: url.chars()
        invariant
            it.seq() == url@,
            total == url@.len(),
            seen == it.index(),
            start <= seen <= total,
            after_last_colon(url@.take(seen as int)) == url@.subrange(start as int, seen as int),
    {
        proof {
            assert(url@.take(seen + 1).drop_last() =~= url@.take(seen as int));
            assert(url@.take(seen + 1).last() == c);
        }
        seen = seen + 1;
        if c == ':' {
            start = seen;
        }
        proof {
            assert(url@.subrange(seen as int, seen as int) =~= Seq::<char>::empty());
            if c != ':' {
                assert(url@.subrange(start as int, seen as int) =~= url@.subrange(
                    start as int,
                    seen - 1,
                ).push(c));
            }
        }
    }
    proof {
        assert(url@.take(total as int) =~= url@);
    }
    url.substring_char(start, total).to_string()
}

/// Every character of `s` is white space.
pub open spec fn all_white_space(s: Seq<char>) -> bool {
    forall|i: int| 0 <= i < s.len() ==> is_white_space(#[trigger] s[i])
}

proof fn lemma_trimmed_start_splits(s: Seq<char>) -> (lead: Seq<char>)
    ensures
        s == lead + trimmed_start(s),
        all_white_space(lead),
        trimmed_start(s).len() > 0 ==> !is_white_space(trimmed_start(s).first()),
    decreases s.len(),
{
    if s.len() > 0 && is_white_space(s.first()) {
        let rest = lemma_trimmed_start_splits(s.drop_first());
        let lead = seq![s.first()] + rest;
        assert(s =~= seq![s.first()] + s.drop_first());
        assert(lead + trimmed_start(s) =~= seq![s.first()] + (rest + trimmed_start(s)));
        lead
    } else {
        assert(s =~= Seq::<char>::empty() + s);
        Seq::empty()
    }
}

proof fn lemma_trimmed_end_splits(s: Seq<char>) -> (tail: Seq<char>)
    ensures
        s == trimmed_end(s) + tail,
        all_white_space(tail),
        trimmed_end(s).len() > 0 ==> !is_white_space(trimmed_end(s).last()),
    decreases s.len(),
{
    if s.len() > 0 && is_white_space(s.last()) {
        let rest = lemma_trimmed_end_splits(s.drop_last());
        let tail = rest.push(s.last());
        assert(s =~= s.drop_last().push(s.last()));
        assert(trimmed_end(s) + tail =~= (trimmed_end(s) + rest).push(s.last()));
        tail
    } else {
        assert(s =~= s + Seq::<char>::empty());
        Seq::empty()
    }
}

/// Trimming takes white space off both ends and nothing else: the text is its
/// trimmed form between two runs of white space, and the trimmed form neither
/// starts nor ends with white space.
pub proof fn lemma_trimmed_is_the_core(s: Seq<char>)
    ensures
        exists|lead: Seq<char>, tail: Seq<char>| #[trigger]
            (lead + trimmed(s) + tail) == s && all_white_space(lead) && all_white_space(tail),
        trimmed(s).len() > 0 ==> !is_white_space(trimmed(s).first()) && !is_white_space(
            trimmed(s).last(),
        ),
{
    let lead = lemma_trimmed_start_splits(s);
    let tail = lemma_trimmed_end_splits(trimmed_start(s));
    assert(lead + trimmed(s) + tail =~= s);
    if trimmed(s).len() > 0 {
        assert(trimmed_start(s).first() == trimmed(s).first());
    }
}

/// Trimming a trimmed text changes nothing.
pub proof fn lemma_trimmed_idempotent(s: Seq<char>)
    ensures
        trimmed(trimmed(s)) == trimmed(s),
{
    lemma_trimmed_is_the_core(s);
}

/// Different numbers have different decimal numerals.
pub proof fn lemma_decimal_injective(m: nat, n: nat)
    requires
        decimal(m) == decimal(n),
    ensures
        m == n,
    decreases m,
{
    assert(decimal(m).len() == decimal(n).len());
    lemma_decimal_not_empty(m / 10);
    lemma_decimal_not_empty(n / 10);
    assert(decimal(m).last() == digit_char(m % 10));
    assert(decimal(n).last() == digit_char(n % 10));
    if m >= 10 {
        assert(n >= 10);
        assert(decimal(m).drop_last() =~= decimal(m / 10));
        assert(decimal(n).drop_last() =~= decimal(n / 10));
        lemma_decimal_injective(m / 10, n / 10);
    }
}

proof fn lemma_decimal_not_empty(n: nat)
    ensures
        decimal(n).len() > 0,
{
}

/// An address written as a base, a colon and a port names that port.
pub proof fn lemma_port_after_base(base: Seq<char>, port: Seq<char>)
    requires
        !port.contains(':'),
    ensures
        after_last_colon(base.push(':') + port) == port,
    decreases port.len(),
{
    let s = base.push(':') + port;
    if port.len() == 0 {
        assert(s.last() == ':');
        assert(port =~= Seq::<char>::empty());
    } else {
        assert(port[port.len() - 1] != ':');
        assert(s.drop_last() =~= base.push(':') + port.drop_last());
        assert forall|i: int| 0 <= i < port.drop_last().len() implies port.drop_last()[i]
            != ':' by {
            assert(port.contains(port[i]));
        }
        lemma_port_after_base(base, port.drop_last());
        assert(port =~= port.drop_last().push(port.last()));
    }
}

/// An address without a colon is taken for the port as a whole.
pub proof fn lemma_port_without_colon(s: Seq<char>)
    requires
        !s.contains(':'),
    ensures
        after_last_colon(s) == s,
    decreases s.len(),
{
    if s.len() > 0 {
        assert(s[s.len() - 1] != ':');
        assert forall|i: int| 0 <= i < s.drop_last().len() implies s.drop_last()[i] != ':' by {
            assert(s.contains(s[i]));
        }
        lemma_port_without_colon(s.drop_last());
        assert(s =~= s.drop_last().push(s.last()));
    }
}

/// The white space, by code point: tab, line feed, vertical tab, form feed, carriage
/// return and space, and the spaces and separators beyond ASCII. No letter, digit or
/// sign of ASCII is one.
pub proof fn lemma_white_space(c: char)
    ensures
        (c as u32) < 128 ==> (is_white_space(c) <==> (9 <= c as u32 <= 13 || c as u32 == 32)),
        128 <= (c as u32) ==> (is_white_space(c) <==> (c as u32 == 0x85 || c as u32 == 0xa0
            || c as u32 == 0x1680 || 0x2000 <= c as u32 <= 0x200a || c as u32 == 0x2028
            || c as u32 == 0x2029 || c as u32 == 0x202f || c as u32 == 0x205f || c as u32
            == 0x3000)),
{
}

/// A number below ten is written as one digit, and any other number as the numeral
/// of its tens, then the digit of its ones.
pub proof fn lemma_decimal_by_digits(tens: nat, ones: nat)
    requires
        ones < 10,
    ensures
        decimal(ones) == seq!["0123456789"@[ones as int]],
        tens > 0 ==> decimal(10 * tens + ones) == decimal(tens) + seq![
            "0123456789"@[ones as int],
        ],
{
    reveal_strlit("0123456789");
    assert(digit_char(ones) == "0123456789"@[ones as int]);
    if tens > 0 {
        let n = 10 * tens + ones;
        assert(n / 10 == tens && n % 10 == ones);
        assert(decimal(n) =~= decimal(tens) + seq!["0123456789"@[ones as int]]);
    }
}

} // verus!
