//! Plain-text helpers shared by the lock record, terminal names and command output.
use vstd::prelude::*;

verus! {

/// Whitespace as Unicode's White_Space property has it (the set that
/// `char::is_whitespace` documents): what may surround a value in command
/// output and files.
pub open spec fn is_blank(c: char) -> bool {
    ('\u{9}' <= c && c <= '\u{d}') || c == ' ' || c == '\u{85}' || c == '\u{a0}' || c == '\u{1680}'
        || ('\u{2000}' <= c && c <= '\u{200a}') || c == '\u{2028}' || c == '\u{2029}' || c
        == '\u{202f}' || c == '\u{205f}' || c == '\u{3000}'
}

pub open spec fn is_digit(c: char) -> bool {
    '0' <= c && c <= '9'
}

pub open spec fn digit_value(c: char) -> nat {
    (c as int - '0' as int) as nat
}

pub open spec fn digit_char(d: nat) -> char {
    (d + '0' as int) as char
}

/// `s` without its leading blanks.
pub open spec fn trim_start(s: Seq<char>) -> Seq<char>
    decreases s.len(),
{
    if s.len() > 0 && is_blank(s[0]) {
        trim_start(s.drop_first())
    } else {
        s
    }
}

/// `s` without its trailing blanks.
pub open spec fn trim_end(s: Seq<char>) -> Seq<char>
    decreases s.len(),
{
    if s.len() > 0 && is_blank(s.last()) {
        trim_end(s.drop_last())
    } else {
        s
    }
}

/// `s` without blanks at either end.
pub open spec fn trim(s: Seq<char>) -> Seq<char> {
    trim_end(trim_start(s))
}

pub open spec fn all_digits(s: Seq<char>) -> bool {
    forall|i: int| 0 <= i < s.len() ==> #[trigger] is_digit(s[i])
}

/// The number that a string of decimal digits denotes.
pub open spec fn digits_value(s: Seq<char>) -> nat
    decreases s.len(),
{
    if s.len() == 0 {
        0
    } else {
        digits_value(s.drop_last()) * 10 + digit_value(s.last())
    }
}

/// The decimal notation of `n`, without leading zeros.
pub open spec fn decimal(n: nat) -> Seq<char>
    decreases n,
{
    if n < 10 {
        seq![digit_char(n)]
    } else {
        decimal(n / 10).push(digit_char(n % 10))
    }
}

/// The number written in `text`, blanks around it aside, when it is a
/// non-empty run of digits whose value fits in a `u32`.
pub open spec fn parse_u32(text: Seq<char>) -> Option<u32> {
    let t = trim(text);
    if t.len() > 0 && all_digits(t) && digits_value(t) <= u32::MAX {
        Some(digits_value(t) as u32)
    } else {
        None
    }
}

proof fn lemma_trim_start_step(s: Seq<char>, i: int)
    requires
        0 <= i < s.len(),
        is_blank(s[i]),
    ensures
        trim_start(s.subrange(i, s.len() as int)) == trim_start(s.subrange(i + 1, s.len() as int)),
{
    let t = s.subrange(i, s.len() as int);
    assert(t.drop_first() =~= s.subrange(i + 1, s.len() as int));
}

proof fn lemma_trim_end_step(s: Seq<char>, j: int)
    requires
        0 < j <= s.len(),
        is_blank(s[j - 1]),
    ensures
        trim_end(s.subrange(0, j)) == trim_end(s.subrange(0, j - 1)),
{
    let t = s.subrange(0, j);
    assert(t.drop_last() =~= s.subrange(0, j - 1));
}

/// Removes the blanks at both ends of `s`.
pub fn trim_blanks(s: &str) -> (r: String)
    ensures
        r@ == trim(s@),
{
    let n = s.unicode_len();
    let mut i: usize = 0;
    assert(s@.subrange(0, n as int) =~= s@);
    while i < n && is_blank_char(s.get_char(i))
        invariant
            n == s@.len(),
            i <= n,
            trim_start(s@) == trim_start(s@.subrange(i as int, n as int)),
        decreases n - i,
    {
        proof {
            lemma_trim_start_step(s@, i as int);
        }
        i = i + 1;
    }
    let ghost u = s@.subrange(i as int, n as int);
    proof {
        if i < n {
            assert(u[0] == s@[i as int]);
        }
        assert(trim_start(s@) == u);
    }
    let mut j: usize = n;
    assert(u.subrange(0, (n - i) as int) =~= u);
    while j > i && is_blank_char(s.get_char(j - 1))
        invariant
            n == s@.len(),
            i <= j <= n,
            u == s@.subrange(i as int, n as int),
            trim_end(u) == trim_end(u.subrange(0, j - i)),
        decreases j,
    {
        proof {
            lemma_trim_end_step(u, (j - i) as int);
        }
        j = j - 1;
    }
    proof {
        let w = u.subrange(0, j - i);
        if j > i {
            assert(w.last() == s@[j - 1]);
        }
        assert(trim_end(w) == w);
        assert(w =~= s@.subrange(i as int, j as int));
    }
    s.substring_char(i, j).to_owned()
}

fn is_blank_char(c: char) -> (r: bool)
    ensures
        r == is_blank(c),
{
    ('\u{9}' <= c && c <= '\u{d}') || c == ' ' || c == '\u{85}' || c == '\u{a0}' || c == '\u{1680}'
        || ('\u{2000}' <= c && c <= '\u{200a}') || c == '\u{2028}' || c == '\u{2029}' || c
        == '\u{202f}' || c == '\u{205f}' || c == '\u{3000}'
}

/// Reads the number written in `text` (see `parse_u32`).
pub fn parse_number(text: &str) -> (r: Option<u32>)
    ensures
        r == parse_u32(text@),
{
    let t = trim_blanks(text);
    let t = t.as_str();
    let n = t.unicode_len();
    if n == 0 {
        return None;
    }
    let mut value: u64 = 0;
    let mut i: usize = 0;
    while i < n
        invariant
            n == t@.len(),
            t@ == trim(text@),
            i <= n,
            all_digits(t@.subrange(0, i as int)),
            value == digits_value(t@.subrange(0, i as int)),
            value <= u32::MAX,
        decreases n - i,
    {
        let c = t.get_char(i);
        proof {
            assert(t@.subrange(0, i + 1).drop_last() =~= t@.subrange(0, i as int));
        }
        if !('0' <= c && c <= '9') {
            proof {
                assert(!is_digit(t@[i as int]));
                assert(!all_digits(t@));
            }
            return None;
        }
        let d = (c as u32 - '0' as u32) as u64;
        value = value * 10 + d;
        proof {
            assert(is_digit(t@[i as int]));
            assert(t@.subrange(0, i + 1).last() == c);
            assert(value == digits_value(t@.subrange(0, i + 1)));
        }
        if value > u32::MAX as u64 {
            proof {
                lemma_digits_value_prefix_grows(t@, i + 1);
            }
            return None;
        }
        i = i + 1;
        proof {
            assert forall|k: int| 0 <= k < i implies #[trigger] is_digit(t@.subrange(0, i as int)[k]) by {
                if k < i - 1 {
                    assert(t@.subrange(0, i as int)[k] == t@.subrange(0, i - 1)[k]);
                }
            }
        }
    }
    assert(t@.subrange(0, n as int) =~= t@);
    Some(value as u32)
}

/// Once a prefix of digits is worth more than `u32::MAX`, so is the whole run.
proof fn lemma_digits_value_prefix_grows(s: Seq<char>, k: int)
    requires
        0 <= k <= s.len(),
        digits_value(s.subrange(0, k)) > u32::MAX,
    ensures
        !(all_digits(s) && digits_value(s) <= u32::MAX),
    decreases s.len() - k,
{
    if k < s.len() && all_digits(s) {
        let p = s.subrange(0, k + 1);
        assert(p.drop_last() =~= s.subrange(0, k));
        assert(digits_value(p) >= digits_value(s.subrange(0, k)));
        lemma_digits_value_prefix_grows(s, k + 1);
    } else if k == s.len() {
        assert(s.subrange(0, k) =~= s);
    }
}

/// The digit `d` as a one-character string.
fn digit_text(d: u32) -> (r: &'static str)
    requires
        d < 10,
    ensures
        r@ == seq![digit_char(d as nat)],
{
    proof {
        reveal_strlit("0");
        reveal_strlit("1");
        reveal_strlit("2");
        reveal_strlit("3");
        reveal_strlit("4");
        reveal_strlit("5");
        reveal_strlit("6");
        reveal_strlit("7");
        reveal_strlit("8");
        reveal_strlit("9");
    }
    let r = match d {
        0 => "0",
        1 => "1",
        2 => "2",
        3 => "3",
        4 => "4",
        5 => "5",
        6 => "6",
        7 => "7",
        8 => "8",
        _ => "9",
    };
    assert(r@ =~= seq![digit_char(d as nat)]);
    r
}

/// The decimal notation of `n`, without sign or leading zeros.
pub fn decimal_text(n: u32) -> (r: String)
    ensures
        r@ == decimal(n as nat),
    decreases n,
{
    if n < 10 {
        digit_text(n).to_owned()
    } else {
        let head = decimal_text(n / 10);
        let r = head.concat(digit_text(n % 10));
        assert(r@ =~= decimal((n / 10) as nat).push(digit_char((n % 10) as nat)));
        r
    }
}

/// Every character of a decimal notation is a digit, and the notation
/// denotes the number it was written from.
pub proof fn lemma_decimal_digits(n: nat)
    ensures
        decimal(n).len() > 0,
        all_digits(decimal(n)),
        digits_value(decimal(n)) == n,
    decreases n,
{
    if n >= 10 {
        lemma_decimal_digits(n / 10);
        let s = decimal(n);
        assert(s.drop_last() =~= decimal(n / 10));
        assert(digit_value(digit_char(n % 10)) == n % 10);
        assert(n == (n / 10) * 10 + n % 10);
        assert forall|i: int| 0 <= i < s.len() implies #[trigger] is_digit(s[i]) by {
            if i < s.len() - 1 {
                assert(s[i] == decimal(n / 10)[i]);
            }
        }
    } else {
        assert(decimal(n).drop_last() =~= Seq::<char>::empty());
        assert(digits_value(Seq::<char>::empty()) == 0);
        assert(digit_value(digit_char(n)) == n);
    }
}

/// A string without blanks at its ends is its own trim.
pub proof fn lemma_trim_of_unpadded(s: Seq<char>)
    requires
        s.len() > 0,
        !is_blank(s[0]),
        !is_blank(s.last()),
    ensures
        trim(s) == s,
{
}

/// A decimal notation reads back as the number it was written from.
pub proof fn lemma_parse_decimal(n: u32)
    ensures
        parse_u32(decimal(n as nat)) == Some(n),
{
    let s = decimal(n as nat);
    lemma_decimal_digits(n as nat);
    assert(is_digit(s[0]));
    assert(is_digit(s[s.len() - 1]));
    lemma_trim_of_unpadded(s);
}

} // verus!
