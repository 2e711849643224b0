//! The listener port: its decimal text form, read and written.

use vstd::prelude::*;
use vstd::string::*;

verus! {

/// The largest port number.
pub const PORT_MAX: u32 = 65535;

/// Whether `c` is one of the ten ASCII decimal digits.
pub open spec fn is_digit(c: char) -> bool {
    '0' <= c && c <= '9'
}

/// The number that the digit `c` stands for.
pub open spec fn digit_value(c: char) -> nat {
    (c as int - '0' as int) as nat
}

/// The digit that stands for `d`, for `d` below ten.
pub open spec fn digit_char(d: nat) -> char {
    if d == 0 {
        '0'
    } else if d == 1 {
        '1'
    } else if d == 2 {
        '2'
    } else if d == 3 {
        '3'
    } else if d == 4 {
        '4'
    } else if d == 5 {
        '5'
    } else if d == 6 {
        '6'
    } else if d == 7 {
        '7'
    } else if d == 8 {
        '8'
    } else {
        '9'
    }
}

/// Whether every character of `s` is a decimal digit.
pub open spec fn all_digits(s: Seq<char>) -> bool {
    forall|i: int| 0 <= i < s.len() ==> is_digit(#[trigger] s[i])
}

/// The number that a run of decimal digits denotes, most significant first.
pub open spec fn digits_value(s: Seq<char>) -> nat
    decreases s.len(),
{
    if s.len() == 0 {
        0
    } else {
        digits_value(s.drop_last()) * 10 + digit_value(s.last())
    }
}

/// `s` without one leading plus sign, if it has one.
pub open spec fn unsigned_part(s: Seq<char>) -> Seq<char> {
    if s.len() > 0 && s[0] == '+' {
        s.subrange(1, s.len() as int)
    } else {
        s
    }
}

/// The port that the text `s` denotes: an optional plus sign, then at least
/// one decimal digit, the whole no larger than `PORT_MAX`. Leading zeros are
/// allowed; anything else denotes no port.
pub open spec fn port_of(s: Seq<char>) -> Option<u16> {
    let d = unsigned_part(s);
    if d.len() > 0 && all_digits(d) && digits_value(d) <= PORT_MAX {
        Some(digits_value(d) as u16)
    } else {
        None
    }
}

/// The shortest decimal text of `n`.
pub open spec fn decimal(n: nat) -> Seq<char>
    decreases n,
{
    if n < 10 {
        seq![digit_char(n)]
    } else {
        decimal(n / 10).push(digit_char(n % 10))
    }
}

/// The address text on which the listener for `port` is bound: every IPv6
/// (and, where the host maps them, IPv4) interface.
pub open spec fn listen_address_of(port: u16) -> Seq<char> {
    "[::]:"@ + decimal(port as nat)
}

/// A prefix of a digit run denotes no more than the whole run.
proof fn lemma_prefix_value(s: Seq<char>, k: int)
    requires
        0 <= k <= s.len(),
    ensures
        digits_value(s.subrange(0, k)) <= digits_value(s),
    decreases s.len(),
{
    if k == s.len() {
        assert(s.subrange(0, k) =~= s);
    } else {
        lemma_prefix_value(s.drop_last(), k);
        assert(s.drop_last().subrange(0, k) =~= s.subrange(0, k));
    }
}

/// Extending a digit run by one digit.
proof fn lemma_value_step(s: Seq<char>, k: int)
    requires
        0 <= k < s.len(),
    ensures
        digits_value(s.subrange(0, k + 1)) == digits_value(s.subrange(0, k)) * 10 + digit_value(
            s[k],
        ),
{
    let t = s.subrange(0, k + 1);
    assert(t.drop_last() =~= s.subrange(0, k));
    assert(t.last() == s[k]);
}

/// Reads a port number from its text.
///
/// Succeeds exactly on the texts that `port_of` gives a port for, with that
/// port; every other text is `None`.
pub fn parse_port(text: &str) -> (r: Option<u16>)
    ensures
        r == port_of(text@),
{
    let n: usize = text.unicode_len();
    let start: usize = if n > 0 && text.get_char(0) == '+' {
        1
    } else {
        0
    };
    let ghost d = unsigned_part(text@);
    assert(d =~= text@.subrange(start as int, n as int));
    if start == n {
        return None;
    }
    let mut acc: u32 = 0;
    let mut i: usize = start;
    while i < n
        invariant
            start <= i <= n,
            n == text@.len(),
            d == unsigned_part(text@),
            d == text@.subrange(start as int, n as int),
            all_digits(d.subrange(0, i - start)),
            acc == digits_value(d.subrange(0, i - start)),
            acc <= PORT_MAX,
        decreases n - i,
    {
        let c: char = text.get_char(i);
        if !(c >= '0' && c <= '9') {
            assert(!is_digit(d[i - start]));
            assert(!all_digits(d));
            return None;
        }
        let v: u32 = c as u32 - '0' as u32;
        proof {
            lemma_value_step(d, i - start);
            assert forall|j: int| 0 <= j < i - start + 1 implies is_digit(
                #[trigger] d.subrange(0, i - start + 1)[j],
            ) by {
                if j < i - start {
                    assert(d.subrange(0, i - start)[j] == d[j]);
                }
            }
        }
        let next: u32 = acc * 10 + v;
        if next > PORT_MAX {
            proof {
                lemma_prefix_value(d, i - start + 1);
                assert(digits_value(d) > PORT_MAX);
            }
            return None;
        }
        acc = next;
        i = i + 1;
    }
    assert(d.subrange(0, n - start) =~= d);
    Some(acc as u16)
}

/// The one-character text of a digit.
fn digit_text(d: u16) -> (r: &'static str)
    requires
        d < 10,
    ensures
        r@ == seq![digit_char(d as nat)],
{
    let r: &'static str = if d == 0 {
        "0"
    } else if d == 1 {
        "1"
    } else if d == 2 {
        "2"
    } else if d == 3 {
        "3"
    } else if d == 4 {
        "4"
    } else if d == 5 {
        "5"
    } else if d == 6 {
        "6"
    } else if d == 7 {
        "7"
    } else if d == 8 {
        "8"
    } else {
        "9"
    };
    proof {
        reveal_strlit("0");
        reveal_strlit("1");
        reveal_strlit("2");
        reveal_strlit("3");
        reveal_strlit("4");
        reveal_strlit("5");
        reveal_strlit("6");
        reveal_strlit("7");
        reveal_strlit("8");
        reveal_strlit("9");
        assert(r@ =~= seq![digit_char(d as nat)]);
    }
    r
}

/// Appends the shortest decimal text of `n` to `out`.
fn push_decimal(out: &mut String, n: u16)
    ensures
        final(out)@ == old(out)@ + decimal(n as nat),
    decreases n,
{
    if n >= 10 {
        push_decimal(out, n / 10);
    }
    let ghost before = out@;
    out.append(digit_text(n % 10));
    proof {
        if n >= 10 {
            assert(before + seq![digit_char((n % 10) as nat)] =~= old(out)@ + decimal(
                (n / 10) as nat,
            ).push(digit_char((n % 10) as nat)));
        }
    }
}

/// Writes the address on which the listener for `port` is bound.
pub fn listen_address(port: u16) -> (r: String)
    ensures
        r@ == listen_address_of(port),
{
    let mut out = String::from_str("[::]:");
    push_decimal(&mut out, port);
    out
}

/// The decimal text of a number is a non-empty run of digits that denotes
/// that number.
pub proof fn lemma_decimal_denotes(n: nat)
    ensures
        decimal(n).len() > 0,
        all_digits(decimal(n)),
        digits_value(decimal(n)) == n,
    decreases n,
{
    if n < 10 {
        let s = decimal(n);
        assert(s.drop_last() =~= Seq::<char>::empty());
        assert(digits_value(s.drop_last()) == 0);
        assert(digit_value(digit_char(n)) == n);
    } else {
        lemma_decimal_denotes(n / 10);
        let s = decimal(n);
        assert(s.drop_last() =~= decimal(n / 10));
        assert(s.last() == digit_char(n % 10));
        assert(digit_value(digit_char(n % 10)) == n % 10);
        assert forall|i: int| 0 <= i < s.len() implies is_digit(#[trigger] s[i]) by {
            if i < s.len() - 1 {
                assert(s[i] == decimal(n / 10)[i]);
            }
        }
    }
}

/// Every port is read back from its own decimal text: writing a port and
/// parsing what was written gives the port again.
pub proof fn lemma_port_round_trip(port: u16)
    ensures
        port_of(decimal(port as nat)) == Some(port),
{
    lemma_decimal_denotes(port as nat);
    let s = decimal(port as nat);
    assert(is_digit(s[0]));
    assert(unsigned_part(s) == s);
}

/// A text that denotes a port is never empty, so a missing or empty value
/// denotes none; nor does any text that holds a character other than a
/// digit after its optional plus sign.
pub proof fn lemma_bad_text_has_no_port(s: Seq<char>, i: int)
    requires
        s.len() == 0 || (0 <= i < s.len() && !is_digit(s[i]) && !(i == 0 && s[0] == '+')),
    ensures
        port_of(s) is None,
{
    if s.len() > 0 {
        let d = unsigned_part(s);
        if s[0] == '+' {
            assert(d[i - 1] == s[i]);
        } else {
            assert(d[i] == s[i]);
        }
    }
}

} // verus!
