//! Validation of user-entered text into a concrete network port number.

use vstd::prelude::*;
use crate::supervisor::StartError;

verus! {

/// The ten decimal digit characters.
pub open spec fn is_decimal_digit(c: char) -> bool {
    48 <= c as u32 <= 57
}

/// The numeric value of a decimal digit character.
pub open spec fn digit_value(c: char) -> nat {
    (c as u32 - 48) as nat
}

pub open spec fn all_decimal_digits(s: Seq<char>) -> bool {
    forall|i: int| 0 <= i < s.len() ==> is_decimal_digit(#[trigger] s[i])
}

/// The number denoted by a sequence of decimal digits, most significant first.
pub open spec fn decimal_value(s: Seq<char>) -> nat
    decreases s.len(),
{
    if s.len() == 0 {
        0
    } else {
        decimal_value(s.drop_last()) * 10 + digit_value(s.last())
    }
}

/// The digit part of entered text: a single leading plus sign is tolerated,
/// as it does not change the denoted number.
pub open spec fn digits_of(s: Seq<char>) -> Seq<char> {
    if s.len() > 0 && s[0] == '+' {
        s.subrange(1, s.len() as int)
    } else {
        s
    }
}

/// The port that a piece of text denotes: an optional plus sign, then one or
/// more decimal digits whose value fits in sixteen bits. Any other text
/// denotes no port.
pub open spec fn port_of_text(s: Seq<char>) -> Option<u16> {
    let d = digits_of(s);
    if d.len() > 0 && all_decimal_digits(d) && decimal_value(d) <= 65535 {
        Some(decimal_value(d) as u16)
    } else {
        None
    }
}

proof fn lemma_decimal_value_step(s: Seq<char>, i: int)
    requires
        0 <= i < s.len(),
    ensures
        decimal_value(s.subrange(0, i + 1)) == decimal_value(s.subrange(0, i)) * 10 + digit_value(
            s[i],
        ),
{
    assert(s.subrange(0, i + 1).drop_last() =~= s.subrange(0, i));
    assert(s.subrange(0, i + 1).last() == s[i]);
}

/// Reading further digits can only keep or grow the denoted number.
proof fn lemma_decimal_value_prefix_le(s: Seq<char>, i: int)
    requires
        0 <= i <= s.len(),
    ensures
        decimal_value(s.subrange(0, i)) <= decimal_value(s),
    decreases s.len() - i,
{
    if i == s.len() {
        assert(s.subrange(0, i) =~= s);
    } else {
        lemma_decimal_value_step(s, i);
        lemma_decimal_value_prefix_le(s, i + 1);
    }
}

/// A decimal digit character by its value.
pub open spec fn digit_char(d: nat) -> char {
    if d == 0 {
        '0'
    } else if d == 1 {
        '1'
    } else if d == 2 {
        '2'
    } else if d == 3 {
        '3'
    } else if d == 4 {
        '4'
    } else if d == 5 {
        '5'
    } else if d == 6 {
        '6'
    } else if d == 7 {
        '7'
    } else if d == 8 {
        '8'
    } else {
        '9'
    }
}

/// The decimal rendering of a number, most significant digit first.
pub open spec fn decimal_text(n: nat) -> Seq<char>
    decreases n,
{
    if n < 10 {
        seq![digit_char(n)]
    } else {
        decimal_text(n / 10).push(digit_char(n % 10))
    }
}

/// The decimal rendering of a number denotes that number again: every port
/// value round-trips through its text form.
pub proof fn lemma_decimal_text_value(n: nat)
    ensures
        decimal_text(n).len() > 0,
        all_decimal_digits(decimal_text(n)),
        decimal_value(decimal_text(n)) == n,
    decreases n,
{
    if n < 10 {
        let s = decimal_text(n);
        assert(s.len() == 1);
        assert(s.last() == digit_char(n));
        assert(s.drop_last() =~= Seq::<char>::empty());
        assert(decimal_value(s.drop_last()) == 0);
        assert(decimal_value(s) == digit_value(digit_char(n)));
    } else {
        lemma_decimal_text_value(n / 10);
        let s = decimal_text(n);
        assert(s.drop_last() =~= decimal_text(n / 10));
        assert(decimal_value(s) == (n / 10) * 10 + digit_value(digit_char(n % 10)));
    }
}

/// Every sixteen-bit port number has a text form that parses back to it.
pub proof fn lemma_port_round_trip(port: u16)
    ensures
        port_of_text(decimal_text(port as nat)) == Some(port),
{
    lemma_decimal_text_value(port as nat);
    let s = decimal_text(port as nat);
    assert(is_decimal_digit(s[0]));
    assert(digits_of(s) == s);
}

/// Validation of the user-editable port field.
pub struct PortSpec;

impl PortSpec {
    /// Parses entered text into a port number. Succeeds exactly on text that
    /// denotes a number in the sixteen-bit range, and returns that number;
    /// all other text is rejected as an invalid port.
    pub fn parse(text: &str) -> (r: Result<u16, StartError>)
        ensures
            match r {
                Ok(p) => port_of_text(text@) == Some(p),
                Err(e) => port_of_text(text@) is None && e == StartError::InvalidPort,
            },
    {
        let n = text.unicode_len();
        let start: usize = if n > 0 && text.get_char(0) == '+' {
            1
        } else {
            0
        };
        if n == start {
            // Empty text, or a sign with no digits after it.
            return Err(StartError::InvalidPort);
        }
        let ghost d = digits_of(text@);
        proof {
            assert(d =~= text@.subrange(start as int, n as int));
        }
        let mut value: u32 = 0;
        let mut i: usize = start;
        while i < n
            invariant
                start <= i <= n,
                n == text@.len(),
                d == digits_of(text@),
                d == text@.subrange(start as int, n as int),
                all_decimal_digits(d.subrange(0, i - start)),
                value == decimal_value(d.subrange(0, i - start)),
                value <= 65535,
            decreases n - i,
        {
            let c = text.get_char(i);
            let cu = c as u32;
            if cu < 48 || cu > 57 {
                proof {
                    assert(d[i - start] == c);
                    assert(!is_decimal_digit(d[i - start]));
                }
                return Err(StartError::InvalidPort);
            }
            proof {
                lemma_decimal_value_step(d, i - start);
                assert(d.subrange(0, i - start + 1).drop_last() =~= d.subrange(0, i - start));
            }
            value = value * 10 + (cu - 48);
            if value > 65535 {
                proof {
                    lemma_decimal_value_prefix_le(d, i + 1 - start);
                    assert(decimal_value(d) > 65535);
                }
                return Err(StartError::InvalidPort);
            }
            proof {
                assert(d.subrange(0, i + 1 - start) =~= d.subrange(0, i - start).push(d[i - start]));
                assert(all_decimal_digits(d.subrange(0, i + 1 - start)));
            }
            i += 1;
        }
        proof {
            assert(d.subrange(0, i - start) =~= d);
        }
        Ok(value as u16)
    }

    /// Renders a port number as decimal text; the text parses back to the
    /// same number.
    pub fn to_text(port: u16) -> (r: String)
        ensures
            r@ == decimal_text(port as nat),
            port_of_text(r@) == Some(port),
    {
        let mut out = String::new();
        push_decimal(port, &mut out);
        proof {
            assert(out@ =~= decimal_text(port as nat));
            lemma_port_round_trip(port);
        }
        out
    }
}

/// A one-character string for a decimal digit value.
fn digit_str(d: u16) -> (r: &'static str)
    requires
        d < 10,
    ensures
        r@ =~= seq![digit_char(d as nat)],
{
    if d == 0 {
        let s = "0";
        proof {
            reveal_strlit("0");
        }
        s
    } else if d == 1 {
        let s = "1";
        proof {
            reveal_strlit("1");
        }
        s
    } else if d == 2 {
        let s = "2";
        proof {
            reveal_strlit("2");
        }
        s
    } else if d == 3 {
        let s = "3";
        proof {
            reveal_strlit("3");
        }
        s
    } else if d == 4 {
        let s = "4";
        proof {
            reveal_strlit("4");
        }
        s
    } else if d == 5 {
        let s = "5";
        proof {
            reveal_strlit("5");
        }
        s
    } else if d == 6 {
        let s = "6";
        proof {
            reveal_strlit("6");
        }
        s
    } else if d == 7 {
        let s = "7";
        proof {
            reveal_strlit("7");
        }
        s
    } else if d == 8 {
        let s = "8";
        proof {
            reveal_strlit("8");
        }
        s
    } else {
        let s = "9";
        proof {
            reveal_strlit("9");
        }
        s
    }
}

/// Appends the decimal rendering of a number to a string.
fn push_decimal(n: u16, out: &mut String)
    ensures
        final(out)@ == old(out)@ + decimal_text(n as nat),
    decreases n,
{
    if n >= 10 {
        push_decimal(n / 10, out);
        out.append(digit_str(n % 10));
        proof {
            assert(out@ =~= old(out)@ + decimal_text(n as nat));
        }
    } else {
        out.append(digit_str(n));
        proof {
            assert(out@ =~= old(out)@ + decimal_text(n as nat));
        }
    }
}

} // verus!
