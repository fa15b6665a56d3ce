//! Texts the programs build: decimal numbers, message bodies, message texts.

use vstd::prelude::*;
use vstd::utf8::{decode_utf8, valid_utf8};

verus! {

/// The decimal digit `d` as a character.
pub open spec fn digit_char(d: nat) -> char {
    if d == 0 {
        '0'
    } else if d == 1 {
        '1'
    } else if d == 2 {
        '2'
    } else if d == 3 {
        '3'
    } else if d == 4 {
        '4'
    } else if d == 5 {
        '5'
    } else if d == 6 {
        '6'
    } else if d == 7 {
        '7'
    } else if d == 8 {
        '8'
    } else {
        '9'
    }
}

/// The decimal representation of `n`, without sign or leading zeros.
pub open spec fn decimal(n: nat) -> Seq<char>
    decreases n,
{
    if n < 10 {
        seq![digit_char(n)]
    } else {
        decimal(n / 10).push(digit_char(n % 10))
    }
}

/// The value of a decimal digit character: its distance from `'0'`.
pub open spec fn digit_value(c: char) -> int {
    (c as int) - ('0' as int)
}

/// `c` is one of `'0'` to `'9'`.
pub open spec fn is_digit(c: char) -> bool {
    0 <= digit_value(c) <= 9
}

/// The number a string of decimal digits stands for, most significant digit first.
pub open spec fn digits_value(s: Seq<char>) -> int
    decreases s.len(),
{
    if s.len() == 0 {
        0
    } else {
        digits_value(s.drop_last()) * 10 + digit_value(s.last())
    }
}

/// A decimal numeral: one digit or more, and no leading zero unless it is `0` itself.
pub open spec fn is_numeral(s: Seq<char>) -> bool {
    &&& s.len() > 0
    &&& forall|k: int| 0 <= k < s.len() ==> is_digit(#[trigger] s[k])
    &&& s.len() > 1 ==> s[0] != '0'
}

/// `decimal(n)` is a decimal numeral, and reading it back gives `n`.
pub proof fn lemma_decimal_reads_back(n: nat)
    ensures
        is_numeral(decimal(n)),
        digits_value(decimal(n)) == n,
    decreases n,
{
    if n < 10 {
        let s = decimal(n);
        assert(s.drop_last() =~= Seq::<char>::empty());
        assert(digit_value(digit_char(n)) == n);
        assert(digits_value(s.drop_last()) == 0);
    } else {
        let q = (n / 10) as nat;
        lemma_decimal_reads_back(q);
        let s = decimal(n);
        let d = digit_char((n % 10) as nat);
        assert(s == decimal(q).push(d));
        assert(s.drop_last() =~= decimal(q));
        assert(digit_value(d) == n % 10);
        assert(n == q * 10 + n % 10);
        assert(s[0] == decimal(q)[0]);
        if decimal(q).len() == 1 {
            assert(decimal(q).drop_last() =~= Seq::<char>::empty());
            assert(digits_value(decimal(q).drop_last()) == 0);
            assert(decimal(q).last() == decimal(q)[0]);
            assert(digits_value(decimal(q)) == digit_value(decimal(q)[0]));
        }
        assert forall|k: int| 0 <= k < s.len() implies is_digit(#[trigger] s[k]) by {
            if k < s.len() - 1 {
                assert(s[k] == decimal(q)[k]);
            }
        }
    }
}

/// Different numbers have different decimal representations.
pub proof fn lemma_decimal_injective(a: nat, b: nat)
    requires
        decimal(a) == decimal(b),
    ensures
        a == b,
{
    lemma_decimal_reads_back(a);
    lemma_decimal_reads_back(b);
}

/// The body of the `i`-th message the producers publish.
pub open spec fn message_body_text(i: nat) -> Seq<char> {
    "Hello RabbitMQ! Message no "@ + decimal(i)
}

/// What stands for a delivery whose bytes are not UTF-8.
pub open spec fn placeholder_text() -> Seq<char> {
    "invalid message format"@
}

fn digit_str(d: u64) -> (r: &'static str)
    requires
        d < 10,
    ensures
        r@ == seq![digit_char(d as nat)],
{
    match d {
        0 => {
            proof {
                reveal_strlit("0");
            }
            "0"
        },
        1 => {
            proof {
                reveal_strlit("1");
            }
            "1"
        },
        2 => {
            proof {
                reveal_strlit("2");
            }
            "2"
        },
        3 => {
            proof {
                reveal_strlit("3");
            }
            "3"
        },
        4 => {
            proof {
                reveal_strlit("4");
            }
            "4"
        },
        5 => {
            proof {
                reveal_strlit("5");
            }
            "5"
        },
        6 => {
            proof {
                reveal_strlit("6");
            }
            "6"
        },
        7 => {
            proof {
                reveal_strlit("7");
            }
            "7"
        },
        8 => {
            proof {
                reveal_strlit("8");
            }
            "8"
        },
        _ => {
            proof {
                reveal_strlit("9");
            }
            "9"
        },
    }
}

/// Appends the decimal representation of `n` to `s`.
pub fn append_decimal(s: &mut String, n: u64)
    ensures
        final(s)@ == old(s)@ + decimal(n as nat),
    decreases n,
{
    if n >= 10 {
        append_decimal(s, n / 10);
    }
    s.append(digit_str(n % 10));
    proof {
        if n >= 10 {
            assert(s@ =~= old(s)@ + decimal((n / 10) as nat).push(digit_char((n % 10) as nat)));
        } else {
            assert(s@ =~= old(s)@ + decimal(n as nat));
        }
    }
}

/// The decimal representation of `n`: a numeral that reads back as `n`.
pub fn decimal_string(n: u64) -> (r: String)
    ensures
        r@ == decimal(n as nat),
        is_numeral(r@),
        digits_value(r@) == n,
{
    let mut s = String::new();
    append_decimal(&mut s, n);
    assert(s@ =~= decimal(n as nat));
    proof {
        lemma_decimal_reads_back(n as nat);
    }
    s
}

/// The body of the `i`-th message: `Hello RabbitMQ! Message no {i}`, the number
/// written as a numeral that reads back as `i`.
pub fn message_body(i: u64) -> (r: String)
    ensures
        r@ == message_body_text(i as nat),
        r@ == "Hello RabbitMQ! Message no "@ + decimal(i as nat),
        is_numeral(r@.skip("Hello RabbitMQ! Message no "@.len() as int)),
        digits_value(r@.skip("Hello RabbitMQ! Message no "@.len() as int)) == i,
{
    let mut s = String::from_str("Hello RabbitMQ! Message no ");
    append_decimal(&mut s, i);
    proof {
        lemma_decimal_reads_back(i as nat);
        assert(s@.skip("Hello RabbitMQ! Message no "@.len() as int) =~= decimal(i as nat));
    }
    s
}

/// Two messages with different numbers have different bodies.
pub proof fn lemma_message_bodies_distinct(i: nat, j: nat)
    requires
        i != j,
    ensures
        "Hello RabbitMQ! Message no "@ + decimal(i) != "Hello RabbitMQ! Message no "@ + decimal(j),
{
    let p = "Hello RabbitMQ! Message no "@;
    if p + decimal(i) == p + decimal(j) {
        assert((p + decimal(i)).skip(p.len() as int) =~= decimal(i));
        assert((p + decimal(j)).skip(p.len() as int) =~= decimal(j));
        lemma_decimal_injective(i, j);
    }
}

/// Calls `String::from_utf8`, which returns the string the bytes encode when they are
/// well-formed UTF-8, and an error otherwise.
#[verifier::external_body]
fn utf8_text(bytes: Vec<u8>) -> (r: Option<String>)
    ensures
        r is Some <==> valid_utf8(bytes@),
        r matches Some(s) ==> s@ == decode_utf8(bytes@),
{
    String::from_utf8(bytes).ok()
}

/// The text that `bytes` encode as UTF-8, or `None` when they are not UTF-8.
pub fn decode_text(bytes: Vec<u8>) -> (r: Option<String>)
    ensures
        r is Some <==> valid_utf8(bytes@),
        r matches Some(s) ==> s@ == decode_utf8(bytes@),
{
    utf8_text(bytes)
}

/// The text to push for a delivery: its decoded text, or the placeholder when it
/// was not UTF-8.
pub fn text_or_placeholder(decoded: Option<String>) -> (r: String)
    ensures
        decoded matches Some(s) ==> r == s,
        decoded is None ==> r@ == placeholder_text(),
{
    match decoded {
        Some(s) => s,
        None => String::from_str("invalid message format"),
    }
}

/// The text of a delivery's bytes: what they encode as UTF-8, or the placeholder
/// `invalid message format` when they are not UTF-8.
pub fn message_text(bytes: Vec<u8>) -> (r: String)
    ensures
        valid_utf8(bytes@) ==> r@ == decode_utf8(bytes@),
        !valid_utf8(bytes@) ==> r@ == placeholder_text(),
{
    text_or_placeholder(decode_text(bytes))
}

} // verus!
