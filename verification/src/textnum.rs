//! Decimal text for integers: unpadded, zero-padded and signed renderings,
//! with spec-level definitions of the produced character sequences.

use vstd::prelude::*;

verus! {

use vstd::string::StringExecFns;

/// The decimal digit character for a value below ten.
pub open spec fn digit_char(d: int) -> char {
    if d == 0 {
        '0'
    } else if d == 1 {
        '1'
    } else if d == 2 {
        '2'
    } else if d == 3 {
        '3'
    } else if d == 4 {
        '4'
    } else if d == 5 {
        '5'
    } else if d == 6 {
        '6'
    } else if d == 7 {
        '7'
    } else if d == 8 {
        '8'
    } else {
        '9'
    }
}

/// The decimal rendering of a natural number, most significant digit first,
/// without padding or sign.
pub open spec fn dec_text(n: nat) -> Seq<char>
    decreases n,
{
    if n < 10 {
        seq![digit_char(n as int)]
    } else {
        dec_text(n / 10) + seq![digit_char((n % 10) as int)]
    }
}

/// The decimal rendering of `n`, left-padded with `'0'` to at least `width`
/// characters.
pub open spec fn dec_text_pad(n: nat, width: nat) -> Seq<char> {
    if dec_text(n).len() >= width {
        dec_text(n)
    } else {
        Seq::new((width - dec_text(n).len()) as nat, |i: int| '0') + dec_text(n)
    }
}

/// The decimal rendering of an integer: a `'-'` sign first when negative.
pub open spec fn dec_text_signed(v: int) -> Seq<char> {
    if v < 0 {
        seq!['-'] + dec_text((-v) as nat)
    } else {
        dec_text(v as nat)
    }
}

/// The single-character text of a decimal digit.
pub(crate) fn digit_text(d: u64) -> (r: &'static str)
    requires
        d < 10,
    ensures
        r@ == seq![digit_char(d as int)],
{
    proof {
        reveal_strlit("0");
        reveal_strlit("1");
        reveal_strlit("2");
        reveal_strlit("3");
        reveal_strlit("4");
        reveal_strlit("5");
        reveal_strlit("6");
        reveal_strlit("7");
        reveal_strlit("8");
        reveal_strlit("9");
    }
    let r: &'static str = if d == 0 {
        "0"
    } else if d == 1 {
        "1"
    } else if d == 2 {
        "2"
    } else if d == 3 {
        "3"
    } else if d == 4 {
        "4"
    } else if d == 5 {
        "5"
    } else if d == 6 {
        "6"
    } else if d == 7 {
        "7"
    } else if d == 8 {
        "8"
    } else {
        "9"
    };
    proof {
        assert(r@ =~= seq![digit_char(d as int)]);
    }
    r
}

/// Relies on `char`'s `ToString`: the string holding exactly the one
/// character `c`.
#[verifier::external_body]
pub(crate) fn char_text(c: char) -> (r: String)
    ensures
        r@ == seq![c],
{
    c.to_string()
}

/// Renders `n` in decimal without padding.
pub fn u64_text(n: u64) -> (r: String)
    ensures
        r@ == dec_text(n as nat),
    decreases n,
{
    if n < 10 {
        let mut s = String::new();
        s.append(digit_text(n));
        proof {
            assert(s@ =~= dec_text(n as nat));
        }
        s
    } else {
        let mut s = u64_text(n / 10);
        s.append(digit_text(n % 10));
        proof {
            assert(s@ =~= dec_text(n as nat));
        }
        s
    }
}

/// How many characters `dec_text` produces for small values.
proof fn lemma_dec_text_len(n: nat)
    requires
        n < 10000,
    ensures
        n < 10 ==> dec_text(n).len() == 1,
        10 <= n < 100 ==> dec_text(n).len() == 2,
        100 <= n < 1000 ==> dec_text(n).len() == 3,
        1000 <= n ==> dec_text(n).len() == 4,
    decreases n,
{
    if n >= 10 {
        lemma_dec_text_len(n / 10);
    }
}

/// Renders `n` in decimal, zero-padded to at least two characters.
pub fn u64_text_pad2(n: u64) -> (r: String)
    requires
        n < 100,
    ensures
        r@ == dec_text_pad(n as nat, 2),
{
    proof {
        lemma_dec_text_len(n as nat);
        reveal_strlit("0");
        reveal_strlit("");
    }
    let mut s = String::new();
    if n < 10 {
        s.append("0");
    }
    s.append(u64_text(n).as_str());
    proof {
        assert(s@ =~= dec_text_pad(n as nat, 2));
    }
    s
}

/// Renders `n` in decimal, zero-padded to at least four characters.
pub fn u64_text_pad4(n: u64) -> (r: String)
    requires
        n < 10000,
    ensures
        r@ == dec_text_pad(n as nat, 4),
{
    proof {
        lemma_dec_text_len(n as nat);
        reveal_strlit("000");
        reveal_strlit("00");
        reveal_strlit("0");
        reveal_strlit("");
    }
    let mut s = String::new();
    if n < 10 {
        s.append("000");
    } else if n < 100 {
        s.append("00");
    } else if n < 1000 {
        s.append("0");
    }
    s.append(u64_text(n).as_str());
    proof {
        assert(s@ =~= dec_text_pad(n as nat, 4));
    }
    s
}

/// Renders the integer whose magnitude is `mag` and whose sign is negative
/// when `neg` holds; a magnitude of zero never takes a sign.
pub fn signed_text(neg: bool, mag: u64) -> (r: String)
    ensures
        r@ == dec_text_signed(if neg { -(mag as int) } else { mag as int }),
{
    let mut s = String::new();
    if neg && mag > 0 {
        proof {
            reveal_strlit("-");
        }
        s.append("-");
    }
    s.append(u64_text(mag).as_str());
    proof {
        assert(s@ =~= dec_text_signed(if neg { -(mag as int) } else { mag as int }));
    }
    s
}

} // verus!
