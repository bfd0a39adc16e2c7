//! Verified rendering of bytes and numbers as text, used to build the
//! diagnostic string carried by synthetic chain-error events.

use vstd::prelude::*;
use vstd::string::StringExecFns;

verus! {

/// The character standing for one hexadecimal digit (uppercase).
pub open spec fn hex_digit_char(d: nat) -> char {
    if d == 0 {
        '0'
    } else if d == 1 {
        '1'
    } else if d == 2 {
        '2'
    } else if d == 3 {
        '3'
    } else if d == 4 {
        '4'
    } else if d == 5 {
        '5'
    } else if d == 6 {
        '6'
    } else if d == 7 {
        '7'
    } else if d == 8 {
        '8'
    } else if d == 9 {
        '9'
    } else if d == 10 {
        'A'
    } else if d == 11 {
        'B'
    } else if d == 12 {
        'C'
    } else if d == 13 {
        'D'
    } else if d == 14 {
        'E'
    } else {
        'F'
    }
}

/// The one-character string for a hexadecimal digit.
fn hex_digit_str(d: u8) -> (s: &'static str)
    requires
        d < 16,
    ensures
        s@.len() == 1,
        s@[0] == hex_digit_char(d as nat),
{
    if d == 0 {
        proof {
            reveal_strlit("0");
        }
        "0"
    } else if d == 1 {
        proof {
            reveal_strlit("1");
        }
        "1"
    } else if d == 2 {
        proof {
            reveal_strlit("2");
        }
        "2"
    } else if d == 3 {
        proof {
            reveal_strlit("3");
        }
        "3"
    } else if d == 4 {
        proof {
            reveal_strlit("4");
        }
        "4"
    } else if d == 5 {
        proof {
            reveal_strlit("5");
        }
        "5"
    } else if d == 6 {
        proof {
            reveal_strlit("6");
        }
        "6"
    } else if d == 7 {
        proof {
            reveal_strlit("7");
        }
        "7"
    } else if d == 8 {
        proof {
            reveal_strlit("8");
        }
        "8"
    } else if d == 9 {
        proof {
            reveal_strlit("9");
        }
        "9"
    } else if d == 10 {
        proof {
            reveal_strlit("A");
        }
        "A"
    } else if d == 11 {
        proof {
            reveal_strlit("B");
        }
        "B"
    } else if d == 12 {
        proof {
            reveal_strlit("C");
        }
        "C"
    } else if d == 13 {
        proof {
            reveal_strlit("D");
        }
        "D"
    } else if d == 14 {
        proof {
            reveal_strlit("E");
        }
        "E"
    } else {
        proof {
            reveal_strlit("F");
        }
        "F"
    }
}

/// The uppercase hexadecimal rendering of a byte sequence: two digits per
/// byte, high nibble first, in the bytes' order.
pub open spec fn hex_seq(bs: Seq<u8>) -> Seq<char>
    decreases bs.len(),
{
    if bs.len() == 0 {
        Seq::empty()
    } else {
        hex_seq(bs.drop_last()) + seq![
            hex_digit_char((bs.last() / 16) as nat),
            hex_digit_char((bs.last() % 16) as nat),
        ]
    }
}

/// Renders a byte sequence as uppercase hexadecimal text.
pub fn hex_str(bs: &[u8]) -> (s: String)
    ensures
        s@ == hex_seq(bs@),
{
    let mut s = String::new();
    let mut i: usize = 0;
    while i < bs.len()
        invariant
            i <= bs@.len(),
            s@ == hex_seq(bs@.take(i as int)),
        decreases bs@.len() - i,
    {
        let b = bs[i];
        let hi = hex_digit_str(b / 16);
        let lo = hex_digit_str(b % 16);
        s.append(hi);
        s.append(lo);
        proof {
            let pre = bs@.take(i as int);
            let cur = bs@.take(i + 1 as int);
            assert(cur.drop_last() =~= pre);
            assert(cur.last() == bs@[i as int]);
            assert(hi@ =~= seq![hex_digit_char((b / 16) as nat)]);
            assert(lo@ =~= seq![hex_digit_char((b % 16) as nat)]);
            assert(s@ =~= hex_seq(cur));
        }
        i = i + 1;
    }
    proof {
        assert(bs@.take(bs@.len() as int) =~= bs@);
    }
    s
}

/// The decimal rendering of a natural number, most significant digit first,
/// with no leading zeroes (the number zero renders as one digit).
pub open spec fn dec_seq(n: nat) -> Seq<char>
    decreases n,
{
    if n < 10 {
        seq![hex_digit_char(n)]
    } else {
        dec_seq(n / 10) + seq![hex_digit_char(n % 10)]
    }
}

/// Renders a number as decimal text.
pub fn dec_str(n: u64) -> (s: String)
    ensures
        s@ == dec_seq(n as nat),
    decreases n,
{
    let d = hex_digit_str((n % 10) as u8);
    proof {
        assert(d@ =~= seq![hex_digit_char((n % 10) as nat)]);
    }
    if n < 10 {
        let s = String::from_str(d);
        proof {
            assert(s@ =~= dec_seq(n as nat));
        }
        s
    } else {
        let front = dec_str(n / 10);
        let s = front.concat(d);
        proof {
            assert(s@ =~= dec_seq(n as nat));
        }
        s
    }
}

} // verus!
