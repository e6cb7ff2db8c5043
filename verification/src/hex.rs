//! A diagnostic rendering of a field element: the limbs from most to
//! least significant, each as 16 uppercase hexadecimal digits, joined by
//! underscores and wrapped as `Fp(0x...)`. For inspection only: never a
//! canonical serialization.

use vstd::prelude::*;
use vstd::string::StringExecFns;

use crate::field::Fp;

verus! {

/// The uppercase hexadecimal digit for a value in [0, 16).
pub open spec fn hex_char(d: int) -> char {
    if d == 0 { '0' } else if d == 1 { '1' } else if d == 2 { '2' } else if d == 3 { '3' } else if d == 4 { '4' } else if d == 5 { '5' } else if d == 6 { '6' } else if d == 7 { '7' } else if d == 8 { '8' } else if d == 9 { '9' } else if d == 10 { 'A' } else if d == 11 { 'B' } else if d == 12 { 'C' } else if d == 13 { 'D' } else if d == 14 { 'E' } else { 'F' }
}

/// One limb as 16 hexadecimal digits, most significant first.
pub open spec fn limb_hex(l: u64) -> Seq<char> {
    seq![
        hex_char(((l as int) / 0x1000000000000000) % 16),
        hex_char(((l as int) / 0x100000000000000) % 16),
        hex_char(((l as int) / 0x10000000000000) % 16),
        hex_char(((l as int) / 0x1000000000000) % 16),
        hex_char(((l as int) / 0x100000000000) % 16),
        hex_char(((l as int) / 0x10000000000) % 16),
        hex_char(((l as int) / 0x1000000000) % 16),
        hex_char(((l as int) / 0x100000000) % 16),
        hex_char(((l as int) / 0x10000000) % 16),
        hex_char(((l as int) / 0x1000000) % 16),
        hex_char(((l as int) / 0x100000) % 16),
        hex_char(((l as int) / 0x10000) % 16),
        hex_char(((l as int) / 0x1000) % 16),
        hex_char(((l as int) / 0x100) % 16),
        hex_char(((l as int) / 0x10) % 16),
        hex_char((l as int) % 16),
    ]
}

/// The full rendering: limbs from most to least significant, separated by
/// underscores, wrapped as `Fp(0x...)`.
pub open spec fn hex_repr(l: [u64; 4]) -> Seq<char> {
    "Fp(0x"@ + limb_hex(l[3]) + "_"@ + limb_hex(l[2]) + "_"@ + limb_hex(l[1]) + "_"@
        + limb_hex(l[0]) + ")"@
}

/// The one-character string for a hexadecimal digit.
fn hex_digit_str(d: u64) -> (s: &'static str)
    requires
        d < 16,
    ensures
        s@ == seq![hex_char(d as int)],
{
    if d == 0 {
        proof {
            reveal_strlit("0");
            assert("0"@ =~= seq![hex_char(d as int)]);
        }
        "0"
    }
    else if d == 1 {
        proof {
            reveal_strlit("1");
            assert("1"@ =~= seq![hex_char(d as int)]);
        }
        "1"
    }
    else if d == 2 {
        proof {
            reveal_strlit("2");
            assert("2"@ =~= seq![hex_char(d as int)]);
        }
        "2"
    }
    else if d == 3 {
        proof {
            reveal_strlit("3");
            assert("3"@ =~= seq![hex_char(d as int)]);
        }
        "3"
    }
    else if d == 4 {
        proof {
            reveal_strlit("4");
            assert("4"@ =~= seq![hex_char(d as int)]);
        }
        "4"
    }
    else if d == 5 {
        proof {
            reveal_strlit("5");
            assert("5"@ =~= seq![hex_char(d as int)]);
        }
        "5"
    }
    else if d == 6 {
        proof {
            reveal_strlit("6");
            assert("6"@ =~= seq![hex_char(d as int)]);
        }
        "6"
    }
    else if d == 7 {
        proof {
            reveal_strlit("7");
            assert("7"@ =~= seq![hex_char(d as int)]);
        }
        "7"
    }
    else if d == 8 {
        proof {
            reveal_strlit("8");
            assert("8"@ =~= seq![hex_char(d as int)]);
        }
        "8"
    }
    else if d == 9 {
        proof {
            reveal_strlit("9");
            assert("9"@ =~= seq![hex_char(d as int)]);
        }
        "9"
    }
    else if d == 10 {
        proof {
            reveal_strlit("A");
            assert("A"@ =~= seq![hex_char(d as int)]);
        }
        "A"
    }
    else if d == 11 {
        proof {
            reveal_strlit("B");
            assert("B"@ =~= seq![hex_char(d as int)]);
        }
        "B"
    }
    else if d == 12 {
        proof {
            reveal_strlit("C");
            assert("C"@ =~= seq![hex_char(d as int)]);
        }
        "C"
    }
    else if d == 13 {
        proof {
            reveal_strlit("D");
            assert("D"@ =~= seq![hex_char(d as int)]);
        }
        "D"
    }
    else if d == 14 {
        proof {
            reveal_strlit("E");
            assert("E"@ =~= seq![hex_char(d as int)]);
        }
        "E"
    }
    else {
        proof {
            reveal_strlit("F");
            assert("F"@ =~= seq![hex_char(d as int)]);
        }
        "F"
    }
}

/// Appends the 16 hexadecimal digits of one limb, most significant first.
#[verifier::rlimit(50)]
fn append_limb_hex(s: &mut String, l: u64)
    ensures
        final(s)@ == old(s)@ + limb_hex(l),
{
    s.append(hex_digit_str((l / 0x1000000000000000) % 16));
    proof {
        assert(s@ =~= old(s)@ + seq![hex_char(((l as int) / 0x1000000000000000) % 16)]);
    }
    s.append(hex_digit_str((l / 0x100000000000000) % 16));
    proof {
        assert(s@ =~= old(s)@ + seq![hex_char(((l as int) / 0x1000000000000000) % 16), hex_char(((l as int) / 0x100000000000000) % 16)]);
    }
    s.append(hex_digit_str((l / 0x10000000000000) % 16));
    proof {
        assert(s@ =~= old(s)@ + seq![hex_char(((l as int) / 0x1000000000000000) % 16), hex_char(((l as int) / 0x100000000000000) % 16), hex_char(((l as int) / 0x10000000000000) % 16)]);
    }
    s.append(hex_digit_str((l / 0x1000000000000) % 16));
    proof {
        assert(s@ =~= old(s)@ + seq![hex_char(((l as int) / 0x1000000000000000) % 16), hex_char(((l as int) / 0x100000000000000) % 16), hex_char(((l as int) / 0x10000000000000) % 16), hex_char(((l as int) / 0x1000000000000) % 16)]);
    }
    s.append(hex_digit_str((l / 0x100000000000) % 16));
    proof {
        assert(s@ =~= old(s)@ + seq![hex_char(((l as int) / 0x1000000000000000) % 16), hex_char(((l as int) / 0x100000000000000) % 16), hex_char(((l as int) / 0x10000000000000) % 16), hex_char(((l as int) / 0x1000000000000) % 16), hex_char(((l as int) / 0x100000000000) % 16)]);
    }
    s.append(hex_digit_str((l / 0x10000000000) % 16));
    proof {
        assert(s@ =~= old(s)@ + seq![hex_char(((l as int) / 0x1000000000000000) % 16), hex_char(((l as int) / 0x100000000000000) % 16), hex_char(((l as int) / 0x10000000000000) % 16), hex_char(((l as int) / 0x1000000000000) % 16), hex_char(((l as int) / 0x100000000000) % 16), hex_char(((l as int) / 0x10000000000) % 16)]);
    }
    s.append(hex_digit_str((l / 0x1000000000) % 16));
    proof {
        assert(s@ =~= old(s)@ + seq![hex_char(((l as int) / 0x1000000000000000) % 16), hex_char(((l as int) / 0x100000000000000) % 16), hex_char(((l as int) / 0x10000000000000) % 16), hex_char(((l as int) / 0x1000000000000) % 16), hex_char(((l as int) / 0x100000000000) % 16), hex_char(((l as int) / 0x10000000000) % 16), hex_char(((l as int) / 0x1000000000) % 16)]);
    }
    s.append(hex_digit_str((l / 0x100000000) % 16));
    proof {
        assert(s@ =~= old(s)@ + seq![hex_char(((l as int) / 0x1000000000000000) % 16), hex_char(((l as int) / 0x100000000000000) % 16), hex_char(((l as int) / 0x10000000000000) % 16), hex_char(((l as int) / 0x1000000000000) % 16), hex_char(((l as int) / 0x100000000000) % 16), hex_char(((l as int) / 0x10000000000) % 16), hex_char(((l as int) / 0x1000000000) % 16), hex_char(((l as int) / 0x100000000) % 16)]);
    }
    s.append(hex_digit_str((l / 0x10000000) % 16));
    proof {
        assert(s@ =~= old(s)@ + seq![hex_char(((l as int) / 0x1000000000000000) % 16), hex_char(((l as int) / 0x100000000000000) % 16), hex_char(((l as int) / 0x10000000000000) % 16), hex_char(((l as int) / 0x1000000000000) % 16), hex_char(((l as int) / 0x100000000000) % 16), hex_char(((l as int) / 0x10000000000) % 16), hex_char(((l as int) / 0x1000000000) % 16), hex_char(((l as int) / 0x100000000) % 16), hex_char(((l as int) / 0x10000000) % 16)]);
    }
    s.append(hex_digit_str((l / 0x1000000) % 16));
    proof {
        assert(s@ =~= old(s)@ + seq![hex_char(((l as int) / 0x1000000000000000) % 16), hex_char(((l as int) / 0x100000000000000) % 16), hex_char(((l as int) / 0x10000000000000) % 16), hex_char(((l as int) / 0x1000000000000) % 16), hex_char(((l as int) / 0x100000000000) % 16), hex_char(((l as int) / 0x10000000000) % 16), hex_char(((l as int) / 0x1000000000) % 16), hex_char(((l as int) / 0x100000000) % 16), hex_char(((l as int) / 0x10000000) % 16), hex_char(((l as int) / 0x1000000) % 16)]);
    }
    s.append(hex_digit_str((l / 0x100000) % 16));
    proof {
        assert(s@ =~= old(s)@ + seq![hex_char(((l as int) / 0x1000000000000000) % 16), hex_char(((l as int) / 0x100000000000000) % 16), hex_char(((l as int) / 0x10000000000000) % 16), hex_char(((l as int) / 0x1000000000000) % 16), hex_char(((l as int) / 0x100000000000) % 16), hex_char(((l as int) / 0x10000000000) % 16), hex_char(((l as int) / 0x1000000000) % 16), hex_char(((l as int) / 0x100000000) % 16), hex_char(((l as int) / 0x10000000) % 16), hex_char(((l as int) / 0x1000000) % 16), hex_char(((l as int) / 0x100000) % 16)]);
    }
    s.append(hex_digit_str((l / 0x10000) % 16));
    proof {
        assert(s@ =~= old(s)@ + seq![hex_char(((l as int) / 0x1000000000000000) % 16), hex_char(((l as int) / 0x100000000000000) % 16), hex_char(((l as int) / 0x10000000000000) % 16), hex_char(((l as int) / 0x1000000000000) % 16), hex_char(((l as int) / 0x100000000000) % 16), hex_char(((l as int) / 0x10000000000) % 16), hex_char(((l as int) / 0x1000000000) % 16), hex_char(((l as int) / 0x100000000) % 16), hex_char(((l as int) / 0x10000000) % 16), hex_char(((l as int) / 0x1000000) % 16), hex_char(((l as int) / 0x100000) % 16), hex_char(((l as int) / 0x10000) % 16)]);
    }
    s.append(hex_digit_str((l / 0x1000) % 16));
    proof {
        assert(s@ =~= old(s)@ + seq![hex_char(((l as int) / 0x1000000000000000) % 16), hex_char(((l as int) / 0x100000000000000) % 16), hex_char(((l as int) / 0x10000000000000) % 16), hex_char(((l as int) / 0x1000000000000) % 16), hex_char(((l as int) / 0x100000000000) % 16), hex_char(((l as int) / 0x10000000000) % 16), hex_char(((l as int) / 0x1000000000) % 16), hex_char(((l as int) / 0x100000000) % 16), hex_char(((l as int) / 0x10000000) % 16), hex_char(((l as int) / 0x1000000) % 16), hex_char(((l as int) / 0x100000) % 16), hex_char(((l as int) / 0x10000) % 16), hex_char(((l as int) / 0x1000) % 16)]);
    }
    s.append(hex_digit_str((l / 0x100) % 16));
    proof {
        assert(s@ =~= old(s)@ + seq![hex_char(((l as int) / 0x1000000000000000) % 16), hex_char(((l as int) / 0x100000000000000) % 16), hex_char(((l as int) / 0x10000000000000) % 16), hex_char(((l as int) / 0x1000000000000) % 16), hex_char(((l as int) / 0x100000000000) % 16), hex_char(((l as int) / 0x10000000000) % 16), hex_char(((l as int) / 0x1000000000) % 16), hex_char(((l as int) / 0x100000000) % 16), hex_char(((l as int) / 0x10000000) % 16), hex_char(((l as int) / 0x1000000) % 16), hex_char(((l as int) / 0x100000) % 16), hex_char(((l as int) / 0x10000) % 16), hex_char(((l as int) / 0x1000) % 16), hex_char(((l as int) / 0x100) % 16)]);
    }
    s.append(hex_digit_str((l / 0x10) % 16));
    proof {
        assert(s@ =~= old(s)@ + seq![hex_char(((l as int) / 0x1000000000000000) % 16), hex_char(((l as int) / 0x100000000000000) % 16), hex_char(((l as int) / 0x10000000000000) % 16), hex_char(((l as int) / 0x1000000000000) % 16), hex_char(((l as int) / 0x100000000000) % 16), hex_char(((l as int) / 0x10000000000) % 16), hex_char(((l as int) / 0x1000000000) % 16), hex_char(((l as int) / 0x100000000) % 16), hex_char(((l as int) / 0x10000000) % 16), hex_char(((l as int) / 0x1000000) % 16), hex_char(((l as int) / 0x100000) % 16), hex_char(((l as int) / 0x10000) % 16), hex_char(((l as int) / 0x1000) % 16), hex_char(((l as int) / 0x100) % 16), hex_char(((l as int) / 0x10) % 16)]);
    }
    s.append(hex_digit_str(l % 16));
    proof {
        assert(s@ =~= old(s)@ + seq![hex_char(((l as int) / 0x1000000000000000) % 16), hex_char(((l as int) / 0x100000000000000) % 16), hex_char(((l as int) / 0x10000000000000) % 16), hex_char(((l as int) / 0x1000000000000) % 16), hex_char(((l as int) / 0x100000000000) % 16), hex_char(((l as int) / 0x10000000000) % 16), hex_char(((l as int) / 0x1000000000) % 16), hex_char(((l as int) / 0x100000000) % 16), hex_char(((l as int) / 0x10000000) % 16), hex_char(((l as int) / 0x1000000) % 16), hex_char(((l as int) / 0x100000) % 16), hex_char(((l as int) / 0x10000) % 16), hex_char(((l as int) / 0x1000) % 16), hex_char(((l as int) / 0x100) % 16), hex_char(((l as int) / 0x10) % 16), hex_char((l as int) % 16)]);
    }
}

impl Fp {
    /// Renders this element for diagnostics, as [`hex_repr`] describes.
    /// Not a serialization format, and not constant-time.
    pub fn debug_hex(&self) -> (s: String)
        ensures
            s@ == hex_repr(self.spec_limbs()),
    {
        let l: [u64; 4] = self.limbs();
        let mut s: String = <String as vstd::string::StringExecFns>::from_str("Fp(0x");
        append_limb_hex(&mut s, l[3]);
        s.append("_");
        append_limb_hex(&mut s, l[2]);
        s.append("_");
        append_limb_hex(&mut s, l[1]);
        s.append("_");
        append_limb_hex(&mut s, l[0]);
        s.append(")");
        proof {
            assert(s@ =~= hex_repr(self.spec_limbs()));
        }
        s
    }
}

} // verus!
