//! The pre-hashed 64-bit integer type.

use crate::mixer::MIX_MUL_1;
use crate::mixer::MIX_MUL_2;
use crate::mixer::UNMIX_MUL_1;
use crate::mixer::UNMIX_MUL_2;
use crate::mixer::lemma_unmix_mix;
use crate::mixer::mix;
use crate::mixer::unmix;
use vstd::prelude::*;
use vstd::string::StringExecFns;

verus! {

/// The decimal digit character for a value below ten.
pub open spec fn dec_digit(d: nat) -> char {
    if d == 0 {
        '0'
    } else if d == 1 {
        '1'
    } else if d == 2 {
        '2'
    } else if d == 3 {
        '3'
    } else if d == 4 {
        '4'
    } else if d == 5 {
        '5'
    } else if d == 6 {
        '6'
    } else if d == 7 {
        '7'
    } else if d == 8 {
        '8'
    } else {
        '9'
    }
}

/// The decimal rendering of a number, most significant digit first,
/// with no leading zeros (a single `'0'` for zero).
pub open spec fn dec_str(n: nat) -> Seq<char>
    decreases n,
{
    if n < 10 {
        seq![dec_digit(n)]
    } else {
        dec_str(n / 10) + seq![dec_digit(n % 10)]
    }
}

/// Append one decimal digit character for `d`, which is below ten.
fn push_digit(d: u64, s: &mut String)
    requires
        d < 10,
    ensures
        final(s)@ == old(s)@ + seq![dec_digit(d as nat)],
{
    proof {
        reveal_strlit("0");
        reveal_strlit("1");
        reveal_strlit("2");
        reveal_strlit("3");
        reveal_strlit("4");
        reveal_strlit("5");
        reveal_strlit("6");
        reveal_strlit("7");
        reveal_strlit("8");
        reveal_strlit("9");
    }
    if d == 0 {
        s.append("0");
    } else if d == 1 {
        s.append("1");
    } else if d == 2 {
        s.append("2");
    } else if d == 3 {
        s.append("3");
    } else if d == 4 {
        s.append("4");
    } else if d == 5 {
        s.append("5");
    } else if d == 6 {
        s.append("6");
    } else if d == 7 {
        s.append("7");
    } else if d == 8 {
        s.append("8");
    } else {
        s.append("9");
    }
    assert(s@ =~= old(s)@ + seq![dec_digit(d as nat)]);
}

/// Append the decimal rendering of `n`.
fn push_decimal(n: u64, s: &mut String)
    ensures
        final(s)@ == old(s)@ + dec_str(n as nat),
    decreases n,
{
    if n >= 10 {
        push_decimal(n / 10, s);
    }
    push_digit(n % 10, s);
    assert(s@ =~= old(s)@ + dec_str(n as nat));
}

/// Pre-hashed 64-bit integer.
///
/// Stores the image of a `u64` under [`mix`], so a container keyed by
/// [`H64`] and hashed with [`crate::H64Hasher`] never has to hash the
/// value again. Rendering an [`H64`] as text shows the original
/// `u64`, not the stored bits.
#[derive(Clone, Copy, PartialEq, Eq, Hash, Structural)]
pub struct H64(u64);

impl H64 {
    /// The stored bits: the mixed form of the logical value.
    pub closed spec fn bits(self) -> u64 {
        self.0
    }

    /// The logical value this wrapper stands for.
    pub open spec fn revealed(self) -> u64 {
        unmix(self.bits())
    }

    /// Create an [`H64`] from a `u64` by mixing it.
    pub fn hash(i: u64) -> (r: Self)
        ensures
            r.bits() == mix(i),
            r.revealed() == i,
    {
        let a: u64 = (i ^ (i >> 30)).wrapping_mul(MIX_MUL_1);
        let b: u64 = (a ^ (a >> 27)).wrapping_mul(MIX_MUL_2);
        let c: u64 = b ^ (b >> 31);
        proof {
            lemma_unmix_mix(i);
        }
        H64(c)
    }

    /// Obtain the original `u64` by unmixing the stored bits.
    pub fn unhash(self) -> (r: u64)
        ensures
            r == self.revealed(),
    {
        let y: u64 = self.0;
        let b: u64 = (y ^ (y >> 31) ^ (y >> 62)).wrapping_mul(UNMIX_MUL_1);
        let a: u64 = (b ^ (b >> 27) ^ (b >> 54)).wrapping_mul(UNMIX_MUL_2);
        a ^ (a >> 30) ^ (a >> 60)
    }

    /// The decimal rendering of the value: the original `u64` this
    /// wrapper was created from, never the stored mixed bits.
    pub fn to_string(&self) -> (r: String)
        ensures
            r@ == dec_str(self.revealed() as nat),
    {
        let mut s = String::new();
        push_decimal(self.unhash(), &mut s);
        proof {
            assert(s@ =~= dec_str(self.revealed() as nat));
        }
        s
    }

    /// The stored bits, as a plain integer.
    pub fn to_bits(self) -> (r: u64)
        ensures
            r == self.bits(),
    {
        self.0
    }

    /// Two values are equal exactly when their stored bits are equal;
    /// by bijectivity, also exactly when their revealed values are.
    pub proof fn lemma_eq_bits(a: H64, b: H64)
        ensures
            (a == b) <==> (a.bits() == b.bits()),
            (a == b) <==> (a.revealed() == b.revealed()),
    {
        crate::mixer::lemma_mix_unmix(a.bits());
        crate::mixer::lemma_mix_unmix(b.bits());
    }
}

} // verus!
