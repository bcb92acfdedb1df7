//! The mathematical model of the Diffie-Hellman arithmetic.
//!
//! Big integers cross the wire as big-endian byte strings.  This module says
//! what such a string stands for (`bytes_be_to_nat`), how a natural number is
//! rendered back (`nat_to_bytes_be`, the form num-bigint produces), and what
//! modular exponentiation means over those strings (`mod_pow_bytes`).  The
//! lemma `lemma_mod_pow_commutes` is the heart of key agreement: raising a
//! generator by two exponents in either order lands on the same value.

use vstd::prelude::*;
use vstd::arithmetic::div_mod::lemma_fundamental_div_mod;
use vstd::arithmetic::mul::lemma_mul_is_commutative;
use vstd::arithmetic::power::lemma_pow_mod_noop;
use vstd::arithmetic::power::lemma_pow_multiplies;
use vstd::arithmetic::power::pow;

verus! {

/// The natural number that a big-endian byte string stands for.  Leading
/// zero bytes change nothing; the empty string stands for zero.
pub open spec fn bytes_be_to_nat(s: Seq<u8>) -> nat
    decreases s.len(),
{
    if s.len() == 0 {
        0
    } else {
        (bytes_be_to_nat(s.drop_last()) * 256 + s.last()) as nat
    }
}

/// The shortest big-endian form of a natural number: no leading zero byte,
/// and the empty string for zero.
pub open spec fn nat_to_bytes_be_min(n: nat) -> Seq<u8>
    decreases n,
{
    if n == 0 {
        Seq::empty()
    } else {
        nat_to_bytes_be_min(n / 256) + seq![(n % 256) as u8]
    }
}

/// The big-endian form that num-bigint renders: a single zero byte for zero,
/// otherwise the shortest form.
pub open spec fn nat_to_bytes_be(n: nat) -> Seq<u8> {
    if n == 0 {
        seq![0u8]
    } else {
        nat_to_bytes_be_min(n)
    }
}

/// `(b ^ e) % m` over naturals.
pub open spec fn pow_mod(b: nat, e: nat, m: nat) -> nat
    recommends
        m > 0,
{
    (pow(b as int, e) % (m as int)) as nat
}

/// `base ^ exp mod modulus`, the operands big-endian byte strings and the
/// result in the form of `nat_to_bytes_be`.
pub open spec fn mod_pow_bytes(base: Seq<u8>, exp: Seq<u8>, modulus: Seq<u8>) -> Seq<u8> {
    nat_to_bytes_be(
        pow_mod(bytes_be_to_nat(base), bytes_be_to_nat(exp), bytes_be_to_nat(modulus)),
    )
}

/// Appending one byte multiplies the value by 256 and adds the byte.
pub proof fn lemma_bytes_be_snoc(s: Seq<u8>, x: u8)
    ensures
        bytes_be_to_nat(s + seq![x]) == bytes_be_to_nat(s) * 256 + x,
{
    let t = s + seq![x];
    assert(t.last() == x);
    assert(t.drop_last() =~= s);
}

/// Rendering a number and reading the string back returns the number.
pub proof fn lemma_min_bytes_roundtrip(n: nat)
    ensures
        bytes_be_to_nat(nat_to_bytes_be_min(n)) == n,
    decreases n,
{
    if n != 0 {
        lemma_min_bytes_roundtrip(n / 256);
        lemma_bytes_be_snoc(nat_to_bytes_be_min(n / 256), (n % 256) as u8);
        lemma_fundamental_div_mod(n as int, 256);
    }
}

/// Rendering in the num-bigint form and reading back returns the number.
pub proof fn lemma_bytes_roundtrip(n: nat)
    ensures
        bytes_be_to_nat(nat_to_bytes_be(n)) == n,
{
    if n == 0 {
        assert(nat_to_bytes_be(0) =~= seq![0u8]);
        assert(bytes_be_to_nat(seq![0u8].drop_last()) == 0);
    } else {
        lemma_min_bytes_roundtrip(n);
    }
}

/// A byte string stands for zero exactly when every byte in it is zero.
pub proof fn lemma_bytes_zero_iff(s: Seq<u8>)
    ensures
        (bytes_be_to_nat(s) == 0) <==> (forall|i: int| 0 <= i < s.len() ==> s[i] == 0),
    decreases s.len(),
{
    if s.len() > 0 {
        lemma_bytes_zero_iff(s.drop_last());
        if bytes_be_to_nat(s) == 0 {
            assert(s.last() == 0);
            assert forall|i: int| 0 <= i < s.len() implies s[i] == 0 by {
                if i < s.len() - 1 {
                    assert(s[i] == s.drop_last()[i]);
                }
            }
        } else {
            if forall|i: int| 0 <= i < s.len() ==> s[i] == 0 {
                assert forall|i: int| 0 <= i < s.drop_last().len() implies s.drop_last()[i]
                    == 0 by {
                    assert(s.drop_last()[i] == s[i]);
                }
                assert(s.last() == 0);
            }
        }
    }
}

/// The value of a byte string is below 256 to the power of its length.
pub proof fn lemma_bytes_be_bound(s: Seq<u8>)
    ensures
        bytes_be_to_nat(s) < pow(256, s.len() as nat),
    decreases s.len(),
{
    if s.len() == 0 {
        vstd::arithmetic::power::lemma_pow0(256);
    } else {
        lemma_bytes_be_bound(s.drop_last());
        assert(pow(256, s.len() as nat) == 256 * pow(256, (s.len() - 1) as nat)) by {
            vstd::arithmetic::power::lemma_pow1(256);
            lemma_pow_multiplies(256, 1, (s.len() - 1) as nat);
            vstd::arithmetic::power::lemma_pow_adds(256, 1, (s.len() - 1) as nat);
        }
        assert(bytes_be_to_nat(s.drop_last()) * 256 + s.last() < 256 * pow(256, (s.len() - 1) as nat)) by {
            let v = bytes_be_to_nat(s.drop_last()) as int;
            let b = pow(256, (s.len() - 1) as nat);
            assert(v + 1 <= b);
            assert((v + 1) * 256 <= b * 256) by (nonlinear_arith)
                requires v + 1 <= b;
            assert(v * 256 + 256 == (v + 1) * 256) by (nonlinear_arith);
        }
    }
}

/// A number below 256 to the k keeps to at most k bytes in its short form.
pub proof fn lemma_min_bytes_len(n: nat, k: nat)
    requires
        n < pow(256, k),
    ensures
        nat_to_bytes_be_min(n).len() <= k,
    decreases n,
{
    if n != 0 {
        assert(k != 0) by {
            vstd::arithmetic::power::lemma_pow0(256);
        }
        assert(n / 256 < pow(256, (k - 1) as nat)) by {
            vstd::arithmetic::power::lemma_pow1(256);
            vstd::arithmetic::power::lemma_pow_adds(256, 1, (k - 1) as nat);
            assert(pow(256, k) == 256 * pow(256, (k - 1) as nat));
            let b = pow(256, (k - 1) as nat);
            assert(n / 256 < b) by (nonlinear_arith)
                requires n < 256 * b, b > 0, n >= 0;
            assert(b > 0) by {
                vstd::arithmetic::power::lemma_pow_positive(256, (k - 1) as nat);
            }
        }
        lemma_min_bytes_len(n / 256, (k - 1) as nat);
    }
}

/// Reducing a value below a modulus keeps its rendering within the byte
/// length of any string standing for that modulus.
pub proof fn lemma_mod_pow_bytes_len(base: Seq<u8>, exp: Seq<u8>, modulus: Seq<u8>)
    requires
        bytes_be_to_nat(modulus) > 0,
    ensures
        mod_pow_bytes(base, exp, modulus).len() <= modulus.len(),
        mod_pow_bytes(base, exp, modulus).len() >= 1,
{
    let m = bytes_be_to_nat(modulus);
    let r = pow_mod(bytes_be_to_nat(base), bytes_be_to_nat(exp), m);
    assert(r < m);
    lemma_bytes_be_bound(modulus);
    lemma_min_bytes_len(r, modulus.len() as nat);
    assert(modulus.len() >= 1) by {
        if modulus.len() == 0 {
            assert(bytes_be_to_nat(modulus) == 0);
        }
    }
    if r != 0 {
        assert(nat_to_bytes_be_min(r).len() >= 1);
    }
}

/// Whether a big-endian byte string stands for a number other than zero.
pub fn bytes_nonzero(v: &Vec<u8>) -> (r: bool)
    ensures
        r <==> bytes_be_to_nat(v@) != 0,
{
    let mut i: usize = 0;
    let mut found = false;
    while i < v.len()
        invariant
            i <= v@.len(),
            found <==> exists|j: int| 0 <= j < i && v@[j] != 0,
        decreases v@.len() - i,
    {
        if v[i] != 0 {
            found = true;
        }
        i += 1;
    }
    proof {
        lemma_bytes_zero_iff(v@);
    }
    found
}

/// Two peers that exchange public keys `g^a mod p` and `g^b mod p` and then
/// raise what they received by their own exponent land on the same shared
/// secret, byte for byte.
pub proof fn lemma_mod_pow_commutes(g: Seq<u8>, p: Seq<u8>, a: Seq<u8>, b: Seq<u8>)
    requires
        bytes_be_to_nat(p) > 0,
    ensures
        mod_pow_bytes(mod_pow_bytes(g, a, p), b, p) == mod_pow_bytes(mod_pow_bytes(g, b, p), a, p),
{
    let gn = bytes_be_to_nat(g);
    let pn = bytes_be_to_nat(p);
    let an = bytes_be_to_nat(a);
    let bn = bytes_be_to_nat(b);
    lemma_bytes_roundtrip(pow_mod(gn, an, pn));
    lemma_bytes_roundtrip(pow_mod(gn, bn, pn));
    lemma_one_way_commutes(gn, pn, an, bn);
    lemma_one_way_commutes(gn, pn, bn, an);
    lemma_mul_is_commutative(an as int, bn as int);
}

/// `(g^a mod p)^b mod p == g^(a*b) mod p` over naturals.
proof fn lemma_one_way_commutes(g: nat, p: nat, a: nat, b: nat)
    requires
        p > 0,
    ensures
        pow_mod(pow_mod(g, a, p), b, p) == (pow(g as int, a * b) % (p as int)) as nat,
{
    lemma_pow_mod_noop(pow(g as int, a), b, p as int);
    lemma_pow_multiplies(g as int, a, b);
    assert((pow_mod(g, a, p) as int) == pow(g as int, a) % (p as int));
}

} // verus!
