//! Protocol identity: a 64-bit compatibility identifier derived from the
//! build's semantic version.
//!
//! Two builds are wire-compatible exactly when their major version and
//! prerelease label agree; minor, patch and build metadata are excluded from
//! the derivation so that patch releases stay compatible.

use vstd::prelude::*;

verus! {

/// A semantic version. The prerelease label and build metadata are kept as
/// ASCII bytes; they are hashed (prerelease) or ignored (metadata, minor,
/// patch) by the protocol identity derivation.
#[derive(Clone, Debug)]
pub struct SemVer {
    pub major: u64,
    pub minor: u64,
    pub patch: u64,
    pub pre: Vec<u8>,
    pub build: Vec<u8>,
}

/// Offset basis of the 64-bit FNV-1a hash.
pub const FNV_OFFSET_BASIS: u64 = 0xcbf29ce484222325;

/// Prime of the 64-bit FNV-1a hash.
pub const FNV_PRIME: u64 = 0x100000001b3;

/// One FNV-1a round: xor the byte in, multiply by the prime modulo 2^64.
pub open spec fn fnv1a_step(h: u64, b: u8) -> u64 {
    ((((h ^ (b as u64)) as nat) * (FNV_PRIME as nat)) % 0x10000000000000000) as u64
}

/// 64-bit FNV-1a hash of a byte sequence.
pub open spec fn fnv1a(s: Seq<u8>) -> u64
    decreases s.len(),
{
    if s.len() == 0 {
        FNV_OFFSET_BASIS
    } else {
        fnv1a_step(fnv1a(s.drop_last()), s.last())
    }
}

/// Decimal digits of `n`, most significant first, as ASCII bytes.
pub open spec fn dec_digits(n: nat) -> Seq<u8>
    decreases n,
{
    if n < 10 {
        seq![(48 + n) as u8]
    } else {
        dec_digits(n / 10).push((48 + n % 10) as u8)
    }
}

/// The canonical substring of a version that decides wire compatibility:
/// the major version in decimal, then, if the prerelease label is nonempty,
/// a hyphen and the label.
pub open spec fn protocol_string(major: u64, pre: Seq<u8>) -> Seq<u8> {
    if pre.len() == 0 {
        dec_digits(major as nat)
    } else {
        dec_digits(major as nat) + seq![45u8] + pre
    }
}

/// The protocol identity of a version: the FNV-1a hash of its canonical
/// substring. Only the major version and the prerelease label enter.
pub open spec fn spec_protocol_id(v: SemVer) -> u64 {
    fnv1a(protocol_string(v.major, v.pre@))
}

/// Appends the decimal digits of `n` to `out`.
fn push_decimal(out: &mut Vec<u8>, n: u64)
    ensures
        final(out)@ == old(out)@ + dec_digits(n as nat),
    decreases n,
{
    if n < 10 {
        out.push(48 + n as u8);
    } else {
        push_decimal(out, n / 10);
        out.push(48 + (n % 10) as u8);
        proof {
            assert(old(out)@ + dec_digits(n as nat) == (old(out)@ + dec_digits(n as nat / 10)).push(
                (48 + n as nat % 10) as u8,
            ));
        }
    }
}

/// 64-bit FNV-1a hash of `bytes`.
fn fnv1a_hash(bytes: &Vec<u8>) -> (h: u64)
    ensures
        h == fnv1a(bytes@),
{
    let mut h: u64 = FNV_OFFSET_BASIS;
    let mut i: usize = 0;
    while i < bytes.len()
        invariant
            i <= bytes@.len(),
            h == fnv1a(bytes@.take(i as int)),
        decreases bytes@.len() - i,
    {
        let b = bytes[i];
        let wide: u128 = ((h ^ (b as u64)) as u128) * (FNV_PRIME as u128);
        let folded: u128 = wide % 0x10000000000000000;
        proof {
            assert(bytes@.take(i + 1).drop_last() =~= bytes@.take(i as int));
            assert(bytes@.take(i + 1).last() == bytes@[i as int]);
        }
        h = folded as u64;
        i = i + 1;
    }
    proof {
        assert(bytes@.take(bytes@.len() as int) =~= bytes@);
    }
    h
}

/// Derives the protocol identity of `version`: the FNV-1a hash of the
/// canonical substring made of the major version and the prerelease label.
/// Deterministic and side-effect-free; minor, patch and build metadata do
/// not influence the result.
pub fn compute_protocol_id(version: &SemVer) -> (id: u64)
    ensures
        id == spec_protocol_id(*version),
{
    let mut canon: Vec<u8> = Vec::new();
    push_decimal(&mut canon, version.major);
    if version.pre.len() > 0 {
        canon.push(45);
        let mut i: usize = 0;
        while i < version.pre.len()
            invariant
                i <= version.pre@.len(),
                canon@ == dec_digits(version.major as nat) + seq![45u8] + version.pre@.take(i as int),
            decreases version.pre@.len() - i,
        {
            canon.push(version.pre[i]);
            proof {
                assert(version.pre@.take(i + 1) =~= version.pre@.take(i as int).push(
                    version.pre@[i as int],
                ));
            }
            i = i + 1;
        }
        proof {
            assert(version.pre@.take(version.pre@.len() as int) =~= version.pre@);
        }
    }
    fnv1a_hash(&canon)
}

/// Versions whose major version and prerelease label agree have the same
/// protocol identity, whatever their minor version, patch version and build
/// metadata.
pub proof fn lemma_protocol_id_ignores_minor_patch_build(a: SemVer, b: SemVer)
    requires
        a.major == b.major,
        a.pre@ == b.pre@,
    ensures
        spec_protocol_id(a) == spec_protocol_id(b),
{
}

} // verus!
