//! Case-insensitive tag-name hashing.
//!
//! A tag name is folded into a `u64` by packing one 6-bit code per byte:
//! ASCII letters (case-insensitively) map to 1..=26, digits to 27..=36 and
//! `-` to 37. Names that contain any other byte, or that are long enough to
//! overflow the 58-bit budget, have no hash (`None`). Because every code is
//! non-zero and below 64, the packing is injective: two names receive the
//! same hash exactly when they are equal after ASCII lower-casing. The
//! tokenizer uses this both to classify built-in raw-text elements and to
//! recognize the appropriate end tag without a byte-by-byte comparison.

use vstd::prelude::*;
use crate::lower_byte;

verus! {

/// Largest accumulated hash that still admits another 6-bit code without
/// leaving `u64` range.
pub const HASH_CAP: u64 = 0x0100_0000_0000_0000;

/// 6-bit code of one (already lower-cased) name byte, if it is admissible.
pub open spec fn code_of(b: u8) -> Option<u64> {
    if 0x61 <= b && b <= 0x7a {
        Some((b - 0x60) as u64)
    } else if 0x30 <= b && b <= 0x39 {
        Some((b - 0x30 + 27) as u64)
    } else if b == 0x2d {
        Some(37u64)
    } else {
        None
    }
}

/// Fold one more name byte into an accumulated hash.
pub open spec fn hash_push(h: Option<u64>, b: u8) -> Option<u64> {
    match h {
        Some(v) => match code_of(lower_byte(b)) {
            Some(c) => if v < HASH_CAP {
                Some((v * 64 + c) as u64)
            } else {
                None
            },
            None => None,
        },
        None => None,
    }
}

/// Case-insensitive hash of a whole name, folded from the left.
pub open spec fn hash_of(name: Seq<u8>) -> Option<u64>
    decreases name.len(),
{
    if name.len() == 0 {
        Some(0u64)
    } else {
        hash_push(hash_of(name.drop_last()), name.last())
    }
}

/// ASCII lower-casing of a byte sequence.
pub open spec fn lower_seq(s: Seq<u8>) -> Seq<u8> {
    s.map_values(|b: u8| lower_byte(b))
}

/// Executable counterpart of `hash_push`.
pub fn update_hash(h: Option<u64>, b: u8) -> (r: Option<u64>)
    ensures
        r == hash_push(h, b),
{
    match h {
        Some(v) => {
            let lb = crate::to_lower_byte(b);
            let c: u64 = if 0x61 <= lb && lb <= 0x7a {
                (lb - 0x60) as u64
            } else if 0x30 <= lb && lb <= 0x39 {
                (lb - 0x30 + 27) as u64
            } else if lb == 0x2d {
                37u64
            } else {
                return None;
            };
            if v < HASH_CAP {
                Some(v * 64 + c)
            } else {
                None
            }
        },
        None => None,
    }
}

/// Case-insensitive hash of a whole name.
pub fn get_hash(name: &[u8]) -> (r: Option<u64>)
    ensures
        r == hash_of(name@),
{
    let mut h: Option<u64> = Some(0);
    let mut i: usize = 0;
    while i < name.len()
        invariant
            0 <= i <= name@.len(),
            h == hash_of(name@.take(i as int)),
        decreases name@.len() - i,
    {
        proof {
            assert(name@.take(i + 1).drop_last() =~= name@.take(i as int));
            assert(name@.take(i + 1).last() == name@[i as int]);
        }
        h = update_hash(h, name[i]);
        i = i + 1;
    }
    proof {
        assert(name@.take(name@.len() as int) =~= name@);
    }
    h
}

/// Hashing is case-insensitive: a name and its lower-cased form agree.
///
/// Together with `lemma_hash_injective` this says hash equality coincides
/// with case-insensitive name equality wherever a hash exists at all.
pub proof fn lemma_hash_case_insensitive(name: Seq<u8>)
    ensures
        hash_of(name) == hash_of(lower_seq(name)),
    decreases name.len(),
{
    if name.len() == 0 {
        assert(lower_seq(name) =~= Seq::<u8>::empty());
    } else {
        lemma_hash_case_insensitive(name.drop_last());
        assert(lower_seq(name).drop_last() =~= lower_seq(name.drop_last()));
        assert(lower_seq(name).last() == lower_byte(name.last()));
        assert(lower_byte(lower_byte(name.last())) == lower_byte(name.last()));
    }
}

proof fn lemma_nonempty_hash_positive(name: Seq<u8>, v: u64)
    requires
        hash_of(name) == Some(v),
        name.len() > 0,
    ensures
        v >= 1,
{
    let p = hash_of(name.drop_last());
    match p {
        Some(pv) => {
            let c = code_of(lower_byte(name.last()));
            assert(c is Some && 1 <= c->0 <= 37);
        },
        None => {},
    }
}

/// The hash is collision-free: any two names that hash to the same defined
/// value are equal after ASCII lower-casing. In particular the closed set of
/// built-in tag names the tokenizer recognizes has pairwise distinct hashes.
pub proof fn lemma_hash_injective(a: Seq<u8>, b: Seq<u8>)
    requires
        hash_of(a) is Some,
        hash_of(a) == hash_of(b),
    ensures
        lower_seq(a) == lower_seq(b),
    decreases a.len() + b.len(),
{
    let va = hash_of(a)->0;
    if a.len() == 0 && b.len() == 0 {
        assert(lower_seq(a) =~= lower_seq(b));
    } else if a.len() == 0 {
        lemma_nonempty_hash_positive(b, va);
        assert(false);
    } else if b.len() == 0 {
        lemma_nonempty_hash_positive(a, va);
        assert(false);
    } else {
        let pa = hash_of(a.drop_last());
        let pb = hash_of(b.drop_last());
        let ca = code_of(lower_byte(a.last()));
        let cb = code_of(lower_byte(b.last()));
        assert(pa is Some && ca is Some && pa->0 < HASH_CAP);
        assert(pb is Some && cb is Some && pb->0 < HASH_CAP);
        let qa = pa->0;
        let qb = pb->0;
        let da = ca->0;
        let db = cb->0;
        assert(qa * 64 + da == qb * 64 + db);
        assert(1 <= da <= 37 && 1 <= db <= 37);
        assert(qa == qb && da == db) by (nonlinear_arith)
            requires
                qa * 64 + da == qb * 64 + db,
                1 <= da <= 37,
                1 <= db <= 37,
                qa >= 0,
                qb >= 0,
        ;
        lemma_hash_injective(a.drop_last(), b.drop_last());
        assert(lower_byte(a.last()) == lower_byte(b.last()));
        assert(lower_seq(a) =~= lower_seq(a.drop_last()).push(lower_byte(a.last())));
        assert(lower_seq(b) =~= lower_seq(b.drop_last()).push(lower_byte(b.last())));
    }
}

} // verus!
