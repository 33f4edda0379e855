//! An owned, rewritable end-tag token: its name can be replaced, after
//! which the original raw bytes no longer stand for it.

use vstd::prelude::*;
use crate::encoding::{utf8_decode_of, decode_utf8};
use crate::hash::lower_seq;

verus! {

/// An end tag captured for rewriting: the name bytes and, while the tag
/// is unchanged, its exact raw bytes.
pub struct EndTag {
    pub name_bytes: Vec<u8>,
    pub raw: Option<Vec<u8>>,
}

impl EndTag {
    /// Capture an end tag from its name and raw bytes.
    pub fn new_token(name_bytes: Vec<u8>, raw: Vec<u8>) -> (r: Self)
        ensures
            r.name_bytes@ == name_bytes@,
            r.raw is Some && r.raw->0@ == raw@,
    {
        EndTag { name_bytes, raw: Some(raw) }
    }

    /// The tag name as decoded text, ASCII lower-cased.
    pub fn name(&self) -> (r: String)
        ensures
            r@ == utf8_decode_of(lower_seq(self.name_bytes@)),
    {
        let mut low: Vec<u8> = Vec::new();
        let mut i: usize = 0;
        while i < self.name_bytes.len()
            invariant
                0 <= i <= self.name_bytes@.len(),
                low@ == lower_seq(self.name_bytes@).take(i as int),
            decreases self.name_bytes@.len() - i,
        {
            low.push(crate::to_lower_byte(self.name_bytes[i]));
            proof {
                assert(lower_seq(self.name_bytes@).take(i + 1)
                    =~= lower_seq(self.name_bytes@).take(i as int).push(
                        crate::lower_byte(self.name_bytes@[i as int]),
                    ));
            }
            i = i + 1;
        }
        proof {
            assert(lower_seq(self.name_bytes@).take(self.name_bytes@.len() as int)
                =~= lower_seq(self.name_bytes@));
        }
        decode_utf8(low.as_slice()).0
    }

    /// Replace the tag name; the stored raw bytes no longer describe the
    /// tag and are dropped.
    pub fn set_name(&mut self, name_bytes: Vec<u8>)
        ensures
            final(self).name_bytes@ == name_bytes@,
            final(self).raw is None,
    {
        self.name_bytes = name_bytes;
        self.raw = None;
    }

    /// Serialize the tag: the raw bytes verbatim while they still stand,
    /// otherwise `</`, the name, `>`.
    pub fn serialize_into(&self, out: &mut Vec<u8>)
        ensures
            self.raw is Some ==> final(out)@ == old(out)@ + self.raw->0@,
            self.raw is None ==> final(out)@ == old(out)@ + seq![0x3cu8, 0x2fu8]
                + self.name_bytes@ + seq![0x3eu8],
    {
        match &self.raw {
            Some(r) => {
                let mut i: usize = 0;
                while i < r.len()
                    invariant
                        0 <= i <= r@.len(),
                        out@ == old(out)@ + r@.take(i as int),
                    decreases r@.len() - i,
                {
                    out.push(r[i]);
                    proof {
                        assert(r@.take(i + 1) =~= r@.take(i as int).push(r@[i as int]));
                        assert(out@ =~= old(out)@ + r@.take(i + 1));
                    }
                    i = i + 1;
                }
                proof {
                    assert(r@.take(r@.len() as int) =~= r@);
                    assert(out@ =~= old(out)@ + r@);
                }
            },
            None => {
                out.push(0x3c);
                out.push(0x2f);
                let mut i: usize = 0;
                while i < self.name_bytes.len()
                    invariant
                        0 <= i <= self.name_bytes@.len(),
                        out@ == old(out)@ + seq![0x3cu8, 0x2fu8] + self.name_bytes@.take(i as int),
                    decreases self.name_bytes@.len() - i,
                {
                    out.push(self.name_bytes[i]);
                    proof {
                        assert(self.name_bytes@.take(i + 1)
                            =~= self.name_bytes@.take(i as int).push(self.name_bytes@[i as int]));
                        assert(out@ =~= old(out)@ + seq![0x3cu8, 0x2fu8]
                            + self.name_bytes@.take(i + 1));
                    }
                    i = i + 1;
                }
                out.push(0x3e);
                proof {
                    assert(self.name_bytes@.take(self.name_bytes@.len() as int)
                        =~= self.name_bytes@);
                    assert(out@ =~= old(out)@ + seq![0x3cu8, 0x2fu8] + self.name_bytes@
                        + seq![0x3eu8]);
                }
            },
        }
    }
}

} // verus!
