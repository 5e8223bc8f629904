//! The parameters of a CRC-16/CCITT variant and the engine built on the
//! byte update: one-shot checksums and incremental digests.
use vstd::prelude::*;

use crate::bits::{reflect16, reflect8, reverse16, reverse8, shift_byte, update};

verus! {

/// The byte handed to the LSB-first register: unchanged when the input is
/// read LSB-first, reflected otherwise.
pub open spec fn feed(refin: bool, b: u8) -> u8 {
    if refin {
        b
    } else {
        reflect8(b)
    }
}

/// The register after the bytes have been folded into `crc`, in order.
pub open spec fn fold_bytes(refin: bool, crc: u16, bytes: Seq<u8>) -> u16
    decreases bytes.len(),
{
    if bytes.len() == 0 {
        crc
    } else {
        shift_byte(fold_bytes(refin, crc, bytes.drop_last()), feed(refin, bytes.last()))
    }
}

/// The parameters of a CRC-16 over the polynomial 0x1021.
///
/// `check` is the checksum of the ASCII string "123456789" and `residue` the
/// register left after a message followed by its own checksum; neither takes
/// part in the computation.
#[derive(Debug, Copy, Clone)]
pub struct Algorithm {
    pub init: u16,
    pub refin: bool,
    pub refout: bool,
    pub xorout: u16,
    pub check: u16,
    pub residue: u16,
}

impl Algorithm {
    /// The register before any byte: `init`, reflected when the input is
    /// read LSB-first.
    pub open spec fn spec_init(self) -> u16 {
        if self.refin {
            reflect16(self.init)
        } else {
            self.init
        }
    }

    /// The register after the bytes have been folded into `crc`.
    pub open spec fn spec_update(self, crc: u16, bytes: Seq<u8>) -> u16 {
        fold_bytes(self.refin, crc, bytes)
    }

    /// The checksum read from a register: reflected unless the output is
    /// LSB-first, then xored with `xorout`.
    pub open spec fn spec_finalize(self, crc: u16) -> u16 {
        (if self.refout {
            crc
        } else {
            reflect16(crc)
        }) ^ self.xorout
    }

    /// The checksum of a whole message.
    pub open spec fn spec_checksum(self, bytes: Seq<u8>) -> u16 {
        self.spec_finalize(self.spec_update(self.spec_init(), bytes))
    }

    /// The register after the chunks have been folded into `crc` one after
    /// the other, as a digest does.
    pub open spec fn spec_update_chunks(self, crc: u16, chunks: Seq<Seq<u8>>) -> u16
        decreases chunks.len(),
    {
        if chunks.len() == 0 {
            crc
        } else {
            self.spec_update_chunks(self.spec_update(crc, chunks.first()), chunks.drop_first())
        }
    }

    /// The checksum of `bytes`.
    pub fn checksum(&self, bytes: &[u8]) -> (r: u16)
        ensures
            r == self.spec_checksum(bytes@),
    {
        let mut crc = self.init();
        crc = self.update(crc, bytes);
        self.finalize(crc)
    }

    fn init(&self) -> (r: u16)
        ensures
            r == self.spec_init(),
    {
        if self.refin {
            reverse16(self.init)
        } else {
            self.init
        }
    }

    fn update(&self, crc: u16, bytes: &[u8]) -> (r: u16)
        ensures
            r == self.spec_update(crc, bytes@),
    {
        let mut reg = crc;
        let mut i: usize = 0;
        if self.refin {
            while i < bytes.len()
                invariant
                    self.refin,
                    i <= bytes@.len(),
                    reg == self.spec_update(crc, bytes@.subrange(0, i as int)),
                decreases bytes@.len() - i,
            {
                assert(bytes@.subrange(0, i + 1).drop_last() =~= bytes@.subrange(0, i as int));
                reg = update(reg, bytes[i]);
                i += 1;
            }
        } else {
            while i < bytes.len()
                invariant
                    !self.refin,
                    i <= bytes@.len(),
                    reg == self.spec_update(crc, bytes@.subrange(0, i as int)),
                decreases bytes@.len() - i,
            {
                assert(bytes@.subrange(0, i + 1).drop_last() =~= bytes@.subrange(0, i as int));
                reg = update(reg, reverse8(bytes[i]));
                i += 1;
            }
        }
        assert(bytes@.subrange(0, bytes@.len() as int) =~= bytes@);
        reg
    }

    fn finalize(&self, crc: u16) -> (r: u16)
        ensures
            r == self.spec_finalize(crc),
    {
        let out = if !self.refout {
            reverse16(crc)
        } else {
            crc
        };
        out ^ self.xorout
    }

    /// A digest that starts from this algorithm's initial register.
    pub fn digest(&self) -> (d: Digest<'_>)
        ensures
            d.algorithm() == *self,
            d.register() == self.spec_init(),
    {
        Digest::new(self)
    }
}

/// An incremental checksum: bytes are fed in any number of pieces, and the
/// checksum is read once at the end.
#[derive(Debug, Copy, Clone)]
pub struct Digest<'a> {
    algorithm: &'a Algorithm,
    value: u16,
}

impl<'a> Digest<'a> {
    /// The parameters the digest computes with.
    pub closed spec fn algorithm(self) -> Algorithm {
        *self.algorithm
    }

    /// The register after the bytes fed so far.
    pub closed spec fn register(self) -> u16 {
        self.value
    }

    fn new(algorithm: &'a Algorithm) -> (d: Self)
        ensures
            d.algorithm() == *algorithm,
            d.register() == algorithm.spec_init(),
    {
        let value = algorithm.init();
        Digest { algorithm, value }
    }

    /// Folds `bytes` into the register.
    pub fn update(&mut self, bytes: &[u8])
        ensures
            final(self).algorithm() == old(self).algorithm(),
            final(self).register() == old(self).algorithm().spec_update(
                old(self).register(),
                bytes@,
            ),
    {
        self.value = self.algorithm.update(self.value, bytes);
    }

    /// The checksum of everything fed so far.
    pub fn finalize(self) -> (r: u16)
        ensures
            r == self.algorithm().spec_finalize(self.register()),
    {
        self.algorithm.finalize(self.value)
    }
}

/// Folding two pieces one after the other gives the register of folding
/// their concatenation at once.
pub proof fn lemma_update_concat(alg: Algorithm, crc: u16, a: Seq<u8>, b: Seq<u8>)
    ensures
        alg.spec_update(alg.spec_update(crc, a), b) == alg.spec_update(crc, a + b),
    decreases b.len(),
{
    if b.len() == 0 {
        assert(a + b =~= a);
    } else {
        lemma_update_concat(alg, crc, a, b.drop_last());
        assert((a + b).drop_last() =~= a + b.drop_last());
        assert((a + b).last() == b.last());
    }
}

/// Feeding a message to a digest in chunks, in order, and finalizing gives
/// the one-shot checksum of the whole message, however it was cut.
pub proof fn lemma_streaming(alg: Algorithm, chunks: Seq<Seq<u8>>)
    ensures
        alg.spec_finalize(alg.spec_update_chunks(alg.spec_init(), chunks)) == alg.spec_checksum(
            chunks.flatten(),
        ),
{
    lemma_update_chunks_flatten(alg, alg.spec_init(), chunks);
}

/// Folding chunks one after the other folds their concatenation.
pub proof fn lemma_update_chunks_flatten(alg: Algorithm, crc: u16, chunks: Seq<Seq<u8>>)
    ensures
        alg.spec_update_chunks(crc, chunks) == alg.spec_update(crc, chunks.flatten()),
    decreases chunks.len(),
{
    if chunks.len() > 0 {
        let next = alg.spec_update(crc, chunks.first());
        lemma_update_chunks_flatten(alg, next, chunks.drop_first());
        lemma_update_concat(alg, crc, chunks.first(), chunks.drop_first().flatten());
    }
}

/// The checksum of the empty message is the initial register, finalized.
pub proof fn lemma_empty_input(alg: Algorithm)
    ensures
        alg.spec_checksum(Seq::empty()) == alg.spec_finalize(alg.spec_init()),
{
}

} // verus!
