//! An identity hasher for hash maps and sets keyed by word-sized integers.
//!
//! `NoHashHasher<T>` takes the single integer that a key writes and hands its
//! bit pattern back, widened to a `u64`, as the hash. There is no mixing: it is
//! meant for keys that are already well spread (dense ids, discriminants).
//! It offers no collision resistance and no defence against hash flooding.
//!
//! Writing a byte slice fails fatally, as does a second integer write on one
//! instance while diagnostics are on. With diagnostics off (see
//! `NoHashHasher::with_diagnostics`) a second write is not detected and the
//! last write wins: this trades correctness under misuse for speed.
use vstd::prelude::*;

verus! {

/// The number of distinct values of the 64-bit accumulator.
pub open spec fn word_modulus() -> int {
    0x1_0000_0000_0000_0000
}

/// The two's-complement bit pattern of `v` read as an unsigned 64-bit word,
/// for any `v` that some supported integer kind can hold.
pub open spec fn bit_pattern(v: int) -> int {
    if v >= 0 {
        v
    } else {
        v + word_modulus()
    }
}

/// Whether `v` is held by one of the supported kinds (`i64`'s least to `u64`'s greatest).
pub open spec fn in_supported_range(v: int) -> bool {
    -0x8000_0000_0000_0000 <= v < word_modulus()
}

/// Relies on `Option::expect`: called on `None` it panics with exactly the
/// message given, so this never returns.
#[verifier::external_body]
fn fail_fatally(msg: &str) {
    Option::<()>::None.expect(msg)
}

/// The closed set of key types that may be hashed as their own bits.
trait NoHashable {}

impl NoHashable for u8 {}

impl NoHashable for u16 {}

impl NoHashable for u32 {}

impl NoHashable for u64 {}

impl NoHashable for usize {}

impl NoHashable for i8 {}

impl NoHashable for i16 {}

impl NoHashable for i32 {}

impl NoHashable for i64 {}

impl NoHashable for isize {}

impl NoHashable for char {}

/// A hasher whose hash is the bit pattern of the one integer written to it.
///
/// One instance serves one hash computation: it is created fresh, written
/// once, finished, and dropped.
#[derive(Debug)]
pub struct NoHashHasher<T> {
    value: u64,
    _t: core::marker::PhantomData<T>,
    written: bool,
    diagnostics: bool,
}

/// A build-hasher that makes a fresh `NoHashHasher` for each hash.
pub type StableState<T> = core::hash::BuildHasherDefault<NoHashHasher<T>>;

/// A hash map keyed by integers, hashed as their own bits.
pub type NoHashMap<K, V> = std::collections::HashMap<K, V, StableState<K>>;

/// A hash set of integers, hashed as their own bits.
pub type NoHashSet<T> = std::collections::HashSet<T, StableState<T>>;

impl<T> NoHashHasher<T> {
    /// The accumulator: what `finish` returns.
    pub closed spec fn value(self) -> u64 {
        self.value
    }

    /// Whether an integer has been written (the state Written, else Fresh).
    pub closed spec fn is_written(self) -> bool {
        self.written
    }

    /// Whether a second integer write is detected and refused.
    pub closed spec fn diagnostics(self) -> bool {
        self.diagnostics
    }

    /// Whether the state is the one a new instance starts in.
    pub open spec fn is_fresh(self) -> bool {
        &&& self.value() == 0
        &&& !self.is_written()
    }

    /// Whether an integer write is allowed in this state.
    pub open spec fn spec_accepts_write(self) -> bool {
        !(self.diagnostics() && self.is_written())
    }

    /// The hasher holds exactly the bits of `v`, written once.
    pub open spec fn records(self, v: int) -> bool {
        &&& self.is_written()
        &&& self.value() as int == bit_pattern(v)
    }

    /// A fresh hasher with diagnostics on.
    pub fn new() -> (r: Self)
        ensures
            r.is_fresh(),
            r.diagnostics(),
    {
        Self::with_diagnostics(true)
    }

    /// A fresh hasher; `enabled` says whether a second write is detected.
    ///
    /// With `enabled` false a second write silently replaces the first.
    pub fn with_diagnostics(enabled: bool) -> (r: Self)
        ensures
            r.is_fresh(),
            r.diagnostics() == enabled,
    {
        NoHashHasher { value: 0, _t: core::marker::PhantomData, written: false, diagnostics: enabled }
    }

    /// Whether an integer write is allowed now: always, unless diagnostics are
    /// on and a write has already been made.
    pub fn accepts_write(&self) -> (r: bool)
        ensures
            r == self.spec_accepts_write(),
    {
        !(self.diagnostics && self.written)
    }

    /// Stores `word` as the accumulator, failing fatally where a write is refused.
    ///
    /// `fail_fatally` has no contract, so the `ensures` below are proved as if
    /// it returned: they describe every call that does return.
    fn store(&mut self, word: u64)
        ensures
            final(self).value() == word,
            final(self).is_written(),
            final(self).diagnostics() == old(self).diagnostics(),
    {
        if !self.accepts_write() {
            fail_fatally("NoHashHasher: `write` called more than once on the same hasher");
        }
        self.written = true;
        self.value = word;
    }
}

impl<T> Clone for NoHashHasher<T> {
    fn clone(&self) -> (r: Self)
        ensures
            r == *self,
    {
        NoHashHasher {
            value: self.value,
            _t: core::marker::PhantomData,
            written: self.written,
            diagnostics: self.diagnostics,
        }
    }
}

impl<T> Copy for NoHashHasher<T> {}

impl<T> Default for NoHashHasher<T> {
    fn default() -> (r: Self)
        ensures
            r.is_fresh(),
            r.diagnostics(),
    {
        Self::new()
    }
}

impl<T: NoHashable> core::hash::Hasher for NoHashHasher<T> {
    fn finish(&self) -> (r: u64)
        ensures
            r == self.value(),
    {
        self.value
    }

    /// Byte sequences are not hashed: every call fails fatally.
    fn write(&mut self, _bytes: &[u8]) {
        fail_fatally("NoHashHasher is intended for word-sized keys only");
    }

    fn write_u8(&mut self, i: u8)
        ensures
            final(self).records(i as int),
            final(self).diagnostics() == old(self).diagnostics(),
    {
        self.store(i as u64);
    }

    fn write_u16(&mut self, i: u16)
        ensures
            final(self).records(i as int),
            final(self).diagnostics() == old(self).diagnostics(),
    {
        self.store(i as u64);
    }

    fn write_u32(&mut self, i: u32)
        ensures
            final(self).records(i as int),
            final(self).diagnostics() == old(self).diagnostics(),
    {
        self.store(i as u64);
    }

    fn write_u64(&mut self, i: u64)
        ensures
            final(self).records(i as int),
            final(self).diagnostics() == old(self).diagnostics(),
    {
        self.store(i);
    }

    fn write_usize(&mut self, i: usize)
        ensures
            final(self).records(i as int),
            final(self).diagnostics() == old(self).diagnostics(),
    {
        self.store(i as u64);
    }

    fn write_i8(&mut self, i: i8)
        ensures
            final(self).records(i as int),
            final(self).diagnostics() == old(self).diagnostics(),
    {
        proof {
            assert(i < 0 ==> (i as u64) == 0xffff_ffff_ffff_ffffu64 - ((-1 - i) as u64))
                by (bit_vector);
        }
        self.store(i as u64);
    }

    fn write_i16(&mut self, i: i16)
        ensures
            final(self).records(i as int),
            final(self).diagnostics() == old(self).diagnostics(),
    {
        proof {
            assert(i < 0 ==> (i as u64) == 0xffff_ffff_ffff_ffffu64 - ((-1 - i) as u64))
                by (bit_vector);
        }
        self.store(i as u64);
    }

    fn write_i32(&mut self, i: i32)
        ensures
            final(self).records(i as int),
            final(self).diagnostics() == old(self).diagnostics(),
    {
        proof {
            assert(i < 0 ==> (i as u64) == 0xffff_ffff_ffff_ffffu64 - ((-1 - i) as u64))
                by (bit_vector);
        }
        self.store(i as u64);
    }

    fn write_i64(&mut self, i: i64)
        ensures
            final(self).records(i as int),
            final(self).diagnostics() == old(self).diagnostics(),
    {
        proof {
            assert(i < 0 ==> (i as u64) == 0xffff_ffff_ffff_ffffu64 - ((-1 - i) as u64))
                by (bit_vector);
        }
        self.store(i as u64);
    }

    fn write_isize(&mut self, i: isize)
        ensures
            final(self).records(i as int),
            final(self).diagnostics() == old(self).diagnostics(),
    {
        proof {
            assert(i < 0 ==> (i as u64) == 0xffff_ffff_ffff_ffffu64 - ((-1 - i) as u64))
                by (bit_vector);
        }
        self.store(i as u64);
    }
}

/// Writing any supported integer `v` once and then finishing yields `v`'s own
/// bits read as an unsigned 64-bit word: the one word congruent to `v` modulo
/// 2^64, which is `v` itself when `v` is not negative.
pub proof fn lemma_finish_after_one_write<T>(h: NoHashHasher<T>, v: int, r: u64)
    requires
        in_supported_range(v),
        h.records(v),
        r == h.value(),
    ensures
        (r as int - v) % word_modulus() == 0,
        v >= 0 ==> r as int == v,
        v < 0 ==> r as int == v + word_modulus(),
{
}

/// Finishing reads the accumulator and changes nothing, so two finishes in a
/// row return the same value.
pub proof fn lemma_finish_idempotent<T>(h: NoHashHasher<T>, r1: u64, r2: u64)
    requires
        r1 == h.value(),
        r2 == h.value(),
    ensures
        r1 == r2,
{
}

/// With diagnostics on, a hasher that holds a written integer refuses any
/// further write.
pub proof fn lemma_second_write_refused<T>(h: NoHashHasher<T>, v: int)
    requires
        h.diagnostics(),
        h.records(v),
    ensures
        !h.spec_accepts_write(),
{
}

} // verus!
