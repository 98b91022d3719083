//! Preparation of sample buffers for block operations of the native library.
//!
//! A block operation hands the native library a buffer of samples in its own
//! layout, the number of samples as a 32-bit count, and a second buffer of the
//! same length to write into. The functions here build those three things,
//! whatever the sample type is.

use vstd::prelude::*;

verus! {

/// The number of samples that a 32-bit count can tell apart.
pub open spec fn count_modulus() -> int {
    0x1_0000_0000
}

/// The count that the native library is given for a buffer of `len` samples:
/// `len` reduced to 32 bits.
pub open spec fn sample_count_spec(len: int) -> int {
    len % count_modulus()
}

/// Returns the count that the native library is given for a buffer of `len`
/// samples.
///
/// The count is `len` itself as long as `len` fits in 32 bits; a longer buffer
/// keeps only the low 32 bits of its length, so the native library works on a
/// prefix of it.
pub fn sample_count(len: usize) -> (count: u32)
    ensures
        count == sample_count_spec(len as int),
        len <= u32::MAX ==> count == len,
{
    let wide: u64 = len as u64;
    let count: u32 = #[verifier::truncate] (wide as u32);
    assert(count == wide % 0x1_0000_0000) by (bit_vector)
        requires
            count == wide as u32,
    ;
    count
}

/// Converts a buffer sample by sample, keeping length and order: sample `i` of
/// the result is what `each` made of sample `i` of `input`.
pub fn convert<T, U, F>(input: &[T], each: F) -> (output: Vec<U>) where
    F: Fn(&T) -> U,

    requires
        forall|i: int| 0 <= i < input@.len() ==> call_requires(each, (&#[trigger] input@[i],)),
    ensures
        output@.len() == input@.len(),
        forall|i: int|
            0 <= i < input@.len() ==> call_ensures(each, (&input@[i],), #[trigger] output@[i]),
{
    let mut output: Vec<U> = Vec::new();
    let mut at: usize = 0;
    while at < input.len()
        invariant
            at <= input@.len(),
            output@.len() == at,
            forall|i: int|
                0 <= i < input@.len() ==> call_requires(each, (&#[trigger] input@[i],)),
            forall|i: int| 0 <= i < at ==> call_ensures(each, (&input@[i],), #[trigger] output@[i]),
        decreases input@.len() - at,
    {
        let sample = each(&input[at]);
        output.push(sample);
        at += 1;
    }
    output
}

/// Builds a buffer of `len` samples, each equal to `value`: the buffer that the
/// native library writes its results into.
pub fn filled<T: Copy>(value: T, len: usize) -> (output: Vec<T>)
    ensures
        output@.len() == len,
        forall|i: int| 0 <= i < len ==> #[trigger] output@[i] == value,
{
    let mut output: Vec<T> = Vec::new();
    let mut at: usize = 0;
    while at < len
        invariant
            at <= len,
            output@.len() == at,
            forall|i: int| 0 <= i < at ==> #[trigger] output@[i] == value,
        decreases len - at,
    {
        output.push(value);
        at += 1;
    }
    output
}

/// The buffers of one block operation, ready for the native call.
pub struct BlockBuffers<U> {
    /// The samples handed to the native library, in its own layout.
    pub input: Vec<U>,
    /// The buffer that the native library writes its results into.
    pub output: Vec<U>,
    /// The number of samples that the native library is told to work on.
    pub count: u32,
}

impl<U> BlockBuffers<U> {
    /// The two buffers have one length, and the count is that length reduced
    /// to 32 bits.
    pub open spec fn well_formed(self) -> bool {
        &&& self.output@.len() == self.input@.len()
        &&& self.count == sample_count_spec(self.input@.len() as int)
    }
}

/// Prepares a block operation on `input`: the samples converted one by one
/// into the native layout, a result buffer of the same length filled with
/// `blank`, and the count to hand to the native library.
///
/// The count exceeds neither buffer, so the native library stays inside both.
pub fn prepare<T, U: Copy, F>(input: &[T], each: F, blank: U) -> (buffers: BlockBuffers<U>) where
    F: Fn(&T) -> U,

    requires
        forall|i: int| 0 <= i < input@.len() ==> call_requires(each, (&#[trigger] input@[i],)),
    ensures
        buffers.well_formed(),
        buffers.input@.len() == input@.len(),
        forall|i: int|
            0 <= i < input@.len() ==> call_ensures(
                each,
                (&input@[i],),
                #[trigger] buffers.input@[i],
            ),
        forall|i: int| 0 <= i < input@.len() ==> #[trigger] buffers.output@[i] == blank,
        buffers.count <= buffers.input@.len(),
        buffers.count <= buffers.output@.len(),
{
    let samples = convert(input, each);
    let output = filled(blank, input.len());
    let count = sample_count(input.len());
    proof {
        lemma_sample_count_within(input@.len() as int);
    }
    BlockBuffers { input: samples, output, count }
}

/// A buffer of up to `u32::MAX` samples is counted exactly.
pub proof fn lemma_sample_count_exact(len: int)
    requires
        0 <= len < count_modulus(),
    ensures
        sample_count_spec(len) == len,
{
}

/// The count never exceeds the length of the buffer it was taken from, so the
/// native library is never told of more samples than the buffer holds.
pub proof fn lemma_sample_count_within(len: int)
    requires
        0 <= len,
    ensures
        0 <= sample_count_spec(len) <= len,
{
}

} // verus!
