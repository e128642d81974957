//! Elements of device buffers and their image in device memory.
//!
//! Every element type is a fixed number of 32-bit words. A slice of elements
//! is laid out word after word, and each word occupies four bytes in the byte
//! order of the host.

use vstd::prelude::*;

verus! {

/// A value that can be stored in a device buffer.
pub trait GpuElement: Sized {
    /// Number of 32-bit words that one element occupies.
    spec fn word_count() -> nat;

    /// The words of this element, in memory order.
    spec fn words(&self) -> Seq<u32>;

    /// Every element occupies at least one word.
    proof fn lemma_word_count_positive()
        ensures
            Self::word_count() > 0,
    ;

    /// Every element occupies exactly `word_count()` words.
    proof fn lemma_words_len(&self)
        ensures
            self.words().len() == Self::word_count(),
    ;

    /// Size of one element in bytes.
    fn stride() -> (n: usize)
        ensures
            n == 4 * Self::word_count(),
    ;

    /// Appends the words of this element to `out`.
    fn append_words(&self, out: &mut Vec<u32>)
        ensures
            final(out)@ == old(out)@ + self.words(),
    ;
}

/// An index is one word.
impl GpuElement for u32 {
    open spec fn word_count() -> nat {
        1
    }

    open spec fn words(&self) -> Seq<u32> {
        seq![*self]
    }

    proof fn lemma_word_count_positive() {
    }

    proof fn lemma_words_len(&self) {
    }

    fn stride() -> (n: usize) {
        4
    }

    fn append_words(&self, out: &mut Vec<u32>) {
        out.push(*self);
        assert(out@ =~= old(out)@ + self.words());
    }
}

/// The words of a sequence of elements: those of the first element, then
/// those of the second, and so on.
pub open spec fn flatten_words<T: GpuElement>(s: Seq<T>) -> Seq<u32>
    decreases s.len(),
{
    if s.len() == 0 {
        Seq::empty()
    } else {
        flatten_words(s.drop_last()) + s.last().words()
    }
}

/// Byte `j` (0 to 3) of the word `w` as it lies in memory.
pub open spec fn word_byte(w: u32, j: int, big_endian: bool) -> u8 {
    let k = if big_endian {
        3 - j
    } else {
        j
    };
    if k == 0 {
        (w % 0x100) as u8
    } else if k == 1 {
        ((w / 0x100) % 0x100) as u8
    } else if k == 2 {
        ((w / 0x1_0000) % 0x100) as u8
    } else {
        (w / 0x100_0000) as u8
    }
}

/// The bytes of `words` in memory, for one of the two byte orders.
pub open spec fn word_image(words: Seq<u32>, big_endian: bool) -> Seq<u8> {
    Seq::new(4 * words.len(), |i: int| word_byte(words[i / 4], i % 4, big_endian))
}

/// `bytes` is what `words` look like in memory on a little-endian or on a
/// big-endian host.
pub open spec fn is_word_image(bytes: Seq<u8>, words: Seq<u32>) -> bool {
    bytes == word_image(words, false) || bytes == word_image(words, true)
}

/// The flattened words of `s` number `s.len()` times the words of one element.
pub proof fn lemma_flatten_len<T: GpuElement>(s: Seq<T>)
    ensures
        flatten_words(s).len() == s.len() * T::word_count(),
    decreases s.len(),
{
    if s.len() > 0 {
        lemma_flatten_len(s.drop_last());
        s.last().lemma_words_len();
        assert((s.len() - 1) * T::word_count() + T::word_count() == s.len() * T::word_count())
            by (nonlinear_arith);
    }
}

/// Flattening one element more appends that element's words.
pub proof fn lemma_flatten_push<T: GpuElement>(s: Seq<T>, e: T)
    ensures
        flatten_words(s.push(e)) == flatten_words(s) + e.words(),
{
    assert(s.push(e).drop_last() =~= s);
}

/// Reinterprets `words` as the bytes they occupy in memory, through
/// `bytemuck::cast_slice`. For `u32` to `u8` the cast cannot fail: it yields
/// the same memory as a byte slice, four bytes for each word in the byte order
/// of the host, which is little-endian or big-endian.
#[verifier::external_body]
fn words_to_bytes(words: &Vec<u32>) -> (bytes: Vec<u8>)
    ensures
        is_word_image(bytes@, words@),
{
    bytemuck::cast_slice::<u32, u8>(words.as_slice()).to_vec()
}

/// The words of `content`, element after element.
pub fn encode_words<T: GpuElement>(content: &[T]) -> (out: Vec<u32>)
    ensures
        out@ == flatten_words(content@),
{
    let mut out: Vec<u32> = Vec::new();
    let mut i: usize = 0;
    while i < content.len()
        invariant
            i <= content.len(),
            out@ == flatten_words(content@.take(i as int)),
        decreases content.len() - i,
    {
        content[i].append_words(&mut out);
        proof {
            lemma_flatten_push(content@.take(i as int), content@[i as int]);
            assert(content@.take(i as int).push(content@[i as int]) =~= content@.take(i + 1));
        }
        i = i + 1;
    }
    proof {
        assert(content@.take(content.len() as int) =~= content@);
    }
    out
}

/// The bytes that `content` occupies in device memory.
pub fn encode<T: GpuElement>(content: &[T]) -> (bytes: Vec<u8>)
    ensures
        is_word_image(bytes@, flatten_words(content@)),
        bytes@.len() == content@.len() * (4 * T::word_count()),
{
    let words = encode_words(content);
    let bytes = words_to_bytes(&words);
    proof {
        lemma_flatten_len(content@);
        assert(4 * (content@.len() * T::word_count()) == content@.len() * (4 * T::word_count()))
            by (nonlinear_arith);
    }
    bytes
}

} // verus!
