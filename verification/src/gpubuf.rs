//! A typed buffer in device memory.
//!
//! A [`GpuBuf`] knows how many elements the device buffer holds, how many it
//! has room for and what was last written to it. Every operation that changes
//! the contents hands back an [`Upload`]: the bytes to send and the way to send
//! them.

use vstd::prelude::*;
use crate::element::{encode, flatten_words, is_word_image, GpuElement};

verus! {

/// What a device buffer may be used for.
#[derive(Clone, Copy, Debug, PartialEq, Eq, Structural)]
pub struct BufferUsages {
    pub vertex: bool,
    pub index: bool,
    pub uniform: bool,
    pub copy_src: bool,
    pub copy_dst: bool,
}

impl BufferUsages {
    /// No use at all.
    pub open spec fn spec_empty() -> BufferUsages {
        BufferUsages {
            vertex: false,
            index: false,
            uniform: false,
            copy_src: false,
            copy_dst: false,
        }
    }

    /// Source of vertex or instance data.
    pub open spec fn spec_vertex() -> BufferUsages {
        BufferUsages { vertex: true, ..Self::spec_empty() }
    }

    /// Source of indices.
    pub open spec fn spec_index() -> BufferUsages {
        BufferUsages { index: true, ..Self::spec_empty() }
    }

    /// Uniform block of a binding group.
    pub open spec fn spec_uniform() -> BufferUsages {
        BufferUsages { uniform: true, ..Self::spec_empty() }
    }

    /// Source of a device-side copy.
    pub open spec fn spec_copy_src() -> BufferUsages {
        BufferUsages { copy_src: true, ..Self::spec_empty() }
    }

    /// Destination of a device-side copy.
    pub open spec fn spec_copy_dst() -> BufferUsages {
        BufferUsages { copy_dst: true, ..Self::spec_empty() }
    }

    /// Every use that `self` or `other` allows.
    pub open spec fn spec_union(self, other: BufferUsages) -> BufferUsages {
        BufferUsages {
            vertex: self.vertex || other.vertex,
            index: self.index || other.index,
            uniform: self.uniform || other.uniform,
            copy_src: self.copy_src || other.copy_src,
            copy_dst: self.copy_dst || other.copy_dst,
        }
    }

    /// No use at all.
    #[verifier::when_used_as_spec(spec_empty)]
    pub fn empty() -> (r: BufferUsages)
        ensures
            r == Self::spec_empty(),
    {
        BufferUsages {
            vertex: false,
            index: false,
            uniform: false,
            copy_src: false,
            copy_dst: false,
        }
    }

    /// Source of vertex or instance data.
    #[verifier::when_used_as_spec(spec_vertex)]
    pub fn vertex() -> (r: BufferUsages)
        ensures
            r == Self::spec_vertex(),
    {
        BufferUsages { vertex: true, ..Self::empty() }
    }

    /// Source of indices.
    #[verifier::when_used_as_spec(spec_index)]
    pub fn index() -> (r: BufferUsages)
        ensures
            r == Self::spec_index(),
    {
        BufferUsages { index: true, ..Self::empty() }
    }

    /// Uniform block of a binding group.
    #[verifier::when_used_as_spec(spec_uniform)]
    pub fn uniform() -> (r: BufferUsages)
        ensures
            r == Self::spec_uniform(),
    {
        BufferUsages { uniform: true, ..Self::empty() }
    }

    /// Source of a device-side copy.
    #[verifier::when_used_as_spec(spec_copy_src)]
    pub fn copy_src() -> (r: BufferUsages)
        ensures
            r == Self::spec_copy_src(),
    {
        BufferUsages { copy_src: true, ..Self::empty() }
    }

    /// Destination of a device-side copy.
    #[verifier::when_used_as_spec(spec_copy_dst)]
    pub fn copy_dst() -> (r: BufferUsages)
        ensures
            r == Self::spec_copy_dst(),
    {
        BufferUsages { copy_dst: true, ..Self::empty() }
    }

    /// Every use that `self` or `other` allows.
    #[verifier::when_used_as_spec(spec_union)]
    pub fn union(self, other: BufferUsages) -> (r: BufferUsages)
        ensures
            r == self.spec_union(other),
    {
        BufferUsages {
            vertex: self.vertex || other.vertex,
            index: self.index || other.index,
            uniform: self.uniform || other.uniform,
            copy_src: self.copy_src || other.copy_src,
            copy_dst: self.copy_dst || other.copy_dst,
        }
    }
}

/// How the bytes of an [`Upload`] reach the buffer.
#[derive(Clone, Copy, Debug, PartialEq, Eq, Structural)]
pub enum Transfer {
    /// A new device buffer is created with exactly these bytes, written while
    /// it is mapped at creation, and takes the place of the old one.
    Replace,
    /// The bytes go into a transient buffer, and a device-side copy moves them
    /// to the start of the existing buffer, whose size stays as it is.
    StagingCopy,
}

/// Bytes on their way to the device.
#[derive(Debug)]
pub struct Upload {
    pub transfer: Transfer,
    /// What the created buffer holds.
    pub contents: Vec<u8>,
    /// What the created buffer is used for.
    pub usage: BufferUsages,
}

impl Upload {
    /// This upload sends the image of `words` by way of `transfer`, in a
    /// buffer created for `usage`.
    pub open spec fn sends_words(
        self,
        transfer: Transfer,
        words: Seq<u32>,
        usage: BufferUsages,
    ) -> bool {
        &&& self.transfer == transfer
        &&& self.usage == usage
        &&& is_word_image(self.contents@, words)
    }

    /// This upload sends the image of `content` by way of `transfer`, in a
    /// buffer created for `usage`.
    pub open spec fn sends<T: GpuElement>(
        self,
        transfer: Transfer,
        content: Seq<T>,
        usage: BufferUsages,
    ) -> bool {
        self.sends_words(transfer, flatten_words(content), usage)
    }
}

/// A range of bytes of a buffer, from `start` up to but not including `end`.
#[derive(Clone, Copy, Debug, PartialEq, Eq, Structural)]
pub struct BufferSlice {
    pub start: u64,
    pub end: u64,
}

/// A buffer as a resource of a binding group: the bytes from `offset` on,
/// `size` of them, or all that follow where `size` is `None`.
#[derive(Clone, Copy, Debug, PartialEq, Eq)]
pub struct BufferBinding {
    pub offset: u64,
    pub size: Option<u64>,
}

/// A *typed* buffer on the device.
pub struct GpuBuf<T: GpuElement> {
    // current number of elements
    length: usize,
    capacity: usize,
    usage: BufferUsages,
    contents: Ghost<Seq<T>>,
}

impl<T: GpuElement> View for GpuBuf<T> {
    type V = Seq<T>;

    /// The elements last written to the buffer.
    closed spec fn view(&self) -> Seq<T> {
        self.contents@
    }
}

impl<T: GpuElement> GpuBuf<T> {
    /// The buffer never holds more than it has room for, its length is that of
    /// what was last written, and its size in bytes is a `usize`.
    #[verifier::type_invariant]
    pub closed spec fn wf(&self) -> bool {
        &&& self.length <= self.capacity
        &&& self.contents@.len() == self.length
        &&& self.capacity * (4 * T::word_count()) <= usize::MAX
    }

    /// Number of elements that the device buffer has room for.
    pub closed spec fn spec_capacity(&self) -> usize {
        self.capacity
    }

    /// What the device buffer was created for.
    pub closed spec fn spec_usage(&self) -> BufferUsages {
        self.usage
    }

    /// In a well-formed buffer the contents fit in the capacity.
    pub proof fn lemma_len_le_capacity(self)
        requires
            self.wf(),
        ensures
            self@.len() <= self.capacity(),
    {
    }

    /// create and set contents
    pub fn initialize(content: &[T], usage: BufferUsages) -> (r: (Self, Upload))
        ensures
            r.0.wf(),
            r.0@ == content@,
            r.0.capacity() == content@.len(),
            r.0.usage() == usage,
            r.1.sends(Transfer::Replace, content@, usage),
            r.1.contents@.len() == content@.len() * (4 * T::word_count()),
    {
        let bytes = encode(content);
        assert(content@.len() * (4 * T::word_count()) == bytes.len());
        let buf = GpuBuf {
            length: content.len(),
            capacity: content.len(),
            usage,
            contents: Ghost(content@),
        };
        (buf, Upload { transfer: Transfer::Replace, contents: bytes, usage })
    }

    /// The buffer as it is once `target`, which must fit, has been written over
    /// its contents, and the upload that writes it.
    pub(crate) fn overwritten(&self, target: &[T]) -> (r: (Self, Upload))
        requires
            target@.len() <= self.capacity(),
        ensures
            r.0.wf(),
            r.0@ == target@,
            r.0.capacity() == self.capacity(),
            r.0.usage() == self.usage(),
            r.1.sends(Transfer::StagingCopy, target@, BufferUsages::copy_src()),
            r.1.contents@.len() == target@.len() * (4 * T::word_count()),
    {
        proof {
            use_type_invariant(self);
        }
        let bytes = encode(target);
        let buf = GpuBuf {
            length: target.len(),
            capacity: self.capacity,
            usage: self.usage,
            contents: Ghost(target@),
        };
        (
            buf,
            Upload {
                transfer: Transfer::StagingCopy,
                contents: bytes,
                usage: BufferUsages::copy_src(),
            },
        )
    }

    /// The buffer as it is once `content` has been written over its contents,
    /// grown where `content` did not fit, and the upload that writes it.
    pub(crate) fn rewritten(&self, content: &[T]) -> (r: (Self, Upload))
        ensures
            r.0.wf(),
            r.0@ == content@,
            r.0.usage() == self.usage(),
            r.0.capacity() >= self.capacity(),
            r.1.contents@.len() == content@.len() * (4 * T::word_count()),
            content@.len() <= self.capacity() ==> {
                &&& r.0.capacity() == self.capacity()
                &&& r.1.sends(Transfer::StagingCopy, content@, BufferUsages::copy_src())
            },
            content@.len() > self.capacity() ==> {
                &&& r.0.capacity() == content@.len()
                &&& r.1.sends(Transfer::Replace, content@, self.usage())
            },
    {
        if content.len() <= self.capacity {
            self.overwritten(content)
        } else {
            Self::initialize(content, self.usage)
        }
    }

    /// Overwrites the contents with `target`, which must fit, by a copy from a
    /// staging buffer. The capacity stays as it is. A device carries out the
    /// copy only into a buffer that was created as a destination of copies.
    pub fn copy_from_slice(&mut self, target: &[T]) -> (up: Upload)
        requires
            target@.len() <= old(self).capacity(),
        ensures
            final(self).wf(),
            final(self)@ == target@,
            final(self).capacity() == old(self).capacity(),
            final(self).usage() == old(self).usage(),
            up.sends(Transfer::StagingCopy, target@, BufferUsages::copy_src()),
            up.contents@.len() == target@.len() * (4 * T::word_count()),
    {
        let (next, up) = self.overwritten(target);
        *self = next;
        up
    }

    /// Overwrites the contents with `content`. Where it fits, this is
    /// [`copy_from_slice`](Self::copy_from_slice); where it does not, the buffer
    /// is created anew with room for exactly `content`.
    pub fn write(&mut self, content: &[T]) -> (up: Upload)
        ensures
            final(self).wf(),
            final(self)@ == content@,
            final(self).usage() == old(self).usage(),
            final(self).capacity() >= old(self).capacity(),
            up.contents@.len() == content@.len() * (4 * T::word_count()),
            content@.len() <= old(self).capacity() ==> {
                &&& final(self).capacity() == old(self).capacity()
                &&& up.sends(Transfer::StagingCopy, content@, BufferUsages::copy_src())
            },
            content@.len() > old(self).capacity() ==> {
                &&& final(self).capacity() == content@.len()
                &&& up.sends(Transfer::Replace, content@, old(self).usage())
            },
    {
        let (next, up) = self.rewritten(content);
        *self = next;
        up
    }

    pub fn len(&self) -> (n: usize)
        ensures
            n == self@.len(),
    {
        proof {
            use_type_invariant(self);
        }
        self.length
    }

    /// Number of elements that the device buffer has room for.
    #[verifier::when_used_as_spec(spec_capacity)]
    pub fn capacity(&self) -> (n: usize)
        ensures
            n == self.spec_capacity(),
            self@.len() <= n,
    {
        proof {
            use_type_invariant(self);
        }
        self.capacity
    }

    /// What the device buffer was created for.
    #[verifier::when_used_as_spec(spec_usage)]
    pub fn usage(&self) -> (u: BufferUsages)
        ensures
            u == self.spec_usage(),
    {
        self.usage
    }

    /// The bytes that hold the elements, from the start of the buffer.
    // returns None if the slice would be empty
    // this is because the device does not allow empty slices
    pub fn slice(&self) -> (r: Option<BufferSlice>)
        ensures
            self@.len() == 0 <==> r is None,
            r matches Some(s) ==> s.start == 0 && s.end == self@.len() * (4 * T::word_count())
                && s.start < s.end,
    {
        if self.is_empty() {
            None
        } else {
            proof {
                use_type_invariant(self);
                T::lemma_word_count_positive();
                assert(self.length * (4 * T::word_count()) <= self.capacity * (4
                    * T::word_count())) by (nonlinear_arith)
                    requires
                        self.length <= self.capacity,
                ;
                assert(0 < self.length * (4 * T::word_count())) by (nonlinear_arith)
                    requires
                        0 < self.length,
                        0 < T::word_count(),
                ;
            }
            let end = self.len() * T::stride();
            Some(BufferSlice { start: 0, end: end as u64 })
        }
    }

    pub fn is_empty(&self) -> (b: bool)
        ensures
            b == (self@.len() == 0),
    {
        self.len() == 0
    }

    /// The whole buffer as a resource of a binding group.
    pub fn as_entire_buffer_binding(&self) -> (b: BufferBinding)
        ensures
            b.offset == 0,
            b.size is None,
    {
        BufferBinding { offset: 0, size: None }
    }
}

} // verus!
