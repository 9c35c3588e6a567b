//! The container: verified bytes and the message type they encode.
use vstd::prelude::*;

use crate::buffer::{ByteBuffer, CloneByteBuffer};
use crate::follow::RelaxedFollowTrait;

verus! {

/// A buffer of one FlatBuffers message, verified when it was built.
///
/// Verification runs once, in `new`; a value exists only for bytes that passed it.
/// Views of the message are formed on demand and borrow from the container.
pub trait RelaxedFlatBufferTrait<TBuffer: ByteBuffer>: Sized + core::ops::Deref<Target = [u8]> {
    /// The message type that the bytes encode.
    type FlatBuffer: RelaxedFollowTrait;

    /// The bytes that the container holds; for a type that does not state them,
    /// one unknown function of the container.
    open spec fn bytes_view(&self) -> Seq<u8> {
        arbitrary::<spec_fn(&Self) -> Seq<u8>>()(self)
    }

    /// The view of the root message of the held bytes, read without verifying
    /// them again.
    fn as_actual(&self) -> (r: <Self::FlatBuffer as RelaxedFollowTrait>::Inner<'_>)
        ensures
            r == <Self::FlatBuffer as RelaxedFollowTrait>::root_view(self.bytes_view()),
    ;

    /// Runs the FlatBuffers verifier on `data` for the message type; on failure,
    /// returns the verifier's own error.
    fn verify(data: &[u8]) -> (r: Result<(), flatbuffers::InvalidFlatbuffer>)
        ensures
            r is Ok <==> <Self::FlatBuffer as RelaxedFollowTrait>::accepts(data@),
            r matches Err(e) ==> e == <Self::FlatBuffer as RelaxedFollowTrait>::error_of(data@),
    ;

    /// Verifies `data` and, if it passes, takes it into a new container.
    fn new(data: TBuffer) -> (r: Result<Self, flatbuffers::InvalidFlatbuffer>)
        ensures
            r is Ok <==> <Self::FlatBuffer as RelaxedFollowTrait>::accepts(data.byte_view()),
            r matches Ok(c) ==> c.bytes_view() == data.byte_view(),
            r matches Err(e) ==> e == <Self::FlatBuffer as RelaxedFollowTrait>::error_of(
                data.byte_view(),
            ),
    ;

    /// The held bytes, as they were handed to `new`; they passed verification.
    fn bytes(&self) -> (r: &[u8])
        ensures
            r@ == self.bytes_view(),
            <Self::FlatBuffer as RelaxedFollowTrait>::accepts(r@),
    ;
}

/// The container for messages of type `F`, holding its bytes in a `TBuffer`.
#[derive(Debug)]
pub struct RelaxedFlatBuffer<F: RelaxedFollowTrait, TBuffer: ByteBuffer> {
    buffer: TBuffer,
    marker: core::marker::PhantomData<F>,
}

/// A container that owns its bytes outright, and so can be moved anywhere.
pub type OwnedFlatBuffer<F> = RelaxedFlatBuffer<F, Box<[u8]>>;

impl<F: RelaxedFollowTrait, TBuffer: ByteBuffer> RelaxedFlatBuffer<F, TBuffer> {
    #[verifier::type_invariant]
    spec fn verified(&self) -> bool {
        F::accepts(self.buffer.byte_view())
    }

    /// The bytes that the container holds.
    pub closed spec fn view(&self) -> Seq<u8> {
        self.buffer.byte_view()
    }
}

impl<F: RelaxedFollowTrait, TBuffer: ByteBuffer> RelaxedFlatBufferTrait<
    TBuffer,
> for RelaxedFlatBuffer<F, TBuffer> {
    type FlatBuffer = F;

    open spec fn bytes_view(&self) -> Seq<u8> {
        self@
    }

    fn as_actual(&self) -> (r: F::Inner<'_>)
        ensures
            r == F::root_view(self@),
    {
        proof {
            use_type_invariant(self);
        }
        F::follow_verified(self.buffer.as_bytes())
    }

    fn verify(data: &[u8]) -> (r: Result<(), flatbuffers::InvalidFlatbuffer>)
        ensures
            r is Ok <==> F::accepts(data@),
            r matches Err(e) ==> e == F::error_of(data@),
    {
        match F::follow(data) {
            Ok(_) => Ok(()),
            Err(e) => Err(e),
        }
    }

    fn new(data: TBuffer) -> (r: Result<Self, flatbuffers::InvalidFlatbuffer>)
        ensures
            r is Ok <==> F::accepts(data.byte_view()),
            r matches Ok(c) ==> c@ == data.byte_view(),
            r matches Err(e) ==> e == F::error_of(data.byte_view()),
    {
        let checked = Self::verify(data.as_bytes());
        match checked {
            Ok(()) => Ok(RelaxedFlatBuffer { buffer: data, marker: core::marker::PhantomData }),
            Err(e) => Err(e),
        }
    }

    fn bytes(&self) -> (r: &[u8])
        ensures
            r@ == self@,
            F::accepts(r@),
    {
        proof {
            use_type_invariant(self);
        }
        self.buffer.as_bytes()
    }
}

impl<F: RelaxedFollowTrait, TBuffer: ByteBuffer> core::ops::Deref for RelaxedFlatBuffer<
    F,
    TBuffer,
> {
    type Target = [u8];

    fn deref(&self) -> (r: &[u8])
        ensures
            r@ == self@,
    {
        self.bytes()
    }
}

/// A second container over a copy (or a second handle) of the same bytes, which
/// passed verification already.
impl<F: RelaxedFollowTrait, TBuffer: CloneByteBuffer> Clone for RelaxedFlatBuffer<F, TBuffer> {
    fn clone(&self) -> (r: Self)
        ensures
            r@ == self@,
    {
        proof {
            use_type_invariant(self);
        }
        RelaxedFlatBuffer { buffer: self.buffer.clone_buffer(), marker: core::marker::PhantomData }
    }
}

/// Whether two byte slices hold the same bytes.
fn same_bytes(a: &[u8], b: &[u8]) -> (r: bool)
    ensures
        r == (a@ == b@),
{
    if a.len() != b.len() {
        return false;
    }
    let mut i: usize = 0;
    while i < a.len()
        invariant
            a@.len() == b@.len(),
            i <= a@.len(),
            forall|j: int| 0 <= j < i ==> a@[j] == b@[j],
        decreases a@.len() - i,
    {
        if a[i] != b[i] {
            return false;
        }
        i = i + 1;
    }
    assert(a@ =~= b@);
    true
}

/// Two containers are equal when they hold the same bytes.
impl<F: RelaxedFollowTrait, TBuffer: ByteBuffer> PartialEq for RelaxedFlatBuffer<F, TBuffer> {
    fn eq(&self, other: &Self) -> (r: bool)
        ensures
            r == (self@ == other@),
    {
        same_bytes(self.bytes(), other.bytes())
    }
}

impl<F: RelaxedFollowTrait, TBuffer: ByteBuffer> vstd::std_specs::cmp::PartialEqSpecImpl for RelaxedFlatBuffer<F, TBuffer> {
    open spec fn obeys_eq_spec() -> bool {
        true
    }

    open spec fn eq_spec(&self, other: &Self) -> bool {
        self@ == other@
    }
}

impl<F: RelaxedFollowTrait, TBuffer: ByteBuffer> Eq for RelaxedFlatBuffer<F, TBuffer> {

}

/// Relies on `<[u8] as Hash>::hash`, which feeds the length and the bytes to the
/// hasher.
#[verifier::external_body]
fn hash_bytes<H: core::hash::Hasher>(bytes: &[u8], state: &mut H) {
    core::hash::Hash::hash(bytes, state)
}

/// A container hashes as its bytes do, in keeping with `==`.
impl<F: RelaxedFollowTrait, TBuffer: ByteBuffer> core::hash::Hash for RelaxedFlatBuffer<F, TBuffer> {
    fn hash<H: core::hash::Hasher>(&self, state: &mut H) {
        hash_bytes(self.bytes(), state)
    }
}

} // verus!

verus! {

/// Where the verifier accepts `data`, a container that holds its bytes is
/// accepted too, and lends out the very view that `RelaxedFollowTrait::follow`
/// reads from `data` directly.
pub proof fn lemma_round_trip<F: RelaxedFollowTrait, TBuffer: ByteBuffer>(
    data: TBuffer,
    c: RelaxedFlatBuffer<F, TBuffer>,
)
    requires
        F::accepts(data.byte_view()),
        c.bytes_view() == data.byte_view(),
    ensures
        F::accepts(c.bytes_view()),
        F::root_view(c.bytes_view()) == F::root_view(data.byte_view()),
{
}

/// The view that a container lends out depends on its bytes alone: the same
/// container read twice, or the same bytes held elsewhere (moved to another owner,
/// or borrowed instead of owned), give the same view.
pub proof fn lemma_view_follows_bytes<F: RelaxedFollowTrait, B1: ByteBuffer, B2: ByteBuffer>(
    c1: RelaxedFlatBuffer<F, B1>,
    c2: RelaxedFlatBuffer<F, B2>,
)
    requires
        c1.bytes_view() == c2.bytes_view(),
    ensures
        F::root_view(c1.bytes_view()) == F::root_view(c2.bytes_view()),
{
}

} // verus!
