//! Message types whose views may borrow bytes for any lifetime.
use vstd::prelude::*;

verus! {

#[verifier::external_type_specification]
#[verifier::external_body]
pub struct ExInvalidFlatbuffer(flatbuffers::InvalidFlatbuffer);

/// A FlatBuffers message type whose view can be formed over bytes of any lifetime.
///
/// Generated accessor types fix the lifetime of the buffer they read in their own
/// type (`Foo<'a>`). An implementation names the whole family of views, one for
/// each lifetime (`type Inner<'a> = Foo<'a>`), so that a container can lend out a
/// view whose lifetime is that of its own borrow.
///
/// An implementation's `follow` verifies the bytes and reads their root, as
/// `flatbuffers::root::<Foo>` does; `follow_verified` reads the root of bytes
/// that are already known to pass, without verifying them again, as
/// `flatbuffers::root_unchecked::<Foo>` does. The outcome of each must depend on
/// the bytes alone.
///
/// `accepts`, `root_view` and `error_of` name what FlatBuffers decides and reads
/// for the message type. How it does so is FlatBuffers' own: each is left
/// unspecified here, one unknown function of the bytes for each type, and only the
/// contracts of `follow` and `follow_verified` speak of them.
pub trait RelaxedFollowTrait {
    /// The view of the message over bytes that live for `'a`.
    type Inner<'a>;

    /// Whether the FlatBuffers verifier, with its default options, accepts `bytes`
    /// as a buffer whose root is a message of this type.
    open spec fn accepts(bytes: Seq<u8>) -> bool {
        arbitrary::<spec_fn(Seq<u8>) -> (bool, core::marker::PhantomData<Self>)>()(bytes).0
    }

    /// The view of the root message of `bytes`, where they are accepted.
    open spec fn root_view(bytes: Seq<u8>) -> Self::Inner<'static> {
        arbitrary::<
            spec_fn(Seq<u8>) -> (Self::Inner<'static>, core::marker::PhantomData<Self>),
        >()(bytes).0
    }

    /// The error that the verifier reports on `bytes`, where it refuses them: what
    /// failed, and where.
    open spec fn error_of(bytes: Seq<u8>) -> flatbuffers::InvalidFlatbuffer {
        arbitrary::<
            spec_fn(Seq<u8>) -> (flatbuffers::InvalidFlatbuffer, core::marker::PhantomData<Self>),
        >()(bytes).0
    }

    /// Verifies `buf` and reads its root message.
    fn follow(buf: &[u8]) -> (r: Result<Self::Inner<'_>, flatbuffers::InvalidFlatbuffer>)
        ensures
            r is Ok <==> Self::accepts(buf@),
            r matches Ok(v) ==> v == Self::root_view(buf@),
            r matches Err(e) ==> e == Self::error_of(buf@),
    ;

    /// Reads the root message of `buf`, which the verifier has already accepted,
    /// without verifying it again.
    ///
    /// Field reads through the view trust the bytes, so the precondition is what
    /// keeps them in bounds: call this only on bytes that passed `follow` (the
    /// containers of this crate hold no others).
    fn follow_verified(buf: &[u8]) -> (r: Self::Inner<'_>)
        requires
            Self::accepts(buf@),
        ensures
            r == Self::root_view(buf@),
    ;
}

} // verus!
