//! Byte buffers that a container can hold: owned outright (`Vec<u8>`,
//! `Box<[u8]>`), shared (`Rc<[u8]>`, `Arc<[u8]>`) or borrowed (`&[u8]`).
use vstd::prelude::*;

verus! {

/// A value that reads as one fixed sequence of bytes.
///
/// An impl must lend out the same bytes on every call of `as_bytes`, unchanged for
/// as long as the value lives. A container verifies its bytes once, when it is
/// built, and later reads views of them without verifying them again: bytes that
/// changed in between would be read unverified. The impls here keep this; one
/// written elsewhere is taken on trust.
pub trait ByteBuffer {
    /// The bytes that the value holds. Each impl here states them; for another
    /// type they are one unknown function of the value, which only `as_bytes`
    /// speaks of.
    open spec fn byte_view(&self) -> Seq<u8> {
        arbitrary::<spec_fn(&Self) -> Seq<u8>>()(self)
    }

    /// Borrows the bytes that the value holds.
    fn as_bytes(&self) -> (r: &[u8])
        ensures
            r@ == self.byte_view(),
    ;
}

/// A byte buffer that can be duplicated, keeping its bytes.
pub trait CloneByteBuffer: ByteBuffer + Sized {
    /// A second buffer with the same bytes.
    fn clone_buffer(&self) -> (r: Self)
        ensures
            r.byte_view() == self.byte_view(),
    ;
}

impl ByteBuffer for Vec<u8> {
    open spec fn byte_view(&self) -> Seq<u8> {
        self@
    }

    fn as_bytes(&self) -> (r: &[u8])
        ensures
            r@ == self@,
    {
        self.as_slice()
    }
}

impl ByteBuffer for Box<[u8]> {
    open spec fn byte_view(&self) -> Seq<u8> {
        (**self)@
    }

    fn as_bytes(&self) -> (r: &[u8])
        ensures
            r@ == (**self)@,
    {
        &**self
    }
}

impl ByteBuffer for std::rc::Rc<[u8]> {
    open spec fn byte_view(&self) -> Seq<u8> {
        (**self)@
    }

    fn as_bytes(&self) -> (r: &[u8])
        ensures
            r@ == (**self)@,
    {
        &**self
    }
}

impl ByteBuffer for std::sync::Arc<[u8]> {
    open spec fn byte_view(&self) -> Seq<u8> {
        (**self)@
    }

    fn as_bytes(&self) -> (r: &[u8])
        ensures
            r@ == (**self)@,
    {
        &**self
    }
}

impl<'a> ByteBuffer for &'a [u8] {
    open spec fn byte_view(&self) -> Seq<u8> {
        (**self)@
    }

    fn as_bytes(&self) -> (r: &[u8])
        ensures
            r@ == (**self)@,
    {
        *self
    }
}

impl CloneByteBuffer for Vec<u8> {
    fn clone_buffer(&self) -> (r: Self)
        ensures
            r@ == self@,
    {
        let r = self.clone();
        assert(r@ =~= self@);
        r
    }
}

impl<'a> CloneByteBuffer for &'a [u8] {
    fn clone_buffer(&self) -> (r: Self)
        ensures
            r@ == (**self)@,
    {
        *self
    }
}

/// Relies on `<Box<[u8]> as Clone>::clone`: a new box holding a copy of the bytes.
#[verifier::external_body]
fn clone_boxed(b: &Box<[u8]>) -> (r: Box<[u8]>)
    ensures
        (*r)@ == (**b)@,
{
    b.clone()
}

impl CloneByteBuffer for Box<[u8]> {
    fn clone_buffer(&self) -> (r: Self)
        ensures
            (*r)@ == (**self)@,
    {
        clone_boxed(self)
    }
}

/// Relies on `<Rc<[u8]> as Clone>::clone`: a second pointer to the same bytes.
#[verifier::external_body]
fn clone_rc(b: &std::rc::Rc<[u8]>) -> (r: std::rc::Rc<[u8]>)
    ensures
        (*r)@ == (**b)@,
{
    std::rc::Rc::clone(b)
}

impl CloneByteBuffer for std::rc::Rc<[u8]> {
    fn clone_buffer(&self) -> (r: Self)
        ensures
            (*r)@ == (**self)@,
    {
        clone_rc(self)
    }
}

/// Relies on `<Arc<[u8]> as Clone>::clone`: a second pointer to the same bytes.
#[verifier::external_body]
fn clone_arc(b: &std::sync::Arc<[u8]>) -> (r: std::sync::Arc<[u8]>)
    ensures
        (*r)@ == (**b)@,
{
    std::sync::Arc::clone(b)
}

impl CloneByteBuffer for std::sync::Arc<[u8]> {
    fn clone_buffer(&self) -> (r: Self)
        ensures
            (*r)@ == (**self)@,
    {
        clone_arc(self)
    }
}

} // verus!
