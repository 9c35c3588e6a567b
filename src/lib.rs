//! Owned, verified FlatBuffers.
//!
//! A `RelaxedFlatBuffer` holds the bytes of one FlatBuffers message together with
//! the message type that they encode. It runs the FlatBuffers verifier once, when
//! it is built, and from then on hands out typed views of its bytes whose lifetime
//! is that of the borrow of the container, not one fixed by generated code.
pub mod buffer;
pub mod follow;
pub mod relaxed;

pub use buffer::{ByteBuffer, CloneByteBuffer};
pub use follow::RelaxedFollowTrait;
pub use relaxed::{OwnedFlatBuffer, RelaxedFlatBuffer, RelaxedFlatBufferTrait};
