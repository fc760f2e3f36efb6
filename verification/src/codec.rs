//! What a codec is: the two capabilities that turn values into bytes and
//! bytes into values.

use vstd::prelude::*;
use crate::buffers::{bytes_contents, bytes_mut_contents};

pub mod bitcode;

verus! {

/// What `serialize` returned, with the buffer read as the bytes it holds.
pub open spec fn encoded_view<E>(res: Result<bytes::Bytes, E>) -> Result<Seq<u8>, E> {
    match res {
        Ok(buf) => Ok(bytes_contents(buf)),
        Err(error) => Err(error),
    }
}

/// Turns values of type `T` into bytes.
///
/// A codec is borrowed exclusively for the length of one call, so it may keep
/// state from call to call (a compression window, say).
pub trait Serializer<T>: Sized {
    type Error;

    /// What one call may do: starting as `pre` and given `item`, the codec
    /// ends as `post` and returns `res`.
    ///
    /// A codec that says nothing here promises nothing.
    open spec fn encodes(pre: Self, item: T, post: Self, res: Result<Seq<u8>, Self::Error>) -> bool {
        true
    }

    /// Serializes `item` into a new buffer, or fails where the value has no
    /// encoding. The value is only read.
    fn serialize(&mut self, item: &T) -> (res: Result<bytes::Bytes, Self::Error>)
        ensures
            Self::encodes(*old(self), *item, *final(self), encoded_view(res)),
    ;
}

/// Turns bytes into values of type `T`.
///
/// Borrowed like a [`Serializer`], and as free to keep state.
pub trait Deserializer<T>: Sized {
    type Error;

    /// What one call may do: starting as `pre` and given the bytes `src`, the
    /// codec ends as `post` and returns `res`.
    ///
    /// A codec that says nothing here promises nothing.
    open spec fn decodes(pre: Self, src: Seq<u8>, post: Self, res: Result<T, Self::Error>) -> bool {
        true
    }

    /// Deserializes a value from `src`, or fails where `src` is not a
    /// well-formed encoding of one.
    fn deserialize(&mut self, src: &bytes::BytesMut) -> (res: Result<T, Self::Error>)
        ensures
            Self::decodes(*old(self), bytes_mut_contents(*src), *final(self), res),
    ;
}

} // verus!
