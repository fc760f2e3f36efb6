//! The codec over the `bitcode` wire format.

use vstd::prelude::*;
use std::marker::PhantomData;
use crate::buffers::{bytes_contents, bytes_from_vec};
use crate::error::{wrap, wrapped, ErrorKind, Failure};

verus! {

/// `bitcode::Error`, carried as an opaque value from where the wire format
/// failed to whoever looks at the cause. Nothing is said of what is in it.
#[verifier::external_type_specification]
#[verifier::external_body]
pub struct ExWireError(bitcode::Error);

/// A codec that decodes `Item` and encodes `SinkItem` in the `bitcode`
/// format. It holds nothing: two codecs of one type are the same codec.
pub struct Bitcode<Item, SinkItem> {
    marker: PhantomData<(Item, SinkItem)>,
}

/// The codec that decodes and encodes one and the same type.
pub type SymmetricalBitcode<T> = Bitcode<T, T>;

impl<Item, SinkItem> Default for Bitcode<Item, SinkItem> {
    fn default() -> (codec: Self)
        ensures
            codec == Self::stateless(),
    {
        Bitcode { marker: PhantomData }
    }
}

impl<Item, SinkItem> Bitcode<Item, SinkItem> {
    /// The codec. There is no other of its type.
    pub closed spec fn stateless() -> Self {
        Bitcode { marker: PhantomData }
    }

    /// A codec of this type has no state to differ in.
    pub proof fn lemma_stateless(codec: Self)
        ensures
            codec == Self::stateless(),
    {
    }

    /// What encoding returns, given what the wire format made of the value:
    /// the bytes, moved into a buffer unchanged, or the format's error as
    /// invalid data.
    pub fn serialized(&self, encoded: Result<Vec<u8>, bitcode::Error>) -> (res: Result<
        bytes::Bytes,
        Failure<bitcode::Error>,
    >)
        ensures
            match encoded {
                Ok(bytes) => res matches Ok(buf) && bytes_contents(buf) == bytes@,
                Err(source) => res == Err::<bytes::Bytes, _>(
                    Failure { kind: ErrorKind::InvalidData, source },
                ),
            },
    {
        match encoded {
            Ok(bytes) => Ok(bytes_from_vec(bytes)),
            Err(source) => Err(Failure { kind: ErrorKind::InvalidData, source }),
        }
    }

    /// What decoding returns, given what the wire format read from the
    /// bytes: the value, or the format's error as invalid data.
    pub fn deserialized(&self, decoded: Result<Item, bitcode::Error>) -> (res: Result<
        Item,
        Failure<bitcode::Error>,
    >)
        ensures
            res == wrapped(ErrorKind::InvalidData, decoded),
    {
        wrap(ErrorKind::InvalidData, decoded)
    }
}

} // verus!
