//! The adapter that joins a carrier and a codec into a typed channel.
//!
//! The adapter never polls the carrier itself: whoever drives the channel
//! polls it and passes each report in. Every method here is therefore a
//! decision, from the adapter's state and one report to the next state and
//! what the channel surfaces, and says so exactly.

use vstd::prelude::*;
use std::marker::PhantomData;
use std::task::Poll;
use crate::buffers::{bytes_mut_from_slice, vec_from_bytes};
use crate::codec::{Deserializer, Serializer};
use crate::error::{cause_of, unified, unify, Failure};

pub mod laws;

verus! {

/// `std::task::Poll`, made known to the verifier, which reads its two
/// variants from std itself.
#[verifier::external_type_specification]
#[verifier::reject_recursive_types(T)]
pub struct ExPoll<T>(std::task::Poll<T>);

/// What the carrier reported when asked for its next frame, with the frame
/// read as the bytes it holds.
pub open spec fn report_view(polled: Poll<Option<&[u8]>>) -> Poll<Option<Seq<u8>>> {
    match polled {
        Poll::Pending => Poll::Pending,
        Poll::Ready(None) => Poll::Ready(None),
        Poll::Ready(Some(frame)) => Poll::Ready(Some(frame@)),
    }
}

/// What a send returned, with the frame read as the bytes it holds.
pub open spec fn frame_view<E>(out: Result<Vec<u8>, E>) -> Result<Seq<u8>, E> {
    match out {
        Ok(frame) => Ok(frame@),
        Err(error) => Err(error),
    }
}

/// A report of the carrier's writable side as the channel passes it on:
/// pending stays pending, done stays done, and a failure becomes the
/// channel's one kind of error around its cause.
pub open spec fn unified_poll<E>(polled: Poll<Result<(), E>>) -> Poll<Result<(), Failure<E>>> {
    match polled {
        Poll::Pending => Poll::Pending,
        Poll::Ready(res) => Poll::Ready(unified(res)),
    }
}

/// A carrier of raw frames and a codec, joined into a channel of values:
/// `Item` comes in, `SinkItem` goes out.
///
/// The adapter owns both parts and nothing else. It holds no frame and no
/// value between calls.
pub struct WsTransport<S, Item, SinkItem, Codec> {
    inner: S,
    codec: Codec,
    item: PhantomData<(Item, SinkItem)>,
}

impl<S, Item, SinkItem, Codec> WsTransport<S, Item, SinkItem, Codec> {
    /// The carrier that the adapter owns.
    pub closed spec fn carrier(self) -> S {
        self.inner
    }

    /// The codec that the adapter owns, in its present state.
    pub closed spec fn codec(self) -> Codec {
        self.codec
    }

    /// An adapter is its carrier and its codec: two adapters that agree on
    /// both are the same adapter.
    pub proof fn lemma_no_other_state(a: Self, b: Self)
        requires
            a.carrier() == b.carrier(),
            a.codec() == b.codec(),
        ensures
            a == b,
    {
    }

    /// Joins `inner` and `codec`, taking both over.
    pub fn new(inner: S, codec: Codec) -> (transport: Self)
        ensures
            transport.carrier() == inner,
            transport.codec() == codec,
    {
        WsTransport { inner, codec, item: PhantomData }
    }

    /// The carrier, to look at (what it is connected to, say) but not to
    /// send or receive on.
    pub fn get_ref(&self) -> (carrier: &S)
        ensures
            *carrier == self.carrier(),
    {
        &self.inner
    }

    /// Passes on what the carrier reported of its readiness to take a frame.
    ///
    /// The adapter has no buffer of its own to offer: while the carrier is
    /// not ready, neither is the channel.
    pub fn poll_ready<E>(&self, polled: Poll<Result<(), E>>) -> (out: Poll<Result<(), Failure<E>>>)
        ensures
            out == unified_poll(polled),
    {
        pass_on(polled)
    }

    /// Reports how a send ended, given what the carrier returned when it
    /// was handed the frame.
    pub fn sent<E>(&self, accepted: Result<(), E>) -> (out: Result<(), Failure<E>>)
        ensures
            out == unified(accepted),
    {
        unify(accepted)
    }

    /// Passes on what the carrier reported of its flush.
    pub fn poll_flush<E>(&self, polled: Poll<Result<(), E>>) -> (out: Poll<Result<(), Failure<E>>>)
        ensures
            out == unified_poll(polled),
    {
        pass_on(polled)
    }

    /// Passes on what the carrier reported of its close.
    pub fn poll_close<E>(&self, polled: Poll<Result<(), E>>) -> (out: Poll<Result<(), Failure<E>>>)
        ensures
            out == unified_poll(polled),
    {
        pass_on(polled)
    }
}

fn pass_on<E>(polled: Poll<Result<(), E>>) -> (out: Poll<Result<(), Failure<E>>>)
    ensures
        out == unified_poll(polled),
{
    match polled {
        Poll::Pending => Poll::Pending,
        Poll::Ready(res) => Poll::Ready(unify(res)),
    }
}

impl<S, Item, SinkItem, Codec: Deserializer<Item>> WsTransport<S, Item, SinkItem, Codec> {
    /// One step of the readable side: the adapter is `pre`, the carrier makes
    /// the report `report`, the adapter is left as `post` and the channel
    /// surfaces `out`.
    ///
    /// - No frame yet: the channel is pending, and nothing changed.
    /// - No more frames: the channel ends, without an item and without an
    ///   error, and nothing changed.
    /// - A frame: the channel surfaces one item, which is what the codec made
    ///   of exactly these bytes: the value, or the codec's error inside the
    ///   channel's one kind of error. Only the codec may have changed.
    pub open spec fn surfaces(
        pre: Self,
        report: Poll<Option<Seq<u8>>>,
        post: Self,
        out: Poll<Option<Result<Item, Failure<Codec::Error>>>>,
    ) -> bool {
        &&& post.carrier() == pre.carrier()
        &&& match report {
            Poll::Pending => out is Pending && post.codec() == pre.codec(),
            Poll::Ready(None) => out == Poll::<Option<Result<Item, Failure<Codec::Error>>>>::Ready(
                None,
            ) && post.codec() == pre.codec(),
            Poll::Ready(Some(frame)) => {
                &&& out matches Poll::Ready(Some(item))
                &&& item == unified(cause_of(item))
                &&& Codec::decodes(pre.codec(), frame, post.codec(), cause_of(item))
            },
        }
    }

    /// Decides what the channel surfaces for what the carrier reported when
    /// it was asked for its next frame.
    ///
    /// A frame that does not decode yields an error item and no more: the
    /// channel goes on with the next frame.
    pub fn poll_next(&mut self, polled: Poll<Option<&[u8]>>) -> (out: Poll<
        Option<Result<Item, Failure<Codec::Error>>>,
    >)
        ensures
            Self::surfaces(*old(self), report_view(polled), *final(self), out),
    {
        match polled {
            Poll::Pending => Poll::Pending,
            Poll::Ready(None) => Poll::Ready(None),
            Poll::Ready(Some(frame)) => {
                let src = bytes_mut_from_slice(frame);
                let decoded = self.codec.deserialize(&src);
                Poll::Ready(Some(unify(decoded)))
            },
        }
    }
}

impl<S, Item, SinkItem, Codec: Serializer<SinkItem>> WsTransport<S, Item, SinkItem, Codec> {
    /// One send: the adapter is `pre`, the caller sends `item`, the adapter
    /// is left as `post` and `out` is the frame for the carrier, or the
    /// failure.
    ///
    /// The frame holds exactly the bytes that the codec made of the value.
    /// Where the codec fails there is no frame, and the failure is the
    /// codec's error inside the channel's one kind of error. Either way the
    /// carrier is not touched; only the codec may have changed.
    pub open spec fn frames(
        pre: Self,
        item: SinkItem,
        post: Self,
        out: Result<Seq<u8>, Failure<Codec::Error>>,
    ) -> bool {
        &&& post.carrier() == pre.carrier()
        &&& out == unified(cause_of(out))
        &&& Codec::encodes(pre.codec(), item, post.codec(), cause_of(out))
    }

    /// Encodes `item` into the frame that the carrier is to be handed next.
    ///
    /// On failure nothing is to be handed over, and the adapter can be used
    /// for the sends that follow.
    pub fn start_send(&mut self, item: SinkItem) -> (out: Result<Vec<u8>, Failure<Codec::Error>>)
        ensures
            Self::frames(*old(self), item, *final(self), frame_view(out)),
    {
        let encoded = self.codec.serialize(&item);
        match unify(encoded) {
            Ok(buf) => Ok(vec_from_bytes(buf)),
            Err(failure) => Err(failure),
        }
    }
}

} // verus!
