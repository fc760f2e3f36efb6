//! What holds of the channel over many calls.
//!
//! The adapter goes from call to call through a sequence of states. A run
//! lists those states together with what went in and what came out at each
//! step; the laws below hold of every run.

use vstd::prelude::*;
use std::task::Poll;
use crate::codec::{Deserializer, Serializer};
use crate::error::{cause_of, unified, ErrorKind, Failure};
use crate::transport::WsTransport;

verus! {

/// The reports of a carrier that delivers `frames`, one after another.
pub open spec fn delivered(frames: Seq<Seq<u8>>) -> Seq<Poll<Option<Seq<u8>>>> {
    Seq::new(frames.len(), |i: int| Poll::Ready(Some(frames[i])))
}

/// An encoder and a decoder are paired when the decoder, given bytes that
/// the encoder made of a value, returns that value and nothing else.
pub open spec fn paired<T, Enc: Serializer<T>, Dec: Deserializer<T>>() -> bool {
    forall|e0: Enc, value: T, e1: Enc, bytes: Seq<u8>, d0: Dec, d1: Dec, res: Result<T, Dec::Error>|
        #[trigger] Enc::encodes(e0, value, e1, Ok::<Seq<u8>, Enc::Error>(bytes))
            && #[trigger] Dec::decodes(d0, bytes, d1, res) ==> res == Ok::<T, Dec::Error>(value)
}

impl<S, Item, SinkItem, Codec: Deserializer<Item>> WsTransport<S, Item, SinkItem, Codec> {
    /// A run of the readable side: the adapter starts as `states[0]`; at
    /// step `i` the carrier reports `reports[i]`, the channel surfaces
    /// `outs[i]` and the adapter is left as `states[i + 1]`.
    pub open spec fn inbound_run(
        states: Seq<Self>,
        reports: Seq<Poll<Option<Seq<u8>>>>,
        outs: Seq<Poll<Option<Result<Item, Failure<Codec::Error>>>>>,
    ) -> bool {
        &&& states.len() == reports.len() + 1
        &&& outs.len() == reports.len()
        &&& forall|i: int|
            #![trigger outs[i]]
            0 <= i < reports.len() ==> Self::surfaces(
                states[i],
                reports[i],
                states[i + 1],
                outs[i],
            )
    }

    /// However long the readable side runs, the carrier that the adapter
    /// owns is the one it was made with.
    pub proof fn lemma_inbound_keeps_carrier(
        states: Seq<Self>,
        reports: Seq<Poll<Option<Seq<u8>>>>,
        outs: Seq<Poll<Option<Result<Item, Failure<Codec::Error>>>>>,
        i: int,
    )
        requires
            Self::inbound_run(states, reports, outs),
            0 <= i <= reports.len(),
        ensures
            states[i].carrier() == states[0].carrier(),
        decreases i,
    {
        if i > 0 {
            Self::lemma_inbound_keeps_carrier(states, reports, outs, i - 1);
            assert(Self::surfaces(states[i - 1], reports[i - 1], states[i], outs[i - 1])) by {
                let _ = outs[i - 1];
            }
        }
    }

    /// Order is preserved on the readable side. When the carrier delivers
    /// `frames` one after another, the channel surfaces one item for each,
    /// in the same order: the `i`-th item is what the codec made of the
    /// `i`-th frame, in the state that the frames before it left the codec
    /// in. No frame is held back, none is looked at before its turn.
    pub proof fn lemma_inbound_order(
        states: Seq<Self>,
        frames: Seq<Seq<u8>>,
        outs: Seq<Poll<Option<Result<Item, Failure<Codec::Error>>>>>,
    )
        requires
            Self::inbound_run(states, delivered(frames), outs),
        ensures
            outs.len() == frames.len(),
            forall|i: int|
                #![trigger outs[i]]
                0 <= i < frames.len() ==> {
                    &&& outs[i] matches Poll::Ready(Some(item))
                    &&& item == unified(cause_of(item))
                    &&& Codec::decodes(
                        states[i].codec(),
                        frames[i],
                        states[i + 1].codec(),
                        cause_of(item),
                    )
                },
    {
        assert forall|i: int| #![trigger outs[i]] 0 <= i < frames.len() implies {
            &&& outs[i] matches Poll::Ready(Some(item))
            &&& item == unified(cause_of(item))
            &&& Codec::decodes(states[i].codec(), frames[i], states[i + 1].codec(), cause_of(item))
        } by {
            assert(delivered(frames)[i] == Poll::Ready(Some(frames[i])));
            assert(Self::surfaces(states[i], delivered(frames)[i], states[i + 1], outs[i]));
        }
    }

    /// An error stays where it is. Let the carrier deliver `bad`, which
    /// the codec rejects, and then `good`, which the codec accepts in the
    /// state that the rejection left it in. Then the channel surfaces one
    /// error item, whose cause is the codec's error, and goes on: the next
    /// item is the value decoded from `good`. The carrier is not touched.
    pub proof fn lemma_error_isolation(
        before: Self,
        bad: Seq<u8>,
        between: Self,
        first: Poll<Option<Result<Item, Failure<Codec::Error>>>>,
        good: Seq<u8>,
        after: Self,
        second: Poll<Option<Result<Item, Failure<Codec::Error>>>>,
    )
        requires
            Self::surfaces(before, Poll::Ready(Some(bad)), between, first),
            Self::surfaces(between, Poll::Ready(Some(good)), after, second),
            forall|post: Codec, res: Result<Item, Codec::Error>| #[trigger]
                Codec::decodes(before.codec(), bad, post, res) ==> res is Err,
            forall|post: Codec, res: Result<Item, Codec::Error>| #[trigger]
                Codec::decodes(between.codec(), good, post, res) ==> res is Ok,
        ensures
            first matches Poll::Ready(Some(Err(failure))) && failure.kind == ErrorKind::Other
                && Codec::decodes(
                before.codec(),
                bad,
                between.codec(),
                Err::<Item, Codec::Error>(failure.source),
            ),
            second matches Poll::Ready(Some(Ok(value))) && Codec::decodes(
                between.codec(),
                good,
                after.codec(),
                Ok::<Item, Codec::Error>(value),
            ),
            after.carrier() == before.carrier(),
    {
    }
}

impl<S, Item, SinkItem, Codec: Serializer<SinkItem>> WsTransport<S, Item, SinkItem, Codec> {
    /// A run of the writable side: the adapter starts as `states[0]`; the
    /// `i`-th send is of `items[i]`, returns `outs[i]` (the frame for the
    /// carrier, or the failure) and leaves the adapter as `states[i + 1]`.
    pub open spec fn outbound_run(
        states: Seq<Self>,
        items: Seq<SinkItem>,
        outs: Seq<Result<Seq<u8>, Failure<Codec::Error>>>,
    ) -> bool {
        &&& states.len() == items.len() + 1
        &&& outs.len() == items.len()
        &&& forall|i: int|
            #![trigger outs[i]]
            0 <= i < items.len() ==> Self::frames(states[i], items[i], states[i + 1], outs[i])
    }

    /// The frames that a run of sends has for the carrier, in the order of
    /// the sends. A send that failed has none.
    pub open spec fn forwarded(outs: Seq<Result<Seq<u8>, Failure<Codec::Error>>>) -> Seq<Seq<u8>>
        decreases outs.len(),
    {
        if outs.len() == 0 {
            Seq::empty()
        } else {
            match outs.last() {
                Ok(frame) => Self::forwarded(outs.drop_last()).push(frame),
                Err(_) => Self::forwarded(outs.drop_last()),
            }
        }
    }

    /// However many values are sent, the carrier that the adapter owns is
    /// the one it was made with.
    pub proof fn lemma_outbound_keeps_carrier(
        states: Seq<Self>,
        items: Seq<SinkItem>,
        outs: Seq<Result<Seq<u8>, Failure<Codec::Error>>>,
        i: int,
    )
        requires
            Self::outbound_run(states, items, outs),
            0 <= i <= items.len(),
        ensures
            states[i].carrier() == states[0].carrier(),
        decreases i,
    {
        if i > 0 {
            Self::lemma_outbound_keeps_carrier(states, items, outs, i - 1);
            assert(Self::frames(states[i - 1], items[i - 1], states[i], outs[i - 1])) by {
                let _ = outs[i - 1];
            }
        }
    }

    /// Order is preserved on the writable side. In a run of sends, the
    /// `i`-th outcome belongs to the `i`-th value: it is what the codec made
    /// of that value, in the state that the sends before it left the codec
    /// in. Where every send succeeds, the carrier is so handed one frame for
    /// each value, in the order of the sends.
    pub proof fn lemma_outbound_order(
        states: Seq<Self>,
        items: Seq<SinkItem>,
        outs: Seq<Result<Seq<u8>, Failure<Codec::Error>>>,
    )
        requires
            Self::outbound_run(states, items, outs),
        ensures
            forall|i: int|
                #![trigger outs[i]]
                0 <= i < items.len() ==> {
                    &&& outs[i] == unified(cause_of(outs[i]))
                    &&& Codec::encodes(
                        states[i].codec(),
                        items[i],
                        states[i + 1].codec(),
                        cause_of(outs[i]),
                    )
                },
            Self::forwarded(outs).len() <= items.len(),
            (forall|i: int| 0 <= i < outs.len() ==> (#[trigger] outs[i]) is Ok) ==> {
                &&& Self::forwarded(outs).len() == items.len()
                &&& forall|i: int|
                    #![trigger Self::forwarded(outs)[i]]
                    0 <= i < items.len() ==> outs[i] == Ok::<Seq<u8>, Failure<Codec::Error>>(
                        Self::forwarded(outs)[i],
                    )
            },
    {
        assert forall|i: int| #![trigger outs[i]] 0 <= i < items.len() implies {
            &&& outs[i] == unified(cause_of(outs[i]))
            &&& Codec::encodes(states[i].codec(), items[i], states[i + 1].codec(), cause_of(outs[i]))
        } by {
            assert(Self::frames(states[i], items[i], states[i + 1], outs[i]));
        }
        Self::lemma_forwarded_in_order(outs);
    }

    /// The frames for the carrier are the outcomes that are frames, in the
    /// order of the sends: never more than there were sends, and where no
    /// send failed, the `i`-th frame is the `i`-th outcome.
    pub proof fn lemma_forwarded_in_order(outs: Seq<Result<Seq<u8>, Failure<Codec::Error>>>)
        ensures
            Self::forwarded(outs).len() <= outs.len(),
            (forall|i: int| 0 <= i < outs.len() ==> (#[trigger] outs[i]) is Ok) ==> {
                &&& Self::forwarded(outs).len() == outs.len()
                &&& forall|i: int|
                    #![trigger Self::forwarded(outs)[i]]
                    0 <= i < outs.len() ==> outs[i] == Ok::<Seq<u8>, Failure<Codec::Error>>(
                        Self::forwarded(outs)[i],
                    )
            },
        decreases outs.len(),
    {
        if outs.len() > 0 {
            let n = outs.len() - 1;
            Self::lemma_forwarded_in_order(outs.drop_last());
            if forall|i: int| 0 <= i < outs.len() ==> (#[trigger] outs[i]) is Ok {
                assert(outs[n] is Ok);
                assert forall|i: int| 0 <= i < outs.drop_last().len() implies (
                #[trigger] outs.drop_last()[i]) is Ok by {
                    assert(outs[i] is Ok);
                }
                assert forall|i: int|
                    #![trigger Self::forwarded(outs)[i]]
                    0 <= i < outs.len() implies outs[i] == Ok::<Seq<u8>, Failure<Codec::Error>>(
                    Self::forwarded(outs)[i],
                ) by {
                    if i < n {
                        assert(Self::forwarded(outs)[i] == Self::forwarded(outs.drop_last())[i]);
                        assert(outs.drop_last()[i] == outs[i]);
                    }
                }
            }
        }
    }

    /// A send that fails hands the carrier nothing and costs the sends
    /// after it nothing: the frames for the carrier are those of the sends
    /// that succeeded, in their order.
    pub proof fn lemma_failed_send_forwards_nothing(
        outs: Seq<Result<Seq<u8>, Failure<Codec::Error>>>,
        out: Result<Seq<u8>, Failure<Codec::Error>>,
    )
        ensures
            Self::forwarded(outs.push(out)) == match out {
                Ok(frame) => Self::forwarded(outs).push(frame),
                Err(_) => Self::forwarded(outs),
            },
    {
        assert(outs.push(out).drop_last() == outs);
        assert(outs.push(out).last() == out);
    }
}

/// What is sent arrives. Let one adapter encode `value` into a frame and
/// another be delivered exactly that frame. If the codec of the first and
/// the codec of the second are paired, the second surfaces `value`.
///
/// The adapters add nothing to the bytes and take nothing away: whether a
/// value survives the trip is up to the codecs alone.
pub proof fn lemma_round_trip<S1, I1, T, Enc: Serializer<T>, S2, O2, Dec: Deserializer<T>>(
    sender: WsTransport<S1, I1, T, Enc>,
    value: T,
    sender_after: WsTransport<S1, I1, T, Enc>,
    sent: Result<Seq<u8>, Failure<Enc::Error>>,
    receiver: WsTransport<S2, T, O2, Dec>,
    receiver_after: WsTransport<S2, T, O2, Dec>,
    received: Poll<Option<Result<T, Failure<Dec::Error>>>>,
)
    requires
        paired::<T, Enc, Dec>(),
        WsTransport::<S1, I1, T, Enc>::frames(sender, value, sender_after, sent),
        sent is Ok,
        WsTransport::<S2, T, O2, Dec>::surfaces(
            receiver,
            Poll::Ready(Some(sent->Ok_0)),
            receiver_after,
            received,
        ),
    ensures
        received == Poll::Ready(Some(Ok::<T, Failure<Dec::Error>>(value))),
{
    let bytes = sent->Ok_0;
    assert(cause_of(sent) == Ok::<Seq<u8>, Enc::Error>(bytes));
    assert(Enc::encodes(sender.codec(), value, sender_after.codec(), Ok::<Seq<u8>, Enc::Error>(bytes)));
    match received {
        Poll::Ready(Some(item)) => {
            assert(Dec::decodes(receiver.codec(), bytes, receiver_after.codec(), cause_of(item)));
        },
        _ => {},
    }
}

} // verus!
