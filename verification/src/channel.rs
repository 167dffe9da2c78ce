//! The queue between the capture callback and the reader of frames.
//!
//! The callback runs on a thread of its own and sends into the queue while the
//! reader takes from it. What the queue holds at a given moment is therefore a
//! matter of timing. The contracts speak of what holds whatever the timing:
//! where a frame came from, how it was chosen, and what has been put in through
//! a sender or taken out.

use vstd::prelude::*;

use crate::error;
use crate::error::{NokhwaError, NokhwaErrorView};

verus! {

/// [`flume::Sender`], opaque: one of the sending ends of a channel.
#[verifier::external_type_specification]
#[verifier::external_body]
#[verifier::reject_recursive_types(T)]
pub struct ExSender<T>(flume::Sender<T>);

/// [`flume::Receiver`], opaque: one of the receiving ends of a channel.
#[verifier::external_type_specification]
#[verifier::external_body]
#[verifier::reject_recursive_types(T)]
pub struct ExReceiver<T>(flume::Receiver<T>);

/// [`flume::RecvError`], opaque: no more messages can be received.
#[verifier::external_type_specification]
#[verifier::external_body]
pub struct ExRecvError(flume::RecvError);

/// The two ends belong to one channel. An end never changes the channel it
/// belongs to.
pub uninterp spec fn connected(
    sender: flume::Sender<Vec<u8>>,
    receiver: flume::Receiver<Vec<u8>>,
) -> bool;

/// The bytes of the frames that have been put into the channel through this
/// sender so far, in order.
pub uninterp spec fn put(sender: flume::Sender<Vec<u8>>) -> Seq<Seq<u8>>;

/// How many further senders have been made from this one so far.
pub uninterp spec fn copies(sender: flume::Sender<Vec<u8>>) -> nat;

/// A frame of these bytes was offered to the channel through this sender, as it
/// was then, and given back.
pub uninterp spec fn refused(sender: flume::Sender<Vec<u8>>, frame: Seq<u8>) -> bool;

/// A drain of this end, as it was then, returned these frames.
pub uninterp spec fn drained(receiver: flume::Receiver<Vec<u8>>, frames: Seq<Vec<u8>>) -> bool;

/// A wait on this end, as it was then, returned this frame.
pub uninterp spec fn received(receiver: flume::Receiver<Vec<u8>>, frame: Vec<u8>) -> bool;

/// What this end has taken out of the channel so far, in the order in which it
/// left.
pub uninterp spec fn taken(receiver: flume::Receiver<Vec<u8>>) -> Seq<Vec<u8>>;

/// The bytes of the frame that entered the channel of this end under a number.
/// The frames are numbered in the order in which they enter.
pub uninterp spec fn entered(receiver: flume::Receiver<Vec<u8>>, number: nat) -> Seq<u8>;

/// The numbers under which the frames that this end has taken out entered the
/// channel, in the order in which they left.
pub uninterp spec fn numbers(receiver: flume::Receiver<Vec<u8>>) -> Seq<nat>;

/// The frames that this end has taken out left the channel in the order in
/// which they entered it, and none left twice.
pub open spec fn in_entry_order(receiver: flume::Receiver<Vec<u8>>) -> bool {
    &&& numbers(receiver).len() == taken(receiver).len()
    &&& forall|i: int, j: int|
        0 <= i < j < numbers(receiver).len() ==> #[trigger] numbers(receiver)[i]
            < #[trigger] numbers(receiver)[j]
}

/// A frame of these bytes was put in through a sender of the channel.
pub open spec fn was_sent(receiver: flume::Receiver<Vec<u8>>, frame: Seq<u8>) -> bool {
    exists|sender: flume::Sender<Vec<u8>>| #[trigger]
        connected(sender, receiver) && put(sender).contains(frame)
}

/// The frame is the newest of those that a drain found waiting, or, where the
/// drain found none, the one that was then waited for.
pub open spec fn shown(receiver: flume::Receiver<Vec<u8>>, frame: Vec<u8>) -> bool {
    exists|waiting: Seq<Vec<u8>>| #[trigger]
        drained(receiver, waiting) && if waiting.len() == 0 {
            received(receiver, frame)
        } else {
            frame == waiting.last()
        }
}

/// A reading that shows the latest frame: the channel was drained, the frame is
/// the last that the drain found, and the earlier ones are out as well. Only
/// where the drain found nothing is it a frame that was waited for.
pub open spec fn latest(
    before: flume::Receiver<Vec<u8>>,
    after: flume::Receiver<Vec<u8>>,
    frame: Vec<u8>,
) -> bool {
    exists|waiting: Seq<Vec<u8>>|
        {
            &&& #[trigger] drained(before, waiting)
            &&& waiting.len() == 0 ==> {
                &&& received(before, frame)
                &&& taken(after) == taken(before).push(frame)
            }
            &&& waiting.len() > 0 ==> {
                &&& frame == waiting.last()
                &&& taken(after) == taken(before) + waiting
                &&& forall|k: int|
                    0 <= k < waiting.len() ==> (#[trigger] waiting[k])@ == entered(
                        before,
                        numbers(after)[taken(before).len() + k],
                    )
            }
        }
}

/// Both are senders of one channel.
pub open spec fn same_source(one: flume::Sender<Vec<u8>>, other: flume::Sender<Vec<u8>>) -> bool {
    forall|receiver: flume::Receiver<Vec<u8>>| #[trigger]
        connected(one, receiver) == connected(other, receiver)
}

/// A further sender of the same channel has been made, through which nothing
/// has been put in yet.
pub open spec fn copied(
    before: flume::Sender<Vec<u8>>,
    after: flume::Sender<Vec<u8>>,
    copy: flume::Sender<Vec<u8>>,
) -> bool {
    &&& same_source(after, before)
    &&& put(after) == put(before)
    &&& copies(after) == copies(before) + 1
    &&& same_source(copy, before)
    &&& put(copy) == Seq::<Seq<u8>>::empty()
    &&& copies(copy) == 0
}

/// The frame, and nothing but the frame, has been put in.
pub open spec fn put_in(
    before: flume::Sender<Vec<u8>>,
    after: flume::Sender<Vec<u8>>,
    frame: Seq<u8>,
) -> bool {
    &&& same_source(after, before)
    &&& put(after) == put(before).push(frame)
    &&& copies(after) == copies(before)
}

/// Both are ends of one channel.
pub open spec fn same_channel(
    one: flume::Receiver<Vec<u8>>,
    other: flume::Receiver<Vec<u8>>,
) -> bool {
    &&& forall|sender: flume::Sender<Vec<u8>>| #[trigger]
        connected(sender, one) == connected(sender, other)
    &&& forall|number: nat| #[trigger] entered(one, number) == entered(other, number)
}

/// A reading of the channel: frames have been taken out in the order in which
/// they entered, and the frame is the last of them.
pub open spec fn reads(
    before: flume::Receiver<Vec<u8>>,
    after: flume::Receiver<Vec<u8>>,
    frame: Vec<u8>,
) -> bool {
    &&& same_channel(after, before)
    &&& taken(before).len() < taken(after).len()
    &&& taken(before).is_prefix_of(taken(after))
    &&& numbers(before).is_prefix_of(numbers(after))
    &&& in_entry_order(after)
    &&& frame == taken(after).last()
    &&& frame@ == entered(after, numbers(after).last())
}

/// Calls [`flume::unbounded`], which returns the two ends of one new channel.
/// Nothing has been put into it or taken out of it, and there is no other
/// sender.
#[verifier::external_body]
pub(crate) fn open_channel() -> (ends: (flume::Sender<Vec<u8>>, flume::Receiver<Vec<u8>>))
    ensures
        connected(ends.0, ends.1),
        put(ends.0) == Seq::<Seq<u8>>::empty(),
        copies(ends.0) == 0,
        taken(ends.1) == Seq::<Vec<u8>>::empty(),
{
    flume::unbounded::<Vec<u8>>()
}

/// Calls `clone` of [`flume::Sender`], which returns a further sender of the
/// same channel and puts nothing in. The sender is borrowed mutably because it
/// now has one copy more.
#[verifier::external_body]
pub(crate) fn clone_sender(sender: &mut flume::Sender<Vec<u8>>) -> (copy: flume::Sender<Vec<u8>>)
    ensures
        copied(*old(sender), *final(sender), copy),
{
    sender.clone()
}

/// Calls [`flume::Sender::send`], which on an unbounded channel does not block.
/// It puts the message into the channel, or fails, hands the message back and
/// leaves the sender as it was. The sender is borrowed mutably because it now
/// has put more in. It fails when every receiver is gone; whether that is so is
/// not stated, since receivers may live on other threads.
#[verifier::external_body]
fn send(sender: &mut flume::Sender<Vec<u8>>, frame: Vec<u8>) -> (r: Result<(), Vec<u8>>)
    ensures
        r is Ok ==> put_in(*old(sender), *final(sender), frame@),
        r matches Err(returned) ==> {
            &&& refused(*old(sender), frame@)
            &&& returned@ == frame@
            &&& *final(sender) == *old(sender)
        },
{
    sender.send(frame).map_err(|error| error.into_inner())
}

/// Calls [`flume::Receiver::drain`], which takes out what the channel holds at
/// that moment, first in, first out; all of it was put in through senders of
/// the channel. The end is borrowed mutably because it now has taken more out;
/// one that took nothing out is as it was. How much there was is not stated:
/// the senders run on other threads.
#[verifier::external_body]
pub(crate) fn drain(receiver: &mut flume::Receiver<Vec<u8>>) -> (frames: Vec<Vec<u8>>)
    ensures
        drained(*old(receiver), frames@),
        forall|k: int|
            0 <= k < frames@.len() ==> was_sent(*old(receiver), (#[trigger] frames@[k])@),
        frames@.len() == 0 ==> *final(receiver) == *old(receiver),
        taken(*final(receiver)) == taken(*old(receiver)) + frames@,
        forall|k: int|
            0 <= k < frames@.len() ==> (#[trigger] frames@[k])@ == entered(
                *old(receiver),
                numbers(*final(receiver))[taken(*old(receiver)).len() + k],
            ),
        numbers(*old(receiver)).is_prefix_of(numbers(*final(receiver))),
        in_entry_order(*final(receiver)),
        same_channel(*final(receiver), *old(receiver)),
{
    receiver.drain().collect()
}

/// Calls [`flume::Receiver::recv`], which blocks until it can take the message
/// out that entered first, one that was put in through a sender of the channel.
/// It fails only on a channel that has lost all its senders or all its
/// receivers, and then takes nothing out. A sender of the same channel,
/// borrowed for the call, rules that out. The end is borrowed mutably because
/// it now has taken more out. Which message it is is not stated: the senders
/// run on other threads.
#[verifier::external_body]
fn receive(
    receiver: &mut flume::Receiver<Vec<u8>>,
    _sender: &flume::Sender<Vec<u8>>,
) -> (r: Result<Vec<u8>, flume::RecvError>)
    ensures
        connected(*_sender, *old(receiver)) ==> r is Ok,
        r matches Ok(frame) ==> {
            &&& received(*old(receiver), frame)
            &&& was_sent(*old(receiver), frame@)
            &&& taken(*final(receiver)) == taken(*old(receiver)).push(frame)
            &&& frame@ == entered(*old(receiver), numbers(*final(receiver)).last())
        },
        r is Err ==> *final(receiver) == *old(receiver),
        numbers(*old(receiver)).is_prefix_of(numbers(*final(receiver))),
        in_entry_order(*final(receiver)),
        same_channel(*final(receiver), *old(receiver)),
{
    receiver.recv()
}

/// Calls `to_string` of [`flume::RecvError`], whose only value is displayed as
/// the sentence below.
#[verifier::external_body]
fn recv_error_text(error: &flume::RecvError) -> (text: String)
    ensures
        text@ == "receiving on a closed channel"@,
{
    error.to_string()
}

/// Puts a captured frame into the queue, once and behind those that were put
/// in before through the same sender. A queue that nobody reads any more
/// gives the frame back. The sender is one of an unbounded channel, such as the
/// camera's own senders are; on a full bounded one the call would wait.
pub fn deliver_frame(sender: &mut flume::Sender<Vec<u8>>, frame: Vec<u8>) -> (undelivered: Option<
    Vec<u8>,
>)
    ensures
        undelivered is None ==> put_in(*old(sender), *final(sender), frame@),
        undelivered is None ==> put(*final(sender)) == put(*old(sender)).push(frame@),
        undelivered is None ==> copies(*final(sender)) == copies(*old(sender)),
        forall|receiver: flume::Receiver<Vec<u8>>| #[trigger]
            connected(*final(sender), receiver) == connected(*old(sender), receiver),
        undelivered matches Some(returned) ==> {
            &&& refused(*old(sender), frame@)
            &&& returned@ == frame@
            &&& *final(sender) == *old(sender)
        },
{
    undelivered_frame(send(sender, frame))
}

/// The frame to show out of those that were waiting: the one that came last.
/// The older ones are dropped.
pub fn newest_frame(waiting: Vec<Vec<u8>>) -> (newest: Option<Vec<u8>>)
    ensures
        newest == if waiting@.len() == 0 {
            None
        } else {
            Some(waiting@.last())
        },
{
    let mut waiting = waiting;
    waiting.pop()
}

/// The error that reports that no more frames can come.
pub open spec fn closed_queue_error() -> NokhwaErrorView {
    NokhwaErrorView::ReadFrameError("All sender dropped: "@ + "receiving on a closed channel"@)
}

/// The frame that was waited for, or the report that no more frames can come.
pub fn awaited_frame(received: Result<Vec<u8>, flume::RecvError>) -> (r: Result<Vec<u8>, NokhwaError>)
    ensures
        error::outcome(r) == match received {
            Ok(frame) => Ok(frame),
            Err(_) => Err(closed_queue_error()),
        },
        received matches Ok(frame) ==> r == Ok::<Vec<u8>, NokhwaError>(frame),
        received is Err ==> (r matches Err(NokhwaError::ReadFrameError(why)) && why@
            == "All sender dropped: "@ + "receiving on a closed channel"@),
{
    match received {
        Ok(frame) => Ok(frame),
        Err(why) => Err(
            NokhwaError::ReadFrameError(
                "All sender dropped: ".to_owned().concat(recv_error_text(&why).as_str()),
            ),
        ),
    }
}

/// Waits for a frame. A sender of the same channel keeps the channel open
/// meanwhile.
pub fn wait_for_frame(
    receiver: &mut flume::Receiver<Vec<u8>>,
    sender: &flume::Sender<Vec<u8>>,
) -> (r: Result<Vec<u8>, NokhwaError>)
    ensures
        connected(*sender, *old(receiver)) ==> r is Ok,
        r matches Ok(frame) ==> {
            &&& received(*old(receiver), frame)
            &&& was_sent(*old(receiver), frame@)
            &&& taken(*final(receiver)) == taken(*old(receiver)).push(frame)
            &&& frame@ == entered(*old(receiver), numbers(*final(receiver)).last())
        },
        r matches Err(error) ==> error@ == closed_queue_error() && *final(receiver) == *old(
            receiver,
        ),
        r matches Err(error) ==> error matches NokhwaError::ReadFrameError(why) && why@
            == "All sender dropped: "@ + "receiving on a closed channel"@,
        numbers(*old(receiver)).is_prefix_of(numbers(*final(receiver))),
        in_entry_order(*final(receiver)),
        same_channel(*final(receiver), *old(receiver)),
{
    awaited_frame(receive(receiver, sender))
}

/// What is left of a frame that was handed to the queue: nothing of one that
/// the queue took, the frame itself where the queue gave it back.
pub fn undelivered_frame(sent: Result<(), Vec<u8>>) -> (undelivered: Option<Vec<u8>>)
    ensures
        undelivered == match sent {
            Ok(_) => None,
            Err(returned) => Some(returned),
        },
{
    match sent {
        Ok(()) => None,
        Err(returned) => Some(returned),
    }
}

} // verus!
