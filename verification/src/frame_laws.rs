//! What holds of frames on their way from the device to an image.

use vstd::prelude::*;

use crate::channel;
use crate::device;
use crate::error::{NokhwaError, NokhwaErrorView};
use crate::picture::RgbImage;
use crate::types::Resolution;

verus! {

/// Two frames that are delivered one after the other stand in the queue's
/// history once each, the later behind the earlier and both behind what was put
/// in before, for the same readers.
pub proof fn law_deliveries_in_order(
    sender: flume::Sender<Vec<u8>>,
    between: flume::Sender<Vec<u8>>,
    after: flume::Sender<Vec<u8>>,
    first: Seq<u8>,
    second: Seq<u8>,
    receiver: flume::Receiver<Vec<u8>>,
)
    requires
        channel::put_in(sender, between, first),
        channel::put_in(between, after, second),
    ensures
        channel::put(after).len() == channel::put(sender).len() + 2,
        channel::put(after)[channel::put(sender).len() as int] == first,
        channel::put(after).last() == second,
        channel::put(sender).is_prefix_of(channel::put(after)),
        channel::copies(after) == channel::copies(sender),
        channel::connected(after, receiver) == channel::connected(sender, receiver),
{
    let n = channel::put(sender).len() as int;
    assert(channel::connected(between, receiver) == channel::connected(sender, receiver));
    assert(channel::put(after)[n] == first);
    assert(channel::put(after)[n + 1] == second);
}

/// A further sender feeds the same readers, has put nothing in itself, and
/// takes nothing from the history of the one that it was made from.
pub proof fn law_further_sender(
    before: flume::Sender<Vec<u8>>,
    after: flume::Sender<Vec<u8>>,
    copy: flume::Sender<Vec<u8>>,
    receiver: flume::Receiver<Vec<u8>>,
)
    requires
        channel::copied(before, after, copy),
    ensures
        channel::connected(copy, receiver) == channel::connected(before, receiver),
        channel::connected(after, receiver) == channel::connected(before, receiver),
        channel::put(copy).len() == 0,
        channel::put(after) == channel::put(before),
        channel::copies(after) == channel::copies(before) + 1,
        channel::copies(copy) == 0,
{
}

/// A reading leaves the reader on its channel, with what it had taken out
/// before and at least one frame more; the frame that was read is the one that
/// left last and entered last of all that ever left.
pub proof fn law_reading(
    before: flume::Receiver<Vec<u8>>,
    after: flume::Receiver<Vec<u8>>,
    frame: Vec<u8>,
    sender: flume::Sender<Vec<u8>>,
)
    requires
        channel::reads(before, after, frame),
    ensures
        channel::connected(sender, after) == channel::connected(sender, before),
        channel::taken(before).len() < channel::taken(after).len(),
        forall|k: int|
            0 <= k < channel::taken(before).len() ==> #[trigger] channel::taken(after)[k]
                == channel::taken(before)[k],
        channel::taken(after).last() == frame,
        channel::numbers(after).len() == channel::taken(after).len(),
        frame@ == channel::entered(before, channel::numbers(after).last()),
        forall|k: int|
            0 <= k < channel::numbers(after).len() - 1 ==> #[trigger] channel::numbers(after)[k]
                < channel::numbers(after).last(),
{
}

/// Only the latest frame is shown: of the frames that a reading found waiting
/// none entered the queue after the one that it shows, and none is left behind.
/// A frame is waited for only where none was waiting.
pub proof fn law_latest_frame(
    before: flume::Receiver<Vec<u8>>,
    after: flume::Receiver<Vec<u8>>,
    frame: Vec<u8>,
)
    requires
        channel::reads(before, after, frame),
        channel::latest(before, after, frame),
    ensures
        frame@ == channel::entered(before, channel::numbers(after).last()),
        exists|waiting: Seq<Vec<u8>>|
            {
                &&& #[trigger] channel::drained(before, waiting)
                &&& forall|k: int|
                    0 <= k < waiting.len() ==> exists|number: nat|
                        {
                            &&& (#[trigger] waiting[k])@ == #[trigger] channel::entered(
                                before,
                                number,
                            )
                            &&& channel::numbers(after).contains(number)
                            &&& number <= channel::numbers(after).last()
                        }
                &&& channel::taken(after).len() == channel::taken(before).len() + if waiting.len()
                    == 0 {
                    1
                } else {
                    waiting.len()
                }
                &&& waiting.len() > 0 ==> frame == waiting.last()
                &&& waiting.len() == 0 ==> channel::received(before, frame)
            },
{
    let waiting = choose|waiting: Seq<Vec<u8>>|
        {
            &&& #[trigger] channel::drained(before, waiting)
            &&& waiting.len() == 0 ==> {
                &&& channel::received(before, frame)
                &&& channel::taken(after) == channel::taken(before).push(frame)
            }
            &&& waiting.len() > 0 ==> {
                &&& frame == waiting.last()
                &&& channel::taken(after) == channel::taken(before) + waiting
                &&& forall|k: int|
                    0 <= k < waiting.len() ==> (#[trigger] waiting[k])@ == channel::entered(
                        before,
                        channel::numbers(after)[channel::taken(before).len() + k],
                    )
            }
        };
    let numbers = channel::numbers(after);
    assert forall|k: int| 0 <= k < waiting.len() implies exists|number: nat|
        {
            &&& (#[trigger] waiting[k])@ == #[trigger] channel::entered(before, number)
            &&& numbers.contains(number)
            &&& number <= numbers.last()
        } by {
        let place = channel::taken(before).len() + k;
        assert(waiting[k]@ == channel::entered(before, numbers[place]));
        assert(numbers.contains(numbers[place]));
        if place < numbers.len() - 1 {
            assert(numbers[place] < numbers[numbers.len() - 1]);
        }
    }
}

/// A frame that is shown was found by a drain as the last one, or was waited
/// for after a drain that found none.
pub proof fn law_shown(receiver: flume::Receiver<Vec<u8>>, frame: Vec<u8>)
    requires
        channel::shown(receiver, frame),
    ensures
        exists|waiting: Seq<Vec<u8>>|
            {
                &&& #[trigger] channel::drained(receiver, waiting)
                &&& waiting.len() > 0 ==> frame == waiting.last()
                &&& waiting.len() == 0 ==> channel::received(receiver, frame)
            },
{
}

/// An image has the width and the height of the resolution, whatever the frame,
/// and the bytes of the frame in their order. It is made exactly when the frame
/// has three bytes for each pixel, and the bytes of a row can be counted.
pub proof fn law_image(
    r: Result<RgbImage, NokhwaError>,
    resolution: Resolution,
    data: Seq<u8>,
)
    requires
        device::image_read(r, resolution, data),
    ensures
        r matches Ok(image) ==> {
            &&& image.width == resolution.width
            &&& image.height == resolution.height
            &&& image.data@ == data
        },
        r is Ok <==> 3 * resolution.width <= usize::MAX && 3 * resolution.width
            * resolution.height <= data.len(),
        r matches Err(error) ==> error@ == NokhwaErrorView::ReadFrameError(
            "ImageBuffer too small! This is probably a bug, please report it!"@,
        ),
{
}

} // verus!
