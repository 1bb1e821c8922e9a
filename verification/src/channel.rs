use crate::frame::Frame;
use vstd::prelude::*;

verus! {

/// The error `recv` reports once the channel is closed and drained: capture
/// has ended and no further frame will ever arrive. It is a normal
/// termination signal, distinct from any capture fault.
#[derive(Clone, Copy, Debug, PartialEq, Eq, Structural)]
pub struct RecvError;

/// Abstract state of a frame channel: the buffered frames, oldest first, and
/// whether the producer side has been closed.
#[verifier::ext_equal]
pub struct ChannelView {
    pub frames: Seq<Frame>,
    pub closed: bool,
}

/// A single-producer, single-consumer queue of frames.
///
/// Frames leave in exactly the order they entered. Sending never blocks and
/// never fails silently: it reports whether the frame was accepted. Closing
/// the channel stops all further sends while leaving the buffered frames
/// drainable, so the consumer's receive terminates deterministically.
pub struct FrameChannel {
    queue: Vec<Frame>,
    closed: bool,
}

impl View for FrameChannel {
    type V = ChannelView;

    closed spec fn view(&self) -> ChannelView {
        ChannelView { frames: self.queue@, closed: self.closed }
    }
}

impl FrameChannel {
    /// A fresh channel: open, with no buffered frames.
    pub fn new() -> (c: FrameChannel)
        ensures
            c@.frames.len() == 0,
            !c@.closed,
    {
        FrameChannel { queue: Vec::new(), closed: false }
    }

    /// Producer side: appends one frame, without blocking. Fails — and then
    /// leaves the queue untouched — exactly when the channel is closed.
    pub fn send(&mut self, frame: Frame) -> (r: bool)
        ensures
            r <==> !old(self)@.closed,
            final(self)@.closed == old(self)@.closed,
            r ==> final(self)@.frames == old(self)@.frames.push(frame),
            !r ==> final(self)@.frames == old(self)@.frames,
    {
        if self.closed {
            false
        } else {
            self.queue.push(frame);
            true
        }
    }

    /// Consumer side: removes and returns the oldest buffered frame, or
    /// reports [`RecvError`] once the channel is closed and drained.
    ///
    /// A receive with nothing buffered on an open channel would block until
    /// the producer acts, so such a call is excluded by precondition.
    pub fn recv(&mut self) -> (r: Result<Frame, RecvError>)
        requires
            old(self)@.frames.len() > 0 || old(self)@.closed,
        ensures
            final(self)@.closed == old(self)@.closed,
            old(self)@.frames.len() > 0 ==> r == Ok::<Frame, RecvError>(old(self)@.frames[0])
                && final(self)@.frames == old(self)@.frames.skip(1),
            old(self)@.frames.len() == 0 ==> r == Err::<Frame, RecvError>(RecvError)
                && final(self)@.frames == old(self)@.frames,
    {
        if self.queue.len() > 0 {
            let frame = self.queue.remove(0);
            proof {
                assert(self.queue@ =~= old(self)@.frames.skip(1));
            }
            Ok(frame)
        } else {
            Err(RecvError)
        }
    }

    /// Closes the producer side: no later send succeeds, while every frame
    /// already buffered stays drainable.
    pub fn close(&mut self)
        ensures
            final(self)@.closed,
            final(self)@.frames == old(self)@.frames,
    {
        self.closed = true;
    }
}

} // verus!
