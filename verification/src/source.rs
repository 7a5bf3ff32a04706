use crate::frame::Frame;
use crate::frame::FrameView;
use vstd::prelude::*;

verus! {

// The receiving half of std's bounded cross-thread channel has no
// specification in vstd, so it is declared here and stays opaque.
#[verifier::external_type_specification]
#[verifier::external_body]
#[verifier::reject_recursive_types(T)]
pub struct ExReceiver<T>(std::sync::mpsc::Receiver<T>);

/// Relies on `std::sync::mpsc::Receiver::recv`: it blocks until a message
/// arrives and fails only once the channel is empty and every sender has
/// been dropped.  Which frame arrives (if any) depends on another thread,
/// so nothing is promised about the result.
#[verifier::external_body]
fn receive_frame(receiver: &std::sync::mpsc::Receiver<Frame>) -> (received: Option<Frame>) {
    match receiver.recv() {
        Ok(frame) => Some(frame),
        Err(_) => None,
    }
}

/// A frame source over a finite, externally populated sequence of frames,
/// read in order by a cursor; exhausted exactly when the cursor reaches the
/// end.  The sequence itself is never changed.
pub struct CollectionSource {
    pub frames: Vec<Frame>,
    pub cursor: usize,
}

impl CollectionSource {
    /// The mathematical content of the held frames.
    pub open spec fn frame_views(self) -> Seq<FrameView> {
        Seq::new(self.frames@.len(), |i: int| self.frames@[i]@)
    }

    pub open spec fn exhausted(self) -> bool {
        self.cursor >= self.frames@.len()
    }

    /// How many frames the cursor has still to hand out.
    pub open spec fn remaining_frames(self) -> int {
        if self.cursor <= self.frames@.len() {
            self.frames@.len() - self.cursor
        } else {
            0
        }
    }
}

/// A frame source over a bounded cross-thread channel.  A closed channel
/// (every producer dropped) is ordinary exhaustion, not an error, and once
/// seen it is terminal: no later receive is attempted.
///
/// The receive blocks without a timeout; a producer that stalls without
/// closing the channel blocks the pulling thread indefinitely.
pub struct ChannelSource {
    pub receiver: std::sync::mpsc::Receiver<Frame>,
    pub closed: bool,
}

/// One of the two frame producers, behind the single contract the burst
/// scheduler relies on: hand out the next frame, or signal exhaustion, and
/// never produce a frame again after signalling it.
pub enum FrameSource {
    Collection(CollectionSource),
    Channel(ChannelSource),
}

impl FrameSource {
    /// A source over the frames of `frames`, starting at the first.
    pub fn from_frames(frames: Vec<Frame>) -> (source: FrameSource)
        ensures
            source == FrameSource::Collection(CollectionSource { frames, cursor: 0 }),
    {
        FrameSource::Collection(CollectionSource { frames, cursor: 0 })
    }

    /// A source over the receiving half of a channel.
    pub fn from_channel(receiver: std::sync::mpsc::Receiver<Frame>) -> (source: FrameSource)
        ensures
            source == FrameSource::Channel(ChannelSource { receiver, closed: false }),
    {
        FrameSource::Channel(ChannelSource { receiver, closed: false })
    }

    /// No frame will ever come out of this source again.
    pub open spec fn exhausted(self) -> bool {
        match self {
            FrameSource::Collection(c) => c.exhausted(),
            FrameSource::Channel(ch) => ch.closed,
        }
    }

    /// Hands out the next frame, or `None` once the source is exhausted.
    /// Exhaustion is terminal: after a `None`, the source stays exhausted
    /// and never changes again.
    pub fn next(&mut self) -> (received: Option<Frame>)
        ensures
            old(self).exhausted() ==> received is None && *final(self) == *old(self),
            received is None ==> final(self).exhausted(),
            match (*old(self), *final(self)) {
                (FrameSource::Collection(before), FrameSource::Collection(after)) => {
                    &&& after.frames == before.frames
                    &&& if before.cursor < before.frames@.len() {
                        &&& received matches Some(f) && f@ == before.frames@[
                            before.cursor as int
                        ]@
                        &&& after.cursor == before.cursor + 1
                    } else {
                        &&& received is None
                        &&& after.cursor == before.cursor
                    }
                },
                (FrameSource::Channel(before), FrameSource::Channel(after)) => {
                    &&& after.receiver == before.receiver
                    &&& (received is Some ==> after.closed == before.closed)
                    &&& (received is None ==> after.closed)
                },
                _ => false,
            },
    {
        match self {
            FrameSource::Collection(c) => {
                if c.cursor < c.frames.len() {
                    let frame = c.frames[c.cursor].clone();
                    c.cursor = c.cursor + 1;
                    Some(frame)
                } else {
                    None
                }
            },
            FrameSource::Channel(ch) => {
                if ch.closed {
                    None
                } else {
                    let received = receive_frame(&ch.receiver);
                    match received {
                        Some(frame) => Some(frame),
                        None => {
                            ch.closed = true;
                            None
                        },
                    }
                }
            },
        }
    }
}

} // verus!
