use crate::format::PixelFormat;
use crate::frame::Frame;
use crate::frame::FrameView;
use crate::packer::pack_frame;
use crate::packer::packed_plane;
use crate::packer::PlaneLayout;
use crate::source::CollectionSource;
use crate::source::FrameSource;
use crate::timing::pts_millis;
use crate::timing::pts_ms;
use vstd::prelude::*;

verus! {

/// One packed, timestamped buffer as handed to the sink.
pub struct PushedBuffer {
    pub data: Vec<u8>,
    pub pts_ms: u64,
}

/// What one pull request produced: at most a burst's worth of packed,
/// timestamped buffers, and whether end-of-stream was signalled during this
/// burst.
pub struct BurstOutput {
    pub pushes: Vec<PushedBuffer>,
    pub end_of_stream: bool,
    /// Ghost record of the frames, in order, whose packing produced
    /// `pushes`: the bytes of `pushes[k]` are the packing of
    /// `source_frames[k]`.
    pub source_frames: Ghost<Seq<FrameView>>,
}

/// What running a collection-backed source dry produced: every pushed
/// buffer, and how many end-of-stream signals were raised on the way.
pub struct RunOutput {
    pub pushes: Vec<PushedBuffer>,
    pub eos_signals: usize,
}

/// An all-zero destination plane, the state of a freshly allocated buffer.
pub open spec fn zero_plane(layout: PlaneLayout) -> Seq<u8> {
    Seq::new((layout.stride * layout.height) as nat, |i: int| 0u8)
}

/// The bytes the scheduler pushes for one source frame: the frame packed
/// over an all-zero plane, so stride padding bytes are zero.
pub open spec fn packed_frame_bytes(
    frame: FrameView,
    dst_format: PixelFormat,
    fill: u8,
    layout: PlaneLayout,
) -> Seq<u8> {
    packed_plane(frame, dst_format, fill, layout, zero_plane(layout))
}

/// A byte buffer of `len` zeros.
fn zeroed(len: usize) -> (buffer: Vec<u8>)
    ensures
        buffer@ == Seq::new(len as nat, |i: int| 0u8),
{
    let mut buffer: Vec<u8> = Vec::new();
    let mut i: usize = 0;
    while i < len
        invariant
            i <= len,
            buffer@.len() == i,
            forall|j: int| 0 <= j < i ==> buffer@[j] == 0u8,
        decreases len - i,
    {
        buffer.push(0);
        i = i + 1;
    }
    proof {
        assert(buffer@ =~= Seq::new(len as nat, |i: int| 0u8));
    }
    buffer
}

/// Packs one frame for the sink and stamps it with the presentation time of
/// `frame_index`.
pub fn packed_buffer_for(
    frame: &Frame,
    dst_format: PixelFormat,
    fill: u8,
    layout: &PlaneLayout,
    frame_index: u64,
    framerate: u64,
) -> (push: PushedBuffer)
    requires
        layout.wf(dst_format),
        framerate >= 1,
        frame_index * 1000 <= u64::MAX,
    ensures
        push.data@ == packed_frame_bytes(frame@, dst_format, fill, *layout),
        push.data@.len() == layout.byte_len(),
        push.pts_ms == pts_millis(frame_index as int, framerate as int),
{
    let size = layout.stride * layout.height;
    let mut data = zeroed(size);
    proof {
        assert(data@ =~= zero_plane(*layout));
    }
    pack_frame(frame, dst_format, fill, layout, &mut data);
    let pts = pts_ms(frame_index, framerate);
    PushedBuffer { data, pts_ms: pts }
}

/// Drives one frame source: on each pull request it asks the source for up
/// to `buffer_size` frames, packs and timestamps each, and signals
/// end-of-stream, exactly once in the source's lifetime, when the source
/// runs dry.
///
/// The frame index is owned by the scheduler alone: it advances by exactly
/// one per packed frame, never resets and never skips.
pub struct BurstScheduler {
    pub source: FrameSource,
    pub frame_index: u64,
    pub eos_sent: bool,
    pub buffer_size: usize,
    pub framerate: u64,
    pub dst_format: PixelFormat,
    pub layout: PlaneLayout,
    pub fill: u8,
}

impl BurstScheduler {
    /// The configuration every run relies on: a positive framerate, room
    /// for at least one frame per burst, and a plane layout that fits the
    /// destination format.
    pub open spec fn wf(self) -> bool {
        &&& self.framerate >= 1
        &&& self.buffer_size >= 1
        &&& self.layout.wf(self.dst_format)
    }

    /// The immutable configuration carried across calls.
    pub open spec fn same_config(self, other: Self) -> bool {
        &&& self.buffer_size == other.buffer_size
        &&& self.framerate == other.framerate
        &&& self.dst_format == other.dst_format
        &&& self.layout == other.layout
        &&& self.fill == other.fill
    }

    /// A scheduler over `source`, starting at frame index zero with no
    /// end-of-stream signalled yet.
    pub fn new(
        source: FrameSource,
        buffer_size: usize,
        framerate: u64,
        dst_format: PixelFormat,
        layout: PlaneLayout,
        fill: u8,
    ) -> (scheduler: BurstScheduler)
        requires
            framerate >= 1,
            buffer_size >= 1,
            layout.wf(dst_format),
        ensures
            scheduler == (BurstScheduler {
                source,
                frame_index: 0u64,
                eos_sent: false,
                buffer_size,
                framerate,
                dst_format,
                layout,
                fill,
            }),
    {
        BurstScheduler {
            source,
            frame_index: 0,
            eos_sent: false,
            buffer_size,
            framerate,
            dst_format,
            layout,
            fill,
        }
    }

    /// Serves one pull request.
    ///
    /// Frames are pulled, packed and timestamped one by one until the burst
    /// is full or the source runs dry; on exhaustion the burst ends early
    /// with an end-of-stream signal and no padding frames.  Once
    /// end-of-stream has been signalled the call is a no-op: no further
    /// pushes, no second signal.
    pub fn run_burst(&mut self) -> (output: BurstOutput)
        requires
            old(self).wf(),
            (old(self).frame_index + old(self).buffer_size) * 1000 <= u64::MAX,
        ensures
            final(self).wf(),
            old(self).same_config(*final(self)),
            old(self).eos_sent ==> output.pushes@.len() == 0 && !output.end_of_stream
                && *final(self) == *old(self),
            output.pushes@.len() <= old(self).buffer_size,
            final(self).frame_index == old(self).frame_index + output.pushes@.len(),
            final(self).eos_sent == (old(self).eos_sent || output.end_of_stream),
            output.end_of_stream ==> final(self).source.exhausted(),
            !old(self).eos_sent ==> (output.end_of_stream <==> output.pushes@.len() < old(
                self,
            ).buffer_size),
            output.source_frames@.len() == output.pushes@.len(),
            forall|k: int|
                0 <= k < output.pushes@.len() ==> (#[trigger] output.pushes@[k].pts_ms)
                    == pts_millis(
                    old(self).frame_index + k,
                    old(self).framerate as int,
                ),
            forall|k: int|
                0 <= k < output.pushes@.len() ==> (#[trigger] output.pushes@[k].data@)
                    == packed_frame_bytes(
                    output.source_frames@[k],
                    old(self).dst_format,
                    old(self).fill,
                    old(self).layout,
                ),
            match (old(self).source, final(self).source) {
                (FrameSource::Collection(before), FrameSource::Collection(after)) => {
                    &&& after.frames == before.frames
                    &&& after.cursor == before.cursor + output.pushes@.len()
                    &&& (!old(self).eos_sent ==> output.pushes@.len() == (
                    if before.remaining_frames() < old(self).buffer_size {
                        before.remaining_frames()
                    } else {
                        old(self).buffer_size as int
                    }))
                    &&& forall|k: int|
                        0 <= k < output.pushes@.len()
                            ==> #[trigger] output.source_frames@[k] == before.frames@[
                            before.cursor + k
                        ]@
                },
                (FrameSource::Channel(before), FrameSource::Channel(after)) => {
                    &&& after.receiver == before.receiver
                    &&& (!output.end_of_stream ==> after.closed == before.closed)
                },
                _ => false,
            },
    {
        let ghost prior = *self;
        let mut pushes: Vec<PushedBuffer> = Vec::new();
        let ghost mut taken: Seq<FrameView> = Seq::empty();
        if self.eos_sent {
            return BurstOutput { pushes, end_of_stream: false, source_frames: Ghost(taken) };
        }
        let mut produced: usize = 0;
        let mut eos = false;
        while produced < self.buffer_size && !eos
            invariant
                self.wf(),
                prior.same_config(*self),
                prior.eos_sent == false,
                prior.wf(),
                (prior.frame_index + prior.buffer_size) * 1000 <= u64::MAX,
                produced == pushes@.len(),
                produced <= self.buffer_size,
                taken.len() == produced,
                self.frame_index == prior.frame_index + produced,
                self.eos_sent == eos,
                eos ==> self.source.exhausted(),
                eos ==> produced < self.buffer_size,
                forall|k: int|
                    0 <= k < produced ==> (#[trigger] pushes@[k].pts_ms) == pts_millis(
                        prior.frame_index + k,
                        prior.framerate as int,
                    ),
                forall|k: int|
                    0 <= k < produced ==> (#[trigger] pushes@[k].data@) == packed_frame_bytes(
                        taken[k],
                        prior.dst_format,
                        prior.fill,
                        prior.layout,
                    ),
                match (prior.source, self.source) {
                    (FrameSource::Collection(before), FrameSource::Collection(after)) => {
                        &&& after.frames == before.frames
                        &&& after.cursor == before.cursor + produced
                        &&& (produced > 0 ==> before.cursor + produced <= before.frames@.len())
                        &&& (eos ==> before.cursor + produced >= before.frames@.len())
                        &&& forall|k: int|
                            0 <= k < produced ==> #[trigger] taken[k] == before.frames@[
                                before.cursor + k
                            ]@
                    },
                    (FrameSource::Channel(before), FrameSource::Channel(after)) => {
                        &&& after.receiver == before.receiver
                        &&& (!eos ==> after.closed == before.closed)
                    },
                    _ => false,
                },
            decreases self.buffer_size - produced, (if eos {
                0int
            } else {
                1int
            }),
        {
            match self.source.next() {
                Some(frame) => {
                    let push = packed_buffer_for(
                        &frame,
                        self.dst_format,
                        self.fill,
                        &self.layout,
                        self.frame_index,
                        self.framerate,
                    );
                    pushes.push(push);
                    proof {
                        taken = taken.push(frame@);
                    }
                    self.frame_index = self.frame_index + 1;
                    produced = produced + 1;
                },
                None => {
                    eos = true;
                    self.eos_sent = true;
                },
            }
        }
        BurstOutput { pushes, end_of_stream: eos, source_frames: Ghost(taken) }
    }

    /// Serves pull requests until the collection behind the source is
    /// drained: every remaining frame is pushed, in order, and end-of-stream
    /// is signalled exactly once, with no push after it.
    pub fn run_to_end(&mut self) -> (output: RunOutput)
        requires
            old(self).wf(),
            old(self).source is Collection,
            (old(self).frame_index + old(self).source->Collection_0.remaining_frames() + old(
                self,
            ).buffer_size) * 1000 <= u64::MAX,
        ensures
            final(self).wf(),
            old(self).same_config(*final(self)),
            final(self).eos_sent,
            output.eos_signals == (if old(self).eos_sent {
                0int
            } else {
                1int
            }),
            old(self).eos_sent ==> output.pushes@.len() == 0 && *final(self) == *old(self),
            !old(self).eos_sent ==> output.pushes@.len() == old(
                self,
            ).source->Collection_0.remaining_frames(),
            final(self).frame_index == old(self).frame_index + output.pushes@.len(),
            forall|k: int|
                0 <= k < output.pushes@.len() ==> (#[trigger] output.pushes@[k].pts_ms)
                    == pts_millis(
                    old(self).frame_index + k,
                    old(self).framerate as int,
                ),
            forall|k: int|
                0 <= k < output.pushes@.len() ==> (#[trigger] output.pushes@[k].data@)
                    == packed_frame_bytes(
                    old(self).source->Collection_0.frames@[
                        old(self).source->Collection_0.cursor + k
                    ]@,
                    old(self).dst_format,
                    old(self).fill,
                    old(self).layout,
                ),
            final(self).source is Collection,
            final(self).source->Collection_0.frames == old(self).source->Collection_0.frames,
            final(self).source->Collection_0.cursor == old(self).source->Collection_0.cursor
                + output.pushes@.len(),
    {
        let ghost prior = *self;
        let mut pushes: Vec<PushedBuffer> = Vec::new();
        if self.eos_sent {
            return RunOutput { pushes, eos_signals: 0 };
        }
        let mut signals: usize = 0;
        loop
            invariant_except_break
                self.eos_sent == false,
                signals == 0,
            invariant
                self.wf(),
                prior.same_config(*self),
                prior.eos_sent == false,
                prior.wf(),
                self.source is Collection,
                self.source->Collection_0.frames == prior.source->Collection_0.frames,
                self.source->Collection_0.cursor == prior.source->Collection_0.cursor
                    + pushes@.len(),
                pushes@.len() <= prior.source->Collection_0.remaining_frames(),
                self.frame_index == prior.frame_index + pushes@.len(),
                (self.frame_index + self.source->Collection_0.remaining_frames()
                    + self.buffer_size) * 1000 <= u64::MAX,
                forall|k: int|
                    0 <= k < pushes@.len() ==> (#[trigger] pushes@[k].pts_ms) == pts_millis(
                        prior.frame_index + k,
                        prior.framerate as int,
                    ),
                forall|k: int|
                    0 <= k < pushes@.len() ==> (#[trigger] pushes@[k].data@)
                        == packed_frame_bytes(
                        prior.source->Collection_0.frames@[
                            prior.source->Collection_0.cursor + k
                        ]@,
                        prior.dst_format,
                        prior.fill,
                        prior.layout,
                    ),
            ensures
                self.eos_sent,
                signals == 1,
                pushes@.len() == prior.source->Collection_0.remaining_frames(),
            decreases self.source->Collection_0.remaining_frames(),
        {
            let burst = self.run_burst();
            let mut burst_pushes = burst.pushes;
            pushes.append(&mut burst_pushes);
            if burst.end_of_stream {
                signals = signals + 1;
                break;
            }
        }
        RunOutput { pushes, eos_signals: signals }
    }
}

} // verus!
