use crate::format::PixelFormat;
use vstd::prelude::*;

verus! {

/// One raw source frame: its declared dimensions, the channel layout of its
/// subpixels, and one contiguous byte buffer of interleaved subpixels.
///
/// The buffer is only borrowed for the duration of packing; a frame whose
/// buffer holds fewer complete pixels than a destination needs is packed
/// only as far as its bytes reach.
pub struct Frame {
    pub width: u32,
    pub height: u32,
    pub format: PixelFormat,
    pub data: Vec<u8>,
}

/// The mathematical content of a [`Frame`].
pub ghost struct FrameView {
    pub width: nat,
    pub height: nat,
    pub format: PixelFormat,
    pub data: Seq<u8>,
}

impl View for Frame {
    type V = FrameView;

    open spec fn view(&self) -> FrameView {
        FrameView {
            width: self.width as nat,
            height: self.height as nat,
            format: self.format,
            data: self.data@,
        }
    }
}

impl Clone for Frame {
    fn clone(&self) -> (res: Self)
        ensures
            res@ == self@,
    {
        let data = self.data.clone();
        proof {
            assert forall|i: int| 0 <= i < data@.len() implies data@[i] == self.data@[i] by {
                assert(cloned::<u8>(self.data@[i], data@[i]));
            }
            assert(data@ =~= self.data@);
        }
        Frame { width: self.width, height: self.height, format: self.format, data }
    }
}

} // verus!
