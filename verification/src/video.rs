//! Video post-processing: turning the picture unit's raw frame of palette
//! indices into the RGBA bytes handed to the caller.
//!
//! Two filters are selectable.  `Pixellate` is the direct expansion
//! implemented here: each palette index becomes one opaque grey RGBA pixel.
//! `Ntsc` selects the composite-artifact simulation, which works in
//! floating point and is applied by the presentation shell on top of the
//! same expansion.

use vstd::prelude::*;
use vstd::pervasive::VecAdditionalExecFns;

verus! {

/// Selectable video post-filter.
#[derive(Debug, Copy, Clone, PartialEq, Eq, Structural, Hash)]
#[must_use]
pub enum VideoFilter {
    Pixellate,
    Ntsc,
}

impl Default for VideoFilter {
    /// The default filter is the direct pixel expansion.
    fn default() -> (r: Self)
        ensures
            r == VideoFilter::Pixellate,
    {
        VideoFilter::Pixellate
    }
}

/// Grey level a palette index expands to: the index's six significant bits
/// scaled to the byte range.
pub open spec fn spec_grey_level(v: u8) -> u8 {
    ((v & 0x3F) * 4) as u8
}

/// One RGBA channel byte of the expanded frame: channels red, green and
/// blue carry the grey level of the source pixel, alpha is opaque.
pub open spec fn spec_rgba_byte(frame: Seq<u8>, i: int) -> u8 {
    if i % 4 == 3 {
        255u8
    } else {
        spec_grey_level(frame[i / 4])
    }
}

/// The video post-processor: the selected filter and the RGBA output
/// buffer it regenerates every frame.
#[derive(Debug, Clone, PartialEq, Eq)]
#[must_use]
pub struct Video {
    pub filter: VideoFilter,
    pub output: Vec<u8>,
}

impl Video {
    /// Source frame size in pixels: 256 columns by 240 scanlines.
    pub open spec fn spec_frame_pixels() -> usize {
        61440
    }

    /// Structural invariant: the output buffer holds four bytes per pixel.
    pub open spec fn wf(self) -> bool {
        self.output@.len() == 4 * Self::spec_frame_pixels()
    }

    /// A processor with the default filter and a black output frame.
    pub fn new() -> (r: Video)
        ensures
            r.wf(),
            r.filter == VideoFilter::Pixellate,
    {
        Video { filter: VideoFilter::Pixellate, output: vec![0u8; 245760] }
    }

    /// Select the video filter, effective from the next frame.
    pub fn set_filter(&mut self, filter: VideoFilter)
        ensures
            final(self).filter == filter,
            final(self).output@ == old(self).output@,
    {
        self.filter = filter;
    }

    /// Expand the raw frame of palette indices into the RGBA output
    /// buffer: one opaque grey pixel per source index.
    pub fn apply_filter(&mut self, frame: &Vec<u8>, frame_number: u32)
        requires
            old(self).wf(),
            frame@.len() == Video::spec_frame_pixels(),
        ensures
            final(self).wf(),
            final(self).filter == old(self).filter,
            final(self).output@.len() == 4 * Video::spec_frame_pixels(),
            forall|i: int|
                0 <= i < final(self).output@.len() ==> final(self).output@[i] == spec_rgba_byte(
                    frame@,
                    i,
                ),
    {
        let _ = frame_number;
        let mut i: usize = 0;
        while i < 61440
            invariant
                self.wf(),
                self.filter == old(self).filter,
                frame@.len() == 61440,
                i <= 61440,
                forall|j: int| 0 <= j < 4 * i ==> self.output@[j] == spec_rgba_byte(frame@, j),
            decreases 61440 - i,
        {
            let v = frame[i];
            proof {
                assert(v & 0x3F < 64) by (bit_vector);
            }
            let grey = (v & 0x3F) * 4;
            self.output.set(4 * i, grey);
            self.output.set(4 * i + 1, grey);
            self.output.set(4 * i + 2, grey);
            self.output.set(4 * i + 3, 255);
            proof {
                assert forall|j: int| 0 <= j < 4 * (i + 1) implies self.output@[j]
                    == spec_rgba_byte(frame@, j) by {
                    if j < 4 * i {
                    } else {
                        assert(j / 4 == i as int);
                        assert(j % 4 == j - 4 * i);
                    }
                }
            }
            i = i + 1;
        }
    }

    /// The current RGBA output frame.
    pub fn output(&self) -> (r: &Vec<u8>)
        ensures
            r@ == self.output@,
    {
        &self.output
    }
}

} // verus!
