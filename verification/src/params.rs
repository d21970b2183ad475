//! The stabilization parameters that shape a frame, and what the renderer
//! needs from them for one frame.

use vstd::prelude::*;
use crate::geometry::Size;
use crate::ieee::{unit_fraction, Binary32, Binary64};

verus! {

/// The number of values in one transform row: a 3 by 3 matrix.
pub const ROW_LEN: usize = 9;

/// The number of rows sent for a frame without rolling-shutter correction.
pub const GLOBAL_SHUTTER_ROWS: u32 = 3;

/// The number of guard rows added around the scanlines of a rolling-shutter frame.
pub const GUARD_ROWS: u32 = 2;

/// A snapshot of the stabilization engine's parameters.
#[derive(Clone, Copy, Debug)]
pub struct StabilizationParams {
    /// The resolution of the stabilized output.
    pub output_size: Size,
    /// The fill colour for uncovered pixels: red, green, blue, alpha.
    pub background: [u8; 4],
    /// The time the sensor takes to read one frame, in seconds.
    /// Zero means that no rolling-shutter correction is wanted.
    pub frame_readout_time: Binary64,
    /// The size of the frame; its height counts the scanlines.
    pub size: Size,
}

/// The number of transform rows of a frame of `height` scanlines.
pub open spec fn row_count_of(rolling_shutter: bool, height: u32) -> int {
    if rolling_shutter {
        height + GUARD_ROWS
    } else {
        GLOBAL_SHUTTER_ROWS as int
    }
}

/// What the renderer needs to know of a frame besides its transforms.
#[derive(Clone, Copy, Debug)]
pub struct FrameParams {
    /// The number of transform rows.
    pub row_count: u32,
    /// The fill colour, each channel a fraction of one.
    pub background: [Binary32; 4],
}

impl StabilizationParams {
    /// Whether frames are corrected scanline by scanline.
    pub open spec fn rolling_shutter(self) -> bool {
        self.frame_readout_time.magnitude_is_positive()
    }

    /// The number of transform rows that one frame needs.
    pub open spec fn spec_row_count(self) -> int {
        row_count_of(self.rolling_shutter(), self.size.height)
    }

    /// Whether the rows of a frame can be counted in 32 bits and their values
    /// indexed on this machine.
    pub open spec fn rows_fit(self) -> bool {
        &&& self.spec_row_count() <= u32::MAX
        &&& self.spec_row_count() * ROW_LEN <= usize::MAX
    }

    /// Tests `rows_fit`, which the operations on a frame require.
    pub fn check_rows_fit(&self) -> (fit: bool)
        ensures
            fit == self.rows_fit(),
    {
        if self.frame_readout_time.has_positive_magnitude() {
            self.size.height <= u32::MAX - GUARD_ROWS && (self.size.height + GUARD_ROWS) as u64
                <= (usize::MAX / ROW_LEN) as u64
        } else {
            true
        }
    }

    /// The number of transform rows that one frame needs: one for each
    /// scanline and two guard rows with rolling-shutter correction, else three.
    pub fn row_count(&self) -> (rows: u32)
        requires
            self.spec_row_count() <= u32::MAX,
        ensures
            rows == self.spec_row_count(),
    {
        if self.frame_readout_time.has_positive_magnitude() {
            self.size.height + GUARD_ROWS
        } else {
            GLOBAL_SHUTTER_ROWS
        }
    }

    /// The background colour with each channel divided by 255.
    pub open spec fn spec_normalized_background(self) -> Seq<Binary32> {
        Seq::new(4, |i: int| unit_fraction(self.background[i]))
    }

    /// The background colour with each channel as a fraction of one.
    pub fn normalized_background(&self) -> (colour: [Binary32; 4])
        ensures
            colour@ == self.spec_normalized_background(),
    {
        let colour = [
            Binary32::from_channel(self.background[0]),
            Binary32::from_channel(self.background[1]),
            Binary32::from_channel(self.background[2]),
            Binary32::from_channel(self.background[3]),
        ];
        assert(colour@ =~= self.spec_normalized_background());
        colour
    }

    /// The row count and the background colour of the next frame.
    pub fn frame_params(&self) -> (frame: FrameParams)
        requires
            self.spec_row_count() <= u32::MAX,
        ensures
            frame.row_count == self.spec_row_count(),
            frame.background@ == self.spec_normalized_background(),
    {
        FrameParams { row_count: self.row_count(), background: self.normalized_background() }
    }
}

/// A frame read out over a time whose magnitude is above zero takes two rows
/// more than it has scanlines. With a readout time of zero it takes three,
/// and so it does with one that is no number.
pub proof fn lemma_row_count_by_readout_time(params: StabilizationParams)
    ensures
        params.frame_readout_time.magnitude_is_positive() ==> params.spec_row_count()
            == params.size.height + 2,
        params.frame_readout_time.is_zero() ==> params.spec_row_count() == 3,
        params.frame_readout_time.is_nan() ==> params.spec_row_count() == 3,
{
}

} // verus!
