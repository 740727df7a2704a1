//! Frames read back from the GPU, whose rows are padded there.
use vstd::prelude::*;

verus! {

/// Bytes a row of a buffer on the GPU is a multiple of.
pub const ROW_ALIGNMENT: u32 = 256;

/// Bytes of a half-precision RGBA pixel.
pub const BYTES_PER_PIXEL: u32 = 8;

/// The layout of a read-back frame, and the frame without its padding.
pub struct FrameReadback {
    pub width: u32,
    pub height: u32,
    /// Bytes of a padded row.
    pub bytes_per_row: u32,
    /// Bytes of a staging buffer.
    pub buffer_size: u64,
    /// The rows of the last frame, one after the other.
    pub strip_buf: Vec<u8>,
}

/// `n` rounded up to the alignment of rows.
pub open spec fn padded(n: int) -> int {
    (n + ROW_ALIGNMENT - 1) / (ROW_ALIGNMENT as int) * ROW_ALIGNMENT
}

/// The frame and its padded rows fit the machine's integers.
pub open spec fn readable(width: u32, height: u32) -> bool {
    &&& width * 8 + 255 <= u32::MAX
    &&& width * 8 * height <= u32::MAX
    &&& width * 8 * height <= usize::MAX
}

impl FrameReadback {
    pub open spec fn wf(&self) -> bool {
        &&& readable(self.width, self.height)
        &&& self.bytes_per_row == padded(self.width * 8)
        &&& self.buffer_size == self.bytes_per_row * self.height
        &&& self.strip_buf@.len() == self.width * 8 * self.height
    }

    /// The layout of frames of that extent.
    pub fn new(width: u32, height: u32) -> (r: Self)
        requires
            readable(width, height),
        ensures
            r.wf(),
            r.width == width,
            r.height == height,
            forall|i: int| 0 <= i < r.strip_buf@.len() ==> r.strip_buf@[i] == 0,
    {
        let raw_bpr: u32 = width * BYTES_PER_PIXEL;
        let bytes_per_row: u32 = (raw_bpr + (ROW_ALIGNMENT - 1)) / ROW_ALIGNMENT * ROW_ALIGNMENT;
        assert(bytes_per_row * height <= u32::MAX * u32::MAX) by (nonlinear_arith)
            requires
                0 <= bytes_per_row <= u32::MAX,
                0 <= height <= u32::MAX,
        ;
        let buffer_size: u64 = bytes_per_row as u64 * height as u64;
        let strip_size: usize = (raw_bpr * height) as usize;
        let mut strip_buf: Vec<u8> = Vec::new();
        strip_buf.resize(strip_size, 0);
        FrameReadback { width, height, bytes_per_row, buffer_size, strip_buf }
    }

    /// Copy the rows out of a padded frame, without the padding; the last row's padding may
    /// be missing.
    pub fn strip_padding(&mut self, padded_data: &[u8]) -> (r: &[u8])
        requires
            old(self).wf(),
            old(self).height > 0 ==> padded_data@.len() >= (old(self).height - 1)
                * old(self).bytes_per_row + old(self).width * 8,
        ensures
            r@ == final(self).strip_buf@,
            final(self).wf(),
            *final(self) == (FrameReadback { strip_buf: final(self).strip_buf, ..*old(self) }),
            forall|row: int, i: int|
                0 <= row < old(self).height && 0 <= i < old(self).width * 8
                    ==> #[trigger] final(self).strip_buf@[row * (old(self).width * 8) + i]
                    == padded_data@[row * old(self).bytes_per_row + i],
    {
        let raw_bpr: usize = (self.width * BYTES_PER_PIXEL) as usize;
        let pad_bpr: usize = self.bytes_per_row as usize;
        let height: usize = self.height as usize;
        let mut stripped: Vec<u8> = Vec::new();
        let mut row: usize = 0;
        assert(0 * raw_bpr == 0) by (nonlinear_arith);
        while row < height
            invariant
                row <= height,
                self.wf(),
                *self == *old(self),
                height == self.height,
                raw_bpr == self.width * 8,
                pad_bpr == self.bytes_per_row,
                raw_bpr <= pad_bpr,
                height > 0 ==> padded_data@.len() >= (height - 1) * pad_bpr + raw_bpr,
                stripped@.len() == row * raw_bpr,
                forall|r: int, i: int|
                    0 <= r < row && 0 <= i < raw_bpr ==> #[trigger] stripped@[r * raw_bpr + i]
                        == padded_data@[r * pad_bpr + i],
            decreases height - row,
        {
            let mut i: usize = 0;
            assert(row * pad_bpr <= (height - 1) * pad_bpr) by (nonlinear_arith)
                requires
                    row <= height - 1,
                    0 <= pad_bpr,
            ;
            assert(padded_data@.len() == padded_data.len());
            while i < raw_bpr
                invariant
                    row < height,
                    i <= raw_bpr <= pad_bpr,
                    row * pad_bpr + raw_bpr <= padded_data@.len(),
                    padded_data@.len() <= usize::MAX,
                    stripped@.len() == row * raw_bpr + i,
                    forall|r: int, k: int|
                        0 <= k < raw_bpr && (0 <= r < row || (r == row && k < i))
                            ==> #[trigger] stripped@[r * raw_bpr + k] == padded_data@[r * pad_bpr
                            + k],
                decreases raw_bpr - i,
            {
                let ghost before = stripped@;
                let at: usize = row * pad_bpr + i;
                stripped.push(padded_data[at]);
                proof {
                    assert forall|r: int, k: int|
                        0 <= k < raw_bpr && (0 <= r < row || (r == row && k < i + 1)) implies
                        #[trigger] stripped@[r * raw_bpr + k] == padded_data@[r * pad_bpr + k] by {
                        if r == row && k == i {
                        } else {
                            assert(0 <= r * raw_bpr + k < row * raw_bpr + i) by (nonlinear_arith)
                                requires
                                    0 <= k < raw_bpr,
                                    0 <= r,
                                    r < row || (r == row && k < i),
                                    0 <= i,
                            ;
                            assert(stripped@[r * raw_bpr + k] == before[r * raw_bpr + k]);
                        }
                    }
                }
                i += 1;
            }
            assert(row * raw_bpr + raw_bpr == (row + 1) * raw_bpr) by (nonlinear_arith);
            row += 1;
        }
        assert(height * raw_bpr == raw_bpr * height) by (nonlinear_arith);
        self.strip_buf = stripped;
        self.strip_buf.as_slice()
    }
}

/// Rows on the GPU start at multiples of the alignment, hold a whole row, and waste less
/// than the alignment.
pub proof fn law_padding_is_minimal(width: u32)
    ensures
        padded(width * 8) % (ROW_ALIGNMENT as int) == 0,
        width * 8 <= padded(width * 8) < width * 8 + ROW_ALIGNMENT,
{
}

/// A row on the GPU is the least multiple of 256 bytes that holds its pixels, of eight bytes
/// each.
pub proof fn law_rows_are_padded_to_256(width: u32, height: u32, readback: FrameReadback)
    requires
        readback.wf(),
        readback.width == width,
        readback.height == height,
    ensures
        readback.bytes_per_row % 256 == 0,
        8 * width <= readback.bytes_per_row < 8 * width + 256,
        readback.buffer_size == readback.bytes_per_row * height,
        readback.strip_buf@.len() == 8 * width * height,
{
    assert(width * 8 * height == 8 * width * height) by (nonlinear_arith);
}

} // verus!
