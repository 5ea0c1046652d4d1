//! The pixel content of scan-out buffers, in the XRGB8888 layout: four bytes
//! per pixel (blue, green, red, unused), rows from top to bottom.

use vstd::prelude::*;
use crate::renderer::bands::{band_start, lemma_band_ends, lemma_band_monotonic, lemma_band_step};

verus! {

/// What a test frame shows.
#[derive(Debug, Clone, Copy, PartialEq, Eq, Structural)]
pub enum Pattern {
    /// Green on every other row, black between.
    GreenLines,
    /// White everywhere.
    White,
    /// A white vertical bar over the middle third of the width, moved left
    /// by three columns per step, on black.
    Bar { step: usize },
}

/// The column that decides the colour of a byte of the bar pattern: a
/// pixel's unused byte takes the colour of the next pixel of the frame.
pub open spec fn bar_column(width: nat, col: nat, channel: nat) -> nat {
    if channel == 3 {
        (col + 1) % width
    } else {
        col
    }
}

/// Whether the bar pattern is black at `column`.
pub open spec fn bar_is_black(width: nat, step: nat, column: nat) -> bool {
    step * 3 + column < width / 3 || step * 3 + column > width * 2 / 3
}

/// The byte of channel `channel` of the pixel in row `row`, column `col`, of
/// a frame `width` pixels wide.
pub open spec fn pixel_byte(pattern: Pattern, width: nat, row: nat, col: nat, channel: nat) -> u8 {
    match pattern {
        Pattern::GreenLines => if channel == 1 {
            if row % 2 == 0 {
                255
            } else {
                0
            }
        } else if channel == 3 {
            if col % 2 == 0 {
                0
            } else {
                255
            }
        } else {
            0
        },
        Pattern::White => if channel == 3 {
            if col % 2 == 0 {
                0
            } else {
                255
            }
        } else {
            255
        },
        Pattern::Bar { step } => if bar_is_black(
            width,
            step as nat,
            bar_column(width, col, channel),
        ) {
            0
        } else {
            255
        },
    }
}

/// Byte `index` of the frame.
pub open spec fn frame_byte(pattern: Pattern, width: nat, index: nat) -> u8 {
    pixel_byte(pattern, width, index / (4 * width), (index / 4) % width, index % 4)
}

/// The bytes of the rows `first..end` of the frame.
pub open spec fn band_pixels(pattern: Pattern, width: nat, first: nat, end: nat) -> Seq<u8> {
    Seq::new(
        (4 * width * (end - first)) as nat,
        |k: int| frame_byte(pattern, width, (4 * width * first + k) as nat),
    )
}

/// The bytes of a whole frame of `rows` rows.
pub open spec fn frame_pixels(pattern: Pattern, width: nat, rows: nat) -> Seq<u8> {
    band_pixels(pattern, width, 0, rows)
}

/// Two bands that meet make the band of both: filling bands apart and
/// joining them in order gives what filling their rows at once gives.
pub proof fn bands_join(pattern: Pattern, width: nat, first: nat, middle: nat, end: nat)
    requires
        first <= middle <= end,
    ensures
        band_pixels(pattern, width, first, middle) + band_pixels(pattern, width, middle, end)
            == band_pixels(pattern, width, first, end),
{
    let upper = band_pixels(pattern, width, first, middle);
    let lower = band_pixels(pattern, width, middle, end);
    let both = band_pixels(pattern, width, first, end);
    assert(4 * width * (middle - first) + 4 * width * (end - middle) == 4 * width * (end - first))
        by (nonlinear_arith);
    assert(4 * width * first + 4 * width * (middle - first) == 4 * width * middle)
        by (nonlinear_arith);
    assert(4 * width * (middle - first) >= 0 && 4 * width * (end - middle) >= 0)
        by (nonlinear_arith)
        requires
            first <= middle <= end,
    ;
}

fn byte_of(pattern: Pattern, width: usize, row: usize, col: usize, channel: usize) -> (b: u8)
    requires
        col < width,
        channel < 4,
    ensures
        b == pixel_byte(pattern, width as nat, row as nat, col as nat, channel as nat),
{
    match pattern {
        Pattern::GreenLines => {
            if channel == 1 {
                if row % 2 == 0 {
                    255
                } else {
                    0
                }
            } else if channel == 3 {
                if col % 2 == 0 {
                    0
                } else {
                    255
                }
            } else {
                0
            }
        },
        Pattern::White => {
            if channel == 3 {
                if col % 2 == 0 {
                    0
                } else {
                    255
                }
            } else {
                255
            }
        },
        Pattern::Bar { step } => {
            let column: usize = if channel == 3 {
                if col + 1 == width {
                    0
                } else {
                    col + 1
                }
            } else {
                col
            };
            assert(column == bar_column(width as nat, col as nat, channel as nat)) by {
                if channel == 3 {
                    if col + 1 == width {
                        assert((col + 1) as nat % (width as nat) == 0) by (nonlinear_arith)
                            requires
                                col + 1 == width,
                                width > 0,
                        ;
                    } else {
                        assert((col + 1) as nat % (width as nat) == col + 1) by (nonlinear_arith)
                            requires
                                col + 1 < width,
                        ;
                    }
                }
            }
            let position: u128 = step as u128 * 3 + column as u128;
            let black = position < (width / 3) as u128 || position > width as u128 * 2 / 3;
            if black {
                0
            } else {
                255
            }
        },
    }
}

/// Fills the rows `first..end` of a frame `width` pixels wide.
pub fn fill_band(pattern: Pattern, width: usize, first: usize, end: usize) -> (pixels: Vec<u8>)
    requires
        first <= end,
        4 * width * end <= usize::MAX,
    ensures
        pixels@ == band_pixels(pattern, width as nat, first as nat, end as nat),
{
    let mut pixels: Vec<u8> = Vec::new();
    let mut row = first;
    while row < end
        invariant
            first <= row <= end,
            4 * width * end <= usize::MAX,
            pixels@ == band_pixels(pattern, width as nat, first as nat, row as nat),
        decreases end - row,
    {
        let ghost before = pixels@;
        let mut col: usize = 0;
        while col < width
            invariant
                first <= row < end,
                col <= width,
                4 * width * end <= usize::MAX,
                before == band_pixels(pattern, width as nat, first as nat, row as nat),
                pixels@.len() == before.len() + 4 * col,
                forall|k: int| 0 <= k < before.len() ==> pixels@[k] == before[k],
                forall|k: int|
                    0 <= k < 4 * col ==> #[trigger] pixels@[before.len() + k] == frame_byte(
                        pattern,
                        width as nat,
                        (4 * width * row + k) as nat,
                    ),
            decreases width - col,
        {
            let ghost row_start = pixels@;
            let mut channel: usize = 0;
            while channel < 4
                invariant
                    col < width,
                    channel <= 4,
                    pixels@.len() == row_start.len() + channel,
                    forall|k: int| 0 <= k < row_start.len() ==> pixels@[k] == row_start[k],
                    forall|c: int|
                        0 <= c < channel ==> #[trigger] pixels@[row_start.len() + c] == pixel_byte(
                            pattern,
                            width as nat,
                            row as nat,
                            col as nat,
                            c as nat,
                        ),
                decreases 4 - channel,
            {
                let b = byte_of(pattern, width, row, col, channel);
                pixels.push(b);
                channel = channel + 1;
            }
            proof {
                assert forall|k: int| 0 <= k < 4 * (col + 1) implies #[trigger] pixels@[before.len()
                    + k] == frame_byte(pattern, width as nat, (4 * width * row + k) as nat) by {
                    if k >= 4 * col {
                        let c = k - 4 * col;
                        assert(pixels@[row_start.len() + c] == pixel_byte(
                            pattern,
                            width as nat,
                            row as nat,
                            col as nat,
                            c as nat,
                        ));
                        lemma_frame_index(width as nat, row as nat, col as nat, c as nat);
                    } else {
                        assert(pixels@[before.len() + k] == row_start[before.len() + k]);
                    }
                }
            }
            col = col + 1;
        }
        proof {
            let next = band_pixels(pattern, width as nat, first as nat, (row + 1) as nat);
            assert(4 * width * ((row + 1) - first) == 4 * width * (row - first) + 4 * width)
                by (nonlinear_arith);
            assert(4 * width * first + 4 * width * (row - first) == 4 * width * row)
                by (nonlinear_arith);
            assert(4 * width * (row - first) >= 0) by (nonlinear_arith)
                requires
                    first <= row,
            ;
            assert forall|k: int| 0 <= k < next.len() implies pixels@[k] == next[k] by {
                if k >= before.len() {
                    let within = k - before.len();
                    assert(pixels@[before.len() + within] == frame_byte(
                        pattern,
                        width as nat,
                        (4 * width * row + within) as nat,
                    ));
                } else {
                    assert(pixels@[k] == before[k]);
                }
            }
        }
        row = row + 1;
    }
    pixels
}

/// Fills a whole frame of `rows` rows.
pub fn fill_frame(pattern: Pattern, width: usize, rows: usize) -> (pixels: Vec<u8>)
    requires
        4 * width * rows <= usize::MAX,
    ensures
        pixels@ == frame_pixels(pattern, width as nat, rows as nat),
{
    fill_band(pattern, width, 0, rows)
}

/// Puts the bytes of `band` behind those of `frame`.
pub fn append_band(frame: &mut Vec<u8>, band: &Vec<u8>)
    ensures
        final(frame)@ == old(frame)@ + band@,
{
    let mut k: usize = 0;
    while k < band.len()
        invariant
            k <= band@.len(),
            frame@ == old(frame)@ + band@.subrange(0, k as int),
        decreases band@.len() - k,
    {
        frame.push(band[k]);
        k = k + 1;
    }
}

/// The bytes of `bands`, one band behind the other.
pub open spec fn joined(bands: Seq<Vec<u8>>) -> Seq<u8>
    decreases bands.len(),
{
    if bands.len() == 0 {
        seq![]
    } else {
        joined(bands.drop_last()) + bands.last()@
    }
}

/// Joins the bands that the workers filled, in the order of the workers.
pub fn join_bands(bands: &Vec<Vec<u8>>) -> (frame: Vec<u8>)
    ensures
        frame@ == joined(bands@),
{
    let mut frame: Vec<u8> = Vec::new();
    let mut id: usize = 0;
    assert(bands@.subrange(0, 0) =~= Seq::<Vec<u8>>::empty());
    while id < bands.len()
        invariant
            id <= bands@.len(),
            frame@ == joined(bands@.subrange(0, id as int)),
        decreases bands@.len() - id,
    {
        assert(bands@.subrange(0, id + 1).drop_last() =~= bands@.subrange(0, id as int));
        append_band(&mut frame, &bands[id]);
        id = id + 1;
    }
    assert(bands@.subrange(0, id as int) =~= bands@);
    frame
}

proof fn lemma_joined_prefix(
    pattern: Pattern,
    width: nat,
    rows: nat,
    bands: Seq<Vec<u8>>,
    count: nat,
)
    requires
        bands.len() > 0,
        count <= bands.len(),
        forall|id: int|
            0 <= id < bands.len() ==> (#[trigger] bands[id])@ == band_pixels(
                pattern,
                width,
                band_start(rows, bands.len(), id as nat),
                band_start(rows, bands.len(), id as nat + 1),
            ),
    ensures
        joined(bands.subrange(0, count as int)) == band_pixels(
            pattern,
            width,
            0,
            band_start(rows, bands.len(), count),
        ),
    decreases count,
{
    let workers = bands.len();
    let prefix = bands.subrange(0, count as int);
    if count == 0 {
        lemma_band_monotonic(rows, workers, 0, workers);
        lemma_band_ends(rows, workers);
        assert(joined(prefix) =~= band_pixels(pattern, width, 0, 0));
    } else {
        let before = (count - 1) as nat;
        lemma_joined_prefix(pattern, width, rows, bands, before);
        lemma_band_step(rows, workers, before);
        assert(prefix.drop_last() =~= bands.subrange(0, before as int));
        assert(prefix.last() == bands[before as int]);
        bands_join(
            pattern,
            width,
            0,
            band_start(rows, workers, before),
            band_start(rows, workers, count),
        );
    }
}

/// Where each worker fills its band of the rows of a frame, the bands,
/// joined in the order of the workers, are the frame: every byte of it,
/// once, and in its place.
pub proof fn joined_bands_are_the_frame(
    pattern: Pattern,
    width: nat,
    rows: nat,
    bands: Seq<Vec<u8>>,
)
    requires
        bands.len() > 0,
        forall|id: int|
            0 <= id < bands.len() ==> (#[trigger] bands[id])@ == band_pixels(
                pattern,
                width,
                band_start(rows, bands.len(), id as nat),
                band_start(rows, bands.len(), id as nat + 1),
            ),
    ensures
        joined(bands) == frame_pixels(pattern, width, rows),
{
    lemma_joined_prefix(pattern, width, rows, bands, bands.len());
    lemma_band_ends(rows, bands.len());
    assert(bands.subrange(0, bands.len() as int) =~= bands);
}

proof fn lemma_frame_index(width: nat, row: nat, col: nat, channel: nat)
    requires
        col < width,
        channel < 4,
    ensures
        (4 * width * row + 4 * col + channel) / (4 * width) == row,
        ((4 * width * row + 4 * col + channel) / 4) % width == col,
        (4 * width * row + 4 * col + channel) % 4 == channel,
{
    let index = 4 * width * row + 4 * col + channel;
    let pixel = width * row + col;
    assert(index == 4 * pixel + channel) by (nonlinear_arith)
        requires
            index == 4 * width * row + 4 * col + channel,
            pixel == width * row + col,
    ;
    assert(pixel % width == col && pixel / width == row) by (nonlinear_arith)
        requires
            pixel == width * row + col,
            col < width,
    ;
    let within = 4 * col + channel;
    assert(index / (4 * width) == row) by (nonlinear_arith)
        requires
            index == (4 * width) * row + within,
            0 <= within < 4 * width,
    ;
}

} // verus!
