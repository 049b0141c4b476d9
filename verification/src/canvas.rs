//! Painting a frame into a shared pixel buffer.
//!
//! A buffer holds one 32-bit pixel per four bytes, least significant byte
//! first, row after row without padding: pixel `i` of a surface `width`
//! pixels wide lies in row `i / width`.

use vstd::prelude::*;

verus! {

/// The pixel that lets everything beneath the surface show through.
pub const TRANSPARENT: u32 = 0;

/// Opaque white.
pub const WHITE: u32 = 0xFFFF_FFFF;

/// How a buffer for a surface is laid out in shared memory: its extents in
/// pixels, the bytes from one row to the next, and the bytes in all.
#[derive(Clone, Copy, Debug, PartialEq, Eq, Structural)]
pub struct BufferLayout {
    pub width: i32,
    pub height: i32,
    pub stride: i32,
    pub len: usize,
}

/// A rectangle of buffer pixels whose content has changed.
#[derive(Clone, Copy, Debug, PartialEq, Eq, Structural)]
pub struct Damage {
    pub x: u32,
    pub y: u32,
    pub width: u32,
    pub height: u32,
}

/// Whether a buffer of `width` by `height` pixels can be asked for: its
/// extents and its stride must fit the protocol's signed integers, and its
/// length an index into memory.
pub open spec fn layout_fits(width: nat, height: nat) -> bool {
    &&& 4 * width <= i32::MAX
    &&& height <= i32::MAX
    &&& 4 * width * height <= usize::MAX
}

impl BufferLayout {
    /// The layout of a buffer of `width` by `height` pixels: rows of
    /// `4 * width` bytes without padding, or nothing where no such buffer
    /// can be asked for.
    pub fn for_size(width: u32, height: u32) -> (r: Option<BufferLayout>)
        ensures
            r is Some <==> layout_fits(width as nat, height as nat),
            r matches Some(layout) ==> {
                &&& layout.width == width
                &&& layout.height == height
                &&& layout.stride == 4 * width
                &&& layout.len == 4 * width * height
            },
    {
        if width > 0x1FFF_FFFF || height > 0x7FFF_FFFF {
            return None;
        }
        let stride: u64 = 4 * (width as u64);
        assert(stride * (height as u64) <= 0x7FFF_FFFF * 0x7FFF_FFFF) by (nonlinear_arith)
            requires
                stride <= 0x7FFF_FFFF,
                height <= 0x7FFF_FFFF,
        ;
        let total: u64 = stride * (height as u64);
        if total > usize::MAX as u64 {
            return None;
        }
        Some(
            BufferLayout {
                width: width as i32,
                height: height as i32,
                stride: stride as i32,
                len: total as usize,
            },
        )
    }
}

/// Byte `k` (0 to 3) of a pixel as it lies in memory.
pub open spec fn le_byte(color: u32, k: int) -> u8 {
    if k == 0 {
        (color & 0xff) as u8
    } else if k == 1 {
        ((color >> 8) & 0xff) as u8
    } else if k == 2 {
        ((color >> 16) & 0xff) as u8
    } else {
        ((color >> 24) & 0xff) as u8
    }
}

/// The pixel whose four bytes start at byte `4 * i` of `bytes`.
pub open spec fn pixel_at(bytes: Seq<u8>, i: int) -> u32 {
    (bytes[4 * i] as u32) | (bytes[4 * i + 1] as u32) << 8 | (bytes[4 * i + 2] as u32) << 16
        | (bytes[4 * i + 3] as u32) << 24
}

/// The colour of every pixel of row `y`: nothing is drawn without a prompt,
/// and a prompt leaves the first `offset` rows clear and fills the rest.
pub open spec fn row_color(active: bool, offset: nat, y: int) -> u32 {
    if active && y >= offset {
        WHITE
    } else {
        TRANSPARENT
    }
}

/// What `paint` leaves in a buffer that held `before`.
///
/// Without a prompt every byte is cleared. With one, every whole pixel takes
/// the colour of its row, and the bytes behind the last whole pixel stay as
/// they were.
pub open spec fn painted(before: Seq<u8>, width: nat, offset: nat, active: bool) -> Seq<u8> {
    Seq::new(
        before.len(),
        |k: int|
            if !active {
                0u8
            } else if k / 4 < before.len() / 4 {
                le_byte(row_color(true, offset, (k / 4) / (width as int)), k % 4)
            } else {
                before[k]
            },
    )
}

/// Every whole pixel of `bytes` has the colour of its row, on a surface
/// `width` pixels wide.
pub open spec fn shows_frame(bytes: Seq<u8>, width: nat, offset: nat, active: bool) -> bool {
    forall|i: int|
        0 <= i < bytes.len() / 4 ==> #[trigger] pixel_at(bytes, i) == row_color(
            active,
            offset,
            i / (width as int),
        )
}

/// The pixel in column `x` of row `y`.
pub open spec fn pixel_xy(bytes: Seq<u8>, width: nat, x: int, y: int) -> u32 {
    pixel_at(bytes, y * width + x)
}

/// `bytes` is a buffer of exactly `width` by `height` pixels, and each of
/// its rows has, in every column, the colour of that row.
pub open spec fn shows_rows(
    bytes: Seq<u8>,
    width: nat,
    height: nat,
    offset: nat,
    active: bool,
) -> bool {
    &&& bytes.len() == 4 * width * height
    &&& forall|x: int, y: int|
        0 <= x < width && 0 <= y < height ==> #[trigger] pixel_xy(bytes, width, x, y)
            == row_color(active, offset, y)
}

/// Each byte of a pixel fits a byte.
proof fn lemma_le_bytes(color: u32)
    ensures
        le_byte(color, 0) == (color & 0xff),
        le_byte(color, 1) == ((color >> 8) & 0xff),
        le_byte(color, 2) == ((color >> 16) & 0xff),
        le_byte(color, 3) == ((color >> 24) & 0xff),
{
    assert((color & 0xff) <= 0xff) by (bit_vector);
    assert(((color >> 8) & 0xff) <= 0xff) by (bit_vector);
    assert(((color >> 16) & 0xff) <= 0xff) by (bit_vector);
    assert(((color >> 24) & 0xff) <= 0xff) by (bit_vector);
}

/// Writes `color` as pixel `i` of `canvas`.
fn put_pixel(canvas: &mut [u8], i: usize, color: u32)
    requires
        4 * i + 4 <= old(canvas)@.len(),
    ensures
        final(canvas)@.len() == old(canvas)@.len(),
        forall|k: int|
            0 <= k < old(canvas)@.len() ==> #[trigger] final(canvas)@[k] == if 4 * i <= k < 4 * i
                + 4 {
                le_byte(color, k - 4 * i)
            } else {
                old(canvas)@[k]
            },
{
    proof {
        lemma_le_bytes(color);
    }
    let base: usize = 4 * i;
    canvas[base] = (color & 0xff) as u8;
    canvas[base + 1] = ((color >> 8) & 0xff) as u8;
    canvas[base + 2] = ((color >> 16) & 0xff) as u8;
    canvas[base + 3] = ((color >> 24) & 0xff) as u8;
}

/// Clears every byte of `canvas`.
fn clear(canvas: &mut [u8])
    ensures
        final(canvas)@.len() == old(canvas)@.len(),
        forall|k: int| 0 <= k < old(canvas)@.len() ==> final(canvas)@[k] == 0u8,
{
    let n: usize = canvas.len();
    let mut k: usize = 0;
    while k < n
        invariant
            k <= n,
            canvas@.len() == n,
            forall|j: int| 0 <= j < k ==> canvas@[j] == 0u8,
        decreases n - k,
    {
        canvas[k] = 0;
        k = k + 1;
    }
}

/// Gives every whole pixel of `canvas` the colour of its row under a
/// prompt.
fn fill_rows(canvas: &mut [u8], width: u32, offset: u32)
    requires
        width > 0,
    ensures
        final(canvas)@ == painted(old(canvas)@, width as nat, offset as nat, true),
{
    let n: usize = canvas.len();
    let pixels: usize = n / 4;
    let mut i: usize = 0;
    while i < pixels
        invariant
            width > 0,
            i <= pixels,
            pixels == n / 4,
            canvas@.len() == n,
            n == old(canvas)@.len(),
            forall|k: int|
                0 <= k < 4 * i ==> #[trigger] canvas@[k] == painted(
                    old(canvas)@,
                    width as nat,
                    offset as nat,
                    true,
                )[k],
            forall|k: int| 4 * i <= k < n ==> #[trigger] canvas@[k] == old(canvas)@[k],
        decreases pixels - i,
    {
        let y: usize = i / (width as usize);
        let color: u32 = if y < offset as usize {
            TRANSPARENT
        } else {
            WHITE
        };
        put_pixel(canvas, i, color);
        i = i + 1;
    }
}

/// Paints one frame into `canvas`, the buffer of a surface `width` pixels
/// wide.
///
/// Without a prompt (`active` does not hold) every byte is cleared. With
/// one, the pixels of the first `offset` rows are made clear and all others
/// white; bytes behind the last whole pixel are left alone.
pub fn paint(canvas: &mut [u8], width: u32, offset: u32, active: bool)
    requires
        active ==> width > 0,
    ensures
        final(canvas)@ == painted(old(canvas)@, width as nat, offset as nat, active),
        shows_frame(final(canvas)@, width as nat, offset as nat, active),
{
    proof {
        lemma_painted_shows_frame(old(canvas)@, width as nat, offset as nat, active);
    }
    if active {
        fill_rows(canvas, width, offset);
    } else {
        clear(canvas);
    }
}

/// Four bytes of a pixel, put together again, give the pixel.
proof fn lemma_pixel_of_le_bytes(color: u32, b0: u8, b1: u8, b2: u8, b3: u8)
    requires
        b0 == le_byte(color, 0),
        b1 == le_byte(color, 1),
        b2 == le_byte(color, 2),
        b3 == le_byte(color, 3),
    ensures
        (b0 as u32) | (b1 as u32) << 8 | (b2 as u32) << 16 | (b3 as u32) << 24 == color,
{
    lemma_le_bytes(color);
    assert((b0 as u32) | (b1 as u32) << 8 | (b2 as u32) << 16 | (b3 as u32) << 24 == color)
        by (bit_vector)
        requires
            b0 == (color & 0xff),
            b1 == ((color >> 8) & 0xff),
            b2 == ((color >> 16) & 0xff),
            b3 == ((color >> 24) & 0xff),
    ;
}

/// Where pixel `(x, y)` lies in a buffer `width` pixels wide, and that its
/// row is found again from that place.
proof fn lemma_pixel_index(width: nat, height: nat, x: int, y: int)
    requires
        0 <= x < width,
        0 <= y < height,
    ensures
        0 <= y * width + x < width * height,
        (y * width + x) / (width as int) == y,
{
    let w = width as int;
    let h = height as int;
    assert(y * w + x < w * h) by (nonlinear_arith)
        requires
            0 <= x < w,
            0 <= y < h,
    ;
    assert((y * w + x) / w == y) by (nonlinear_arith)
        requires
            0 <= x < w,
            0 <= y,
    ;
}

/// A painted buffer shows the frame: every whole pixel has the colour of its
/// row, all clear without a prompt, and with one clear above row `offset` and
/// white from there on.
pub proof fn lemma_painted_shows_frame(before: Seq<u8>, width: nat, offset: nat, active: bool)
    requires
        active ==> width > 0,
    ensures
        painted(before, width, offset, active).len() == before.len(),
        shows_frame(painted(before, width, offset, active), width, offset, active),
{
    let after = painted(before, width, offset, active);
    assert forall|i: int| 0 <= i < after.len() / 4 implies #[trigger] pixel_at(after, i)
        == row_color(active, offset, i / (width as int)) by {
        let color = row_color(active, offset, i / (width as int));
        if !active {
            lemma_le_bytes(color);
            assert(0u32 & 0xff == 0) by (bit_vector);
            assert((0u32 >> 8) & 0xff == 0) by (bit_vector);
            assert((0u32 >> 16) & 0xff == 0) by (bit_vector);
            assert((0u32 >> 24) & 0xff == 0) by (bit_vector);
        }
        lemma_pixel_of_le_bytes(
            color,
            after[4 * i],
            after[4 * i + 1],
            after[4 * i + 2],
            after[4 * i + 3],
        );
    }
}

/// In a buffer of exactly `width` by `height` pixels that shows the frame,
/// every row has the colour of that row in every column.
pub proof fn lemma_frame_shows_rows(
    bytes: Seq<u8>,
    width: nat,
    height: nat,
    offset: nat,
    active: bool,
)
    requires
        bytes.len() == 4 * width * height,
        shows_frame(bytes, width, offset, active),
    ensures
        shows_rows(bytes, width, height, offset, active),
{
    assert forall|x: int, y: int| 0 <= x < width && 0 <= y < height implies #[trigger] pixel_xy(
        bytes,
        width,
        x,
        y,
    ) == row_color(active, offset, y) by {
        lemma_pixel_index(width, height, x, y);
        assert(4 * width * height == 4 * (width * height)) by (nonlinear_arith);
    }
}

} // verus!
