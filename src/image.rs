//! Image buffers: how many channels a raw buffer holds, and its normalization
//! into the pixel layout handed to the recognition engine.
use vstd::prelude::*;

verus! {

/// The largest value of the engine's signed 32-bit dimensions.
pub const DIM_MAX: u32 = 0x7fff_ffff;

/// The value of a fully opaque alpha channel.
pub const OPAQUE: u8 = 255;

/// Why an image buffer was refused.
#[derive(Debug, Clone, Copy, PartialEq, Eq, Structural)]
pub enum ImageError {
    /// The width, the height or the byte length exceeds the engine's 32-bit range.
    OutOfBounds,
    /// The byte length is not 1, 3 or 4 bytes per pixel (or the image has no pixel).
    InvalidSize,
}

impl ImageError {
    /// A human-readable description.
    pub fn message(&self) -> (r: String)
        ensures
            r@ == self.message_spec(),
    {
        match self {
            ImageError::OutOfBounds => "Out of bounds".to_string(),
            ImageError::InvalidSize => "Supplied image buffer has invalid size".to_string(),
        }
    }

    pub open spec fn message_spec(&self) -> Seq<char> {
        match self {
            ImageError::OutOfBounds => "Out of bounds"@,
            ImageError::InvalidSize => "Supplied image buffer has invalid size"@,
        }
    }
}

/// The colour layout of a raw image buffer.
#[derive(Debug, Clone, Copy, PartialEq, Eq, Structural)]
pub enum Layout {
    /// One byte per pixel.
    Gray,
    /// Three bytes per pixel, red, green, blue.
    Rgb,
    /// Four bytes per pixel, red, green, blue, alpha.
    Rgba,
}

impl Layout {
    /// Bytes per pixel in the raw buffer.
    pub open spec fn input_channels(self) -> nat {
        match self {
            Layout::Gray => 1,
            Layout::Rgb => 3,
            Layout::Rgba => 4,
        }
    }

    /// Bytes per pixel in the normalized buffer: RGB is stored as RGBA.
    pub open spec fn pixel_channels(self) -> nat {
        match self {
            Layout::Gray => 1,
            Layout::Rgb | Layout::Rgba => 4,
        }
    }

    /// Bytes per pixel in the normalized buffer.
    pub fn channels(self) -> (r: u32)
        ensures
            r == self.pixel_channels(),
    {
        match self {
            Layout::Gray => 1,
            Layout::Rgb | Layout::Rgba => 4,
        }
    }

    /// Bits per pixel in the normalized buffer.
    pub fn bits_per_pixel(self) -> (r: u32)
        ensures
            r == 8 * self.pixel_channels(),
    {
        8 * self.channels()
    }
}

/// The layout of a buffer of `len` bytes that holds a `width` by `height` image.
pub open spec fn layout_of(width: u32, height: u32, len: nat) -> Result<Layout, ImageError> {
    let pixels = width * height;
    if width > DIM_MAX || height > DIM_MAX || len > DIM_MAX {
        Err(ImageError::OutOfBounds)
    } else if pixels == 0 {
        Err(ImageError::InvalidSize)
    } else if len == pixels {
        Ok(Layout::Gray)
    } else if len == 3 * pixels {
        Ok(Layout::Rgb)
    } else if len == 4 * pixels {
        Ok(Layout::Rgba)
    } else {
        Err(ImageError::InvalidSize)
    }
}

/// Finds the layout of a `width` by `height` image held in `len` bytes.
pub fn detect_layout(width: u32, height: u32, len: usize) -> (r: Result<Layout, ImageError>)
    ensures
        r == layout_of(width, height, len as nat),
{
    if width > DIM_MAX || height > DIM_MAX || len > DIM_MAX as usize {
        return Err(ImageError::OutOfBounds);
    }
    assert(width as u64 * height as u64 <= 0x3fff_ffff_0000_0001) by (nonlinear_arith)
        requires
            width <= DIM_MAX,
            height <= DIM_MAX,
    ;
    let pixels: u64 = width as u64 * height as u64;
    let n: u64 = len as u64;
    if pixels == 0 {
        Err(ImageError::InvalidSize)
    } else if n == pixels {
        Ok(Layout::Gray)
    } else if n == 3 * pixels {
        Ok(Layout::Rgb)
    } else if n == 4 * pixels {
        Ok(Layout::Rgba)
    } else {
        Err(ImageError::InvalidSize)
    }
}


/// What the normalized buffer holds: RGB pixels gain an opaque alpha byte,
/// grayscale and RGBA pixels are kept as they are.
pub open spec fn normalized(img: Seq<u8>, layout: Layout) -> Seq<u8> {
    match layout {
        Layout::Rgb => Seq::new(
            (img.len() / 3) * 4,
            |i: int|
                if i % 4 == 3 {
                    OPAQUE
                } else {
                    img[(i / 4) * 3 + i % 4]
                },
        ),
        _ => img,
    }
}

/// An image in the layout the recognition engine takes.
#[derive(Debug)]
pub struct PixBuffer {
    pub width: u32,
    pub height: u32,
    /// The layout of the buffer the image was made from.
    pub layout: Layout,
    /// `layout.channels()` bytes per pixel, row by row.
    pub data: Vec<u8>,
}

proof fn lemma_chunk_bounds(k: int, j: int, n: int, count: int, len: int)
    requires
        0 <= k < count,
        0 <= j < n,
        count == len / n,
        0 <= len,
        0 < n,
    ensures
        0 <= k * n + j < count * n <= len,
{
    assert(0 <= k * n + j < count * n) by (nonlinear_arith)
        requires
            0 <= k < count,
            0 <= j < n,
    ;
    assert(count * n <= len) by (nonlinear_arith)
        requires
            count == len / n,
            0 <= len,
            0 < n,
    ;
}

/// Splits `s` into its consecutive chunks of exactly `N` elements; a remainder
/// shorter than `N` is left out.
pub fn chunks_exact<const N: usize>(s: &[u8]) -> (r: Vec<[u8; N]>)
    requires
        N > 0,
    ensures
        r@.len() == s@.len() / (N as nat),
        forall|k: int, j: int|
            0 <= k < r@.len() && 0 <= j < N ==> #[trigger] r@[k]@[j] == s@[k * N + j],
{
    let len: usize = s.len();
    let count: usize = len / N;
    let mut out: Vec<[u8; N]> = Vec::new();
    let mut k: usize = 0;
    while k < count
        invariant
            N > 0,
            len == s@.len(),
            count == s@.len() / (N as nat),
            k <= count,
            out@.len() == k,
            forall|kk: int, j: int|
                0 <= kk < k && 0 <= j < N ==> #[trigger] out@[kk]@[j] == s@[kk * N + j],
        decreases count - k,
    {
        proof {
            lemma_chunk_bounds(k as int, 0, N as int, count as int, s@.len() as int);
        }
        let base: usize = k * N;
        let mut chunk: [u8; N] = [0u8; N];
        let mut j: usize = 0;
        while j < N
            invariant
                N > 0,
                len == s@.len(),
                count == s@.len() / (N as nat),
                k < count,
                base == k * N,
                j <= N,
                forall|jj: int| 0 <= jj < j ==> #[trigger] chunk@[jj] == s@[base + jj],
            decreases N - j,
        {
            proof {
                lemma_chunk_bounds(k as int, j as int, N as int, count as int, s@.len() as int);
            }
            chunk[j] = s[base + j];
            j += 1;
        }
        out.push(chunk);
        k += 1;
    }
    out
}

/// Writes `chunks` into the consecutive exact chunks of `N` elements of `dst`:
/// element `i` of the covered prefix becomes element `i % N` of chunk `i / N`,
/// and the remainder shorter than `N` is kept.
pub fn chunks_exact_mut<const N: usize>(dst: &mut Vec<u8>, chunks: &Vec<[u8; N]>)
    requires
        N > 0,
        chunks@.len() == old(dst)@.len() / (N as nat),
    ensures
        final(dst)@.len() == old(dst)@.len(),
        forall|i: int|
            0 <= i < chunks@.len() * N ==> #[trigger] final(dst)@[i] == chunks@[i / N as int]@[i
                % N as int],
        forall|i: int|
            chunks@.len() * N <= i < old(dst)@.len() ==> #[trigger] final(dst)@[i] == old(dst)@[i],
{
    let count: usize = chunks.len();
    let len: usize = dst.len();
    proof {
        if count > 0 {
            lemma_chunk_bounds(count - 1, N - 1, N as int, count as int, len as int);
        } else {
            assert(count * N == 0) by (nonlinear_arith)
                requires
                    count == 0,
            ;
        }
    }
    let total: usize = count * N;
    let mut p: usize = 0;
    while p < total
        invariant
            N > 0,
            count == chunks@.len(),
            total == count * N,
            total <= dst@.len(),
            dst@.len() == old(dst)@.len(),
            p <= total,
            forall|i: int| 0 <= i < p ==> #[trigger] dst@[i] == chunks@[i / N as int]@[i % N as int],
            forall|i: int| p <= i < dst@.len() ==> #[trigger] dst@[i] == old(dst)@[i],
        decreases total - p,
    {
        assert(p / N < count) by (nonlinear_arith)
            requires
                p < total,
                total == count * N,
                N > 0,
        ;
        let v: u8 = chunks[p / N][p % N];
        dst.set(p, v);
        p += 1;
    }
}

/// Normalizes a `width` by `height` image held in `img`: RGB pixels are
/// stored as RGBA with an opaque alpha byte, grayscale and RGBA pixels are
/// copied. A buffer that is not 1, 3 or 4 bytes per pixel is refused.
pub fn normalize(img: &[u8], width: u32, height: u32) -> (r: Result<PixBuffer, ImageError>)
    ensures
        match layout_of(width, height, img@.len()) {
            Ok(layout) => r matches Ok(pix) && pix.width == width && pix.height == height
                && pix.layout == layout && pix.data@ == normalized(img@, layout),
            Err(e) => r == Err::<PixBuffer, ImageError>(e),
        },
{
    let layout = match detect_layout(width, height, img.len()) {
        Ok(layout) => layout,
        Err(e) => return Err(e),
    };
    match layout {
        Layout::Rgb => {
            let rgb = chunks_exact::<3>(img);
            let count: usize = rgb.len();
            let mut rgba: Vec<[u8; 4]> = Vec::new();
            let mut k: usize = 0;
            while k < count
                invariant
                    count == rgb@.len(),
                    k <= count,
                    rgba@.len() == k,
                    forall|kk: int, j: int|
                        0 <= kk < k && 0 <= j < 4 ==> #[trigger] rgba@[kk]@[j] == if j == 3 {
                            OPAQUE
                        } else {
                            rgb@[kk]@[j]
                        },
                decreases count - k,
            {
                let c: [u8; 3] = rgb[k];
                let px: [u8; 4] = [c[0], c[1], c[2], OPAQUE];
                assert(px@[3] == OPAQUE);
                rgba.push(px);
                k += 1;
            }
            assert(count * 4 <= img@.len() * 2) by (nonlinear_arith)
                requires
                    count == img@.len() / 3,
            ;
            let mut data: Vec<u8> = vec![0u8; count * 4];
            chunks_exact_mut::<4>(&mut data, &rgba);
            assert(data@ =~= normalized(img@, layout)) by {
                assert forall|i: int| 0 <= i < data@.len() implies #[trigger] data@[i]
                    == normalized(img@, layout)[i] by {
                    let k = i / 4;
                    let j = i % 4;
                    assert(k * 4 + j == i && 0 <= j < 4 && 0 <= k);
                    assert(k < count) by (nonlinear_arith)
                        requires
                            k * 4 + j == i,
                            0 <= j < 4,
                            i < count * 4,
                    ;
                    assert(k * 3 + 3 <= img@.len()) by (nonlinear_arith)
                        requires
                            0 <= k < count,
                            count == img@.len() / 3,
                    ;
                    assert(rgba@[k]@[j] == data@[i]);
                }
            }
            Ok(PixBuffer { width, height, layout, data })
        },
        _ => {
            let mut data: Vec<u8> = Vec::new();
            let mut i: usize = 0;
            while i < img.len()
                invariant
                    i <= img@.len(),
                    data@ == img@.subrange(0, i as int),
                decreases img@.len() - i,
            {
                data.push(img[i]);
                i += 1;
            }
            assert(data@ =~= img@);
            Ok(PixBuffer { width, height, layout, data })
        },
    }
}

} // verus!
