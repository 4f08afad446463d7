//! The frame in memory: its pixel format, its layout, and the way from its pixels to an image.
use vstd::prelude::*;

verus! {

/// The pixel formats that can be turned into an image. Both are 32-bit words.
#[derive(Clone, Copy, Debug, PartialEq, Eq, Structural)]
pub enum PixelFormat {
    Argb8888,
    Xrgb8888,
}

impl PixelFormat {
    /// The code of the format in `wl_shm`.
    pub open spec fn spec_code(self) -> u32 {
        match self {
            PixelFormat::Argb8888 => 0,
            PixelFormat::Xrgb8888 => 1,
        }
    }

    /// The code of the format in `wl_shm`.
    #[verifier::when_used_as_spec(spec_code)]
    pub fn code(self) -> (code: u32)
        ensures
            code == self.spec_code(),
    {
        match self {
            PixelFormat::Argb8888 => 0,
            PixelFormat::Xrgb8888 => 1,
        }
    }
}

/// The format to use, given the codes that the compositor offers: the one without alpha where it
/// is offered, then the one with alpha.
pub open spec fn preferred_format(offered: Seq<u32>) -> Option<PixelFormat> {
    if offered.contains(PixelFormat::Xrgb8888.code()) {
        Some(PixelFormat::Xrgb8888)
    } else if offered.contains(PixelFormat::Argb8888.code()) {
        Some(PixelFormat::Argb8888)
    } else {
        None
    }
}

fn is_offered(offered: &Vec<u32>, code: u32) -> (yes: bool)
    ensures
        yes == offered@.contains(code),
{
    let mut i: usize = 0;
    while i < offered.len()
        invariant
            i <= offered@.len(),
            forall|j: int| 0 <= j < i ==> offered@[j] != code,
        decreases offered@.len() - i,
    {
        if offered[i] == code {
            return true;
        }
        i = i + 1;
    }
    false
}

/// The format to use, given the codes that the compositor offers.
pub fn choose_format(offered: &Vec<u32>) -> (format: Option<PixelFormat>)
    ensures
        format == preferred_format(offered@),
        format == Some(PixelFormat::Xrgb8888) <==> offered@.contains(1),
        format == Some(PixelFormat::Argb8888) <==> offered@.contains(0) && !offered@.contains(1),
{
    if is_offered(offered, PixelFormat::Xrgb8888.code()) {
        Some(PixelFormat::Xrgb8888)
    } else if is_offered(offered, PixelFormat::Argb8888.code()) {
        Some(PixelFormat::Argb8888)
    } else {
        None
    }
}

/// Where the pixels of a frame stand in memory: rows of `stride` bytes, `size` bytes in all.
#[derive(Clone, Copy, Debug, PartialEq, Eq, Structural)]
pub struct Layout {
    pub width: u32,
    pub height: u32,
    pub stride: u32,
    pub size: usize,
}

/// A layout in the integers of the protocol, which are signed.
#[derive(Clone, Copy, Debug, PartialEq, Eq, Structural)]
pub struct BufferArgs {
    pub pool_size: i32,
    pub width: i32,
    pub height: i32,
    pub stride: i32,
}

/// Whether the length of a row and that of the frame are 32-bit numbers.
pub open spec fn layout_fits(width: u32, height: u32) -> bool {
    &&& 4 * width <= u32::MAX
    &&& 4 * width * height <= u32::MAX
}

/// `n`, a 32-bit number, with its bits read as a signed number.
pub open spec fn as_signed(n: int) -> int {
    if n <= i32::MAX {
        n
    } else {
        n - 0x1_0000_0000
    }
}

fn to_signed(n: u32) -> (signed: i32)
    ensures
        signed == as_signed(n as int),
{
    let signed = n as i32;
    assert(n <= 0x7fff_ffff ==> (n as i32) == n) by (bit_vector);
    assert(n > 0x7fff_ffff ==> (n as i32) == n - 0x1_0000_0000) by (bit_vector);
    signed
}

impl Layout {
    /// Rows without gaps, four bytes to a pixel.
    pub open spec fn wf(self) -> bool {
        &&& layout_fits(self.width, self.height)
        &&& self.stride == 4 * self.width
        &&& self.size == 4 * self.width * self.height
    }

    /// The layout of a frame, where its lengths are 32-bit numbers.
    pub fn new(width: u32, height: u32) -> (layout: Option<Layout>)
        ensures
            layout is Some <==> layout_fits(width, height),
            layout matches Some(l) ==> l.wf() && l.width == width && l.height == height,
            layout is Some <==> 4 * width <= u32::MAX && 4 * width * height <= u32::MAX,
            layout matches Some(l) ==> l.stride == 4 * width && l.size == 4 * width * height,
    {
        let stride = match width.checked_mul(4) {
            Some(stride) => stride,
            None => {
                return None;
            },
        };
        let size = match stride.checked_mul(height) {
            Some(size) => size,
            None => {
                return None;
            },
        };
        Some(Layout { width, height, stride, size: size as usize })
    }

    /// The layout in the integers of the protocol.
    pub fn buffer_args(&self) -> (args: BufferArgs)
        requires
            self.wf(),
        ensures
            args.pool_size == as_signed(self.size as int),
            args.width == as_signed(self.width as int),
            args.height == as_signed(self.height as int),
            args.stride == as_signed(self.stride as int),
            (args.pool_size - self.size) % 0x1_0000_0000 == 0,
            (args.width - self.width) % 0x1_0000_0000 == 0,
            (args.height - self.height) % 0x1_0000_0000 == 0,
            (args.stride - self.stride) % 0x1_0000_0000 == 0,
    {
        BufferArgs {
            pool_size: to_signed(self.size as u32),
            width: to_signed(self.width),
            height: to_signed(self.height),
            stride: to_signed(self.stride),
        }
    }
}

/// The image of a frame: byte `k` of the result belongs to pixel `k / 4`. In memory a pixel is
/// blue, green, red and a byte that is not used; in the image it is red, green, blue and full
/// opacity. A last incomplete pixel is left out.
pub open spec fn rgba_of(pixels: Seq<u8>) -> Seq<u8> {
    Seq::new(
        pixels.len() / 4 * 4,
        |k: int|
            if k % 4 == 0 {
                pixels[k + 2]
            } else if k % 4 == 1 {
                pixels[k]
            } else if k % 4 == 2 {
                pixels[k - 2]
            } else {
                0xff
            },
    )
}

/// The image of a frame.
pub fn to_rgba(pixels: &[u8]) -> (rgba: Vec<u8>)
    ensures
        rgba@ == rgba_of(pixels@),
        rgba@.len() == pixels@.len() / 4 * 4,
        forall|p: int|
            #![trigger rgba@[4 * p]]
            0 <= p < pixels@.len() / 4 ==> rgba@[4 * p] == pixels@[4 * p + 2] && rgba@[4 * p + 1]
                == pixels@[4 * p + 1] && rgba@[4 * p + 2] == pixels@[4 * p] && rgba@[4 * p + 3]
                == 0xff,
{
    let whole: usize = pixels.len() / 4 * 4;
    let mut rgba: Vec<u8> = Vec::with_capacity(whole);
    let mut i: usize = 0;
    while i < whole
        invariant
            whole == pixels@.len() / 4 * 4,
            whole <= pixels@.len(),
            i <= whole,
            i % 4 == 0,
            whole % 4 == 0,
            rgba@ == rgba_of(pixels@).take(i as int),
        decreases whole - i,
    {
        rgba.push(pixels[i + 2]);
        rgba.push(pixels[i + 1]);
        rgba.push(pixels[i]);
        rgba.push(0xff);
        i = i + 4;
        assert(rgba@ =~= rgba_of(pixels@).take(i as int));
    }
    assert(rgba_of(pixels@).take(i as int) =~= rgba_of(pixels@));
    rgba
}

/// Pixel by pixel, the image holds red, green and blue of the frame, and full opacity.
pub proof fn law_pixel_channels(pixels: Seq<u8>, p: int)
    requires
        0 <= p < pixels.len() / 4,
    ensures
        rgba_of(pixels).len() == pixels.len() / 4 * 4,
        rgba_of(pixels)[4 * p] == pixels[4 * p + 2],
        rgba_of(pixels)[4 * p + 1] == pixels[4 * p + 1],
        rgba_of(pixels)[4 * p + 2] == pixels[4 * p],
        rgba_of(pixels)[4 * p + 3] == 0xff,
{
}

/// The image does not depend on the alpha of the frame.
pub proof fn law_alpha_is_ignored(a: Seq<u8>, b: Seq<u8>)
    requires
        a.len() == b.len(),
        forall|k: int| 0 <= k < a.len() && k % 4 != 3 ==> a[k] == b[k],
    ensures
        rgba_of(a) == rgba_of(b),
{
    assert(rgba_of(a) =~= rgba_of(b));
}

/// A frame that was read whole gives an image of the same length, four bytes for each pixel.
pub proof fn law_whole_frame_whole_image(layout: Layout, pixels: Seq<u8>)
    requires
        layout.wf(),
        pixels.len() == layout.size,
    ensures
        rgba_of(pixels).len() == layout.size,
        rgba_of(pixels).len() == 4 * layout.width * layout.height,
{
    let n = layout.width * layout.height;
    assert(4 * layout.width * layout.height == 4 * n) by (nonlinear_arith)
        requires
            n == layout.width * layout.height,
    ;
}

/// The colours of a frame can be read back from its image, by the same exchange of channels.
pub proof fn law_colours_survive(pixels: Seq<u8>)
    ensures
        rgba_of(rgba_of(pixels)).len() == pixels.len() / 4 * 4,
        forall|k: int|
            0 <= k < pixels.len() / 4 * 4 && k % 4 != 3 ==> rgba_of(rgba_of(pixels))[k]
                == pixels[k],
{
}

/// The format that is used is one that the compositor offered, and there is one as soon as
/// either of the two is offered.
pub proof fn law_format_is_offered(offered: Seq<u32>)
    ensures
        preferred_format(offered) matches Some(format) ==> offered.contains(format.code()),
        preferred_format(offered) is Some <==> offered.contains(0) || offered.contains(1),
{
}

/// A frame that is not empty, of less than 2 GiB, reaches the protocol as it is: no length changes
/// when it is read as a signed number, and the rows fill the pool.
pub proof fn law_buffer_fills_pool(layout: Layout)
    requires
        layout.wf(),
        0 < layout.size <= i32::MAX,
    ensures
        as_signed(layout.size as int) == layout.size,
        as_signed(layout.width as int) == layout.width,
        as_signed(layout.height as int) == layout.height,
        as_signed(layout.stride as int) == layout.stride,
        layout.stride * layout.height == layout.size,
{
    let (w, h) = (layout.width as int, layout.height as int);
    assert(w > 0 && h > 0) by (nonlinear_arith)
        requires
            w >= 0,
            h >= 0,
            4 * w * h > 0,
    ;
    assert(w <= 4 * w * h && h <= 4 * w * h && 4 * w <= 4 * w * h) by (nonlinear_arith)
        requires
            w > 0,
            h > 0,
    ;
    assert(layout.stride * layout.height == layout.size);
}

/// The codes of the two formats: 0 with alpha, 1 without.
pub proof fn law_format_codes(format: PixelFormat)
    ensures
        format.code() == 0 <==> format == PixelFormat::Argb8888,
        format.code() == 1 <==> format == PixelFormat::Xrgb8888,
{
}

/// Wherever the format without alpha (1) stands among the offers, it is used; where it does not,
/// and the one with alpha (0) does, that one is; other offers do not count.
pub proof fn law_format_preference(offered: Seq<u32>)
    ensures
        offered.contains(1) ==> preferred_format(offered) == Some(PixelFormat::Xrgb8888),
        !offered.contains(1) && offered.contains(0) ==> preferred_format(offered) == Some(
            PixelFormat::Argb8888,
        ),
        !offered.contains(1) && !offered.contains(0) ==> preferred_format(offered) == None::<
            PixelFormat,
        >,
{
}

/// A 32-bit number read as a signed one fits 32 bits again, and differs from the number by a
/// multiple of two to the power of 32.
pub proof fn law_signed_reading(n: int)
    requires
        0 <= n <= u32::MAX,
    ensures
        i32::MIN <= as_signed(n) <= i32::MAX,
        (as_signed(n) - n) % 0x1_0000_0000 == 0,
{
}

/// A frame has a layout exactly where neither a row of four bytes for each pixel nor all the rows
/// together are longer than a 32-bit number can say.
pub proof fn law_layout_limits(width: u32, height: u32, layout: Layout)
    ensures
        layout_fits(width, height) <==> 4 * width <= 0xffff_ffff && 4 * width * height
            <= 0xffff_ffff,
        layout.wf() <==> layout_fits(layout.width, layout.height) && layout.stride == 4
            * layout.width && layout.size == 4 * layout.width * layout.height,
{
}

} // verus!
