use crate::visual::{ColorComponent, PixelLayout};
use std::borrow::Cow;
use vstd::arithmetic::power2::pow2;
use vstd::prelude::*;
use x11rb::image::{
    BitsPerPixel, ColorComponent as XComponent, Image, ImageOrder as XOrder, PixelLayout as XLayout,
    ScanlinePad,
};
use x11rb::protocol::xproto::{Format, Setup};

verus! {

/// How the server stores pixels of the target depth: bits per pixel, the bit multiple each
/// scanline is padded to, and the byte order (0: least significant first, 1: most significant
/// first).
#[derive(Clone, Copy, Debug, PartialEq, Eq, Structural)]
pub struct ServerFormat {
    pub bits_per_pixel: u8,
    pub scanline_pad: u8,
    pub byte_order: u8,
}

/// Why an image could not be reencoded.
#[derive(Clone, Copy, Debug, PartialEq, Eq, Structural)]
pub enum ReencodeError {
    UnsupportedFormat,
}

pub open spec fn format_supported(f: ServerFormat) -> bool {
    &&& f.bits_per_pixel == 1 || f.bits_per_pixel == 4 || f.bits_per_pixel == 8
        || f.bits_per_pixel == 16 || f.bits_per_pixel == 24 || f.bits_per_pixel == 32
    &&& f.scanline_pad == 8 || f.scanline_pad == 16 || f.scanline_pad == 32
    &&& f.byte_order <= 1
}

/// Bytes in one scanline of `width` pixels: the bits rounded up to a multiple of `pad`.
pub open spec fn stride(width: int, bits_per_pixel: int, pad: int) -> int {
    let v = width * bits_per_pixel + pad - 1;
    (v - v % pad) / 8
}

/// A channel value widened to 16 bits by repeating its byte, then cut to its top `width` bits:
/// the value a component `width` bits wide holds for it.
pub open spec fn channel_field(c: u8, width: u8) -> int {
    (c as int * 257) / (pow2((16 - width) as nat) as int)
}

/// The pixel value held by `bytes` bytes at `at`, read in the given byte order.
pub open spec fn pixel_word(v: Seq<u8>, at: int, bytes: int, msb_first: bool) -> int {
    if bytes == 3 {
        if msb_first {
            v[at] * 65536 + v[at + 1] * 256 + v[at + 2]
        } else {
            v[at + 2] * 65536 + v[at + 1] * 256 + v[at]
        }
    } else if msb_first {
        v[at] * 16777216 + v[at + 1] * 65536 + v[at + 2] * 256 + v[at + 3]
    } else {
        v[at + 3] * 16777216 + v[at + 2] * 65536 + v[at + 1] * 256 + v[at]
    }
}

/// The value of pixel `(x, y)` of an image `width` pixels wide stored in format `f`.
pub open spec fn pixel_at(v: Seq<u8>, width: u16, y: int, x: int, f: ServerFormat) -> int {
    let bytes = f.bits_per_pixel / 8;
    pixel_word(
        v,
        y * stride(width as int, f.bits_per_pixel as int, f.scanline_pad as int) + x * bytes,
        bytes as int,
        f.byte_order == 1,
    )
}

/// Pixel value `p` holds the channels `r`, `g`, `b` in layout `l`: each component's bits hold its
/// channel's field, and every other bit is zero.
pub open spec fn pixel_encodes(p: int, l: PixelLayout, r: u8, g: u8, b: u8) -> bool {
    &&& (p / pow2(l.red.shift as nat) as int) % (pow2(l.red.width as nat) as int) == channel_field(r, l.red.width)
    &&& (p / pow2(l.green.shift as nat) as int) % (pow2(l.green.width as nat) as int) == channel_field(g, l.green.width)
    &&& (p / pow2(l.blue.shift as nat) as int) % (pow2(l.blue.width as nat) as int) == channel_field(b, l.blue.width)
    &&& p == channel_field(r, l.red.width) * pow2(l.red.shift as nat) + channel_field(g, l.green.width)
        * pow2(l.green.shift as nat) + channel_field(b, l.blue.width) * pow2(l.blue.shift as nat)
}

/// Pixel `(x, y)` of the reencoded image `v` holds the RGB8 source pixel at the same place.
pub open spec fn pixel_matches(v: Seq<u8>, data: Seq<u8>, width: u16, y: int, x: int, l: PixelLayout, f: ServerFormat) -> bool {
    let k = 3 * (y * width + x);
    pixel_encodes(pixel_at(v, width, y, x, f), l, data[k], data[k + 1], data[k + 2])
}

/// Every component of `l` lies within the low `bits` bits.
pub open spec fn fits_in(l: PixelLayout, bits: u8) -> bool {
    l.red.shift + l.red.width <= bits && l.green.shift + l.green.width <= bits
        && l.blue.shift + l.blue.width <= bits
}

/// The six numbers of a layout: width and shift of red, green and blue.
pub open spec fn layout_seq(l: PixelLayout) -> Seq<u8> {
    seq![l.red.width, l.red.shift, l.green.width, l.green.shift, l.blue.width, l.blue.shift]
}

/// The bytes x11rb's `Image::reencode` produces for an image whose pixels `data` hold in layout
/// `own`, converted to layout `output` and the server format given.
pub uninterp spec fn reencoded(
    data: Seq<u8>,
    width: u16,
    height: u16,
    own: Seq<u8>,
    output: Seq<u8>,
    bits_per_pixel: u8,
    scanline_pad: u8,
    byte_order: u8,
) -> Seq<u8>;

/// Relies on x11rb's `Image::new` and `Image::reencode`: the source is a 24-bit, 24 bits per
/// pixel, byte-padded, most-significant-first image; the target format is looked up in the
/// setup by the output layout's depth, and a format value x11rb does not know is an error. Equal
/// layouts in an identical format come back unchanged (`native`, then `convert`); otherwise
/// `allocate` gives `height * stride` bytes. Each pixel is read with `get_pixel`, decoded with the
/// own layout (each channel widened to 16 bits), encoded with the output layout (cut to the
/// component's width and shifted into place) and written with `put_pixel`, which stores 24- and
/// 32-bit pixels as 3 and 4 bytes in the byte order given.
#[verifier::external_body]
fn reencode_image(
    data: &[u8],
    width: u16,
    height: u16,
    own: PixelLayout,
    output: PixelLayout,
    f: ServerFormat,
) -> (r: Result<Vec<u8>, ReencodeError>)
    requires
        data@.len() == 3 * width * height,
        own.wf() && output.wf(),
        own.depth_spec() == 24,
    ensures
        r is Ok <==> format_supported(f),
        r matches Ok(v) ==> v@ == reencoded(data@, width, height, layout_seq(own), layout_seq(output),
            f.bits_per_pixel, f.scanline_pad, f.byte_order),
        r matches Ok(v) ==> v@.len() == height * stride(width as int, f.bits_per_pixel as int, f.scanline_pad as int),
        r matches Ok(v) ==> (own == output && f.bits_per_pixel == 24 && f.scanline_pad == 8
            && f.byte_order == 1 ==> v@ == data@),
        r matches Ok(v) ==> (own == PixelLayout::canonical() && (f.bits_per_pixel == 24 || f.bits_per_pixel == 32)
            && fits_in(output, f.bits_per_pixel) ==> forall|y: int, x: int| 0 <= y < height && 0 <= x < width
            ==> #[trigger] pixel_matches(v@, data@, width, y, x, output, f)),
{
    let c = |c: ColorComponent| XComponent::new(c.width, c.shift).unwrap();
    let layout = |l: PixelLayout| XLayout::new(c(l.red), c(l.green), c(l.blue));
    let output = layout(output);
    let pixmap_formats = vec![Format { depth: output.depth(), bits_per_pixel: f.bits_per_pixel, scanline_pad: f.scanline_pad }];
    let setup = Setup { image_byte_order: f.byte_order.into(), pixmap_formats, ..Setup::default() };
    let image = Image::new(width, height, ScanlinePad::Pad8, 24, BitsPerPixel::B24, XOrder::MsbFirst, Cow::from(data)).unwrap();
    image.reencode(layout(own), output, &setup).map(|i| i.data().to_vec()).or(Err(ReencodeError::UnsupportedFormat))
}

/// Reencodes packed RGB8 pixels, `width` by `height`, into the layout and format the server
/// expects.
pub fn reencode_rgb8(data: &Vec<u8>, width: u16, height: u16, output: PixelLayout, format: ServerFormat) -> (r: Result<Vec<u8>, ReencodeError>)
    requires
        data@.len() == 3 * width * height,
        output.wf(),
    ensures
        r is Ok <==> format_supported(format),
        r matches Ok(v) ==> v@ == reencoded(data@, width, height, layout_seq(PixelLayout::canonical()),
            layout_seq(output), format.bits_per_pixel, format.scanline_pad, format.byte_order),
        r matches Ok(v) ==> v@.len() == height * stride(width as int, format.bits_per_pixel as int, format.scanline_pad as int),
        r matches Ok(v) ==> (output == PixelLayout::canonical() && format.bits_per_pixel == 24
            && format.scanline_pad == 8 && format.byte_order == 1 ==> v@ == data@),
        r matches Ok(v) ==> ((format.bits_per_pixel == 24 || format.bits_per_pixel == 32)
            && fits_in(output, format.bits_per_pixel) ==> forall|y: int, x: int| 0 <= y < height && 0 <= x < width
            ==> #[trigger] pixel_matches(v@, data@, width, y, x, output, format)),
{
    let own = PixelLayout::rgb8();
    reencode_image(data.as_slice(), width, height, own, output, format)
}

/// One pixmap format the server lists: a depth, its bits per pixel and its scanline padding.
#[derive(Clone, Copy, Debug, PartialEq, Eq, Structural)]
pub struct PixmapFormat {
    pub depth: u8,
    pub bits_per_pixel: u8,
    pub scanline_pad: u8,
}

/// The format the server uses for `depth`: the first listed format of that depth, with the
/// server's byte order.
pub fn server_format(formats: &Vec<PixmapFormat>, depth: u8, byte_order: u8) -> (r: Option<ServerFormat>)
    ensures
        r is None <==> forall|k: int| 0 <= k < formats@.len() ==> #[trigger] formats@[k].depth != depth,
        r matches Some(f) ==> exists|k: int| {
            &&& 0 <= k < formats@.len() && #[trigger] formats@[k].depth == depth
            &&& forall|m: int| 0 <= m < k ==> formats@[m].depth != depth
            &&& f == (ServerFormat { bits_per_pixel: formats@[k].bits_per_pixel, scanline_pad: formats@[k].scanline_pad, byte_order })
        },
{
    let mut k: usize = 0;
    while k < formats.len()
        invariant
            k <= formats@.len(),
            forall|m: int| 0 <= m < k ==> #[trigger] formats@[m].depth != depth,
        decreases formats@.len() - k,
    {
        let f = formats[k];
        if f.depth == depth {
            return Some(ServerFormat { bits_per_pixel: f.bits_per_pixel, scanline_pad: f.scanline_pad, byte_order });
        }
        k += 1;
    }
    None
}

/// An 8-bit component holds its channel unchanged.
pub proof fn lemma_eight_bit_field(c: u8)
    ensures
        channel_field(c, 8) == c,
{
    assert(pow2(8) == 256) by {
        vstd::arithmetic::power2::lemma2_to64();
    }
    assert((c as int * 257) / 256 == c) by (nonlinear_arith)
        requires 0 <= c < 256;
}

/// A solid colour reencoded into a layout of 8-bit components, in a 24- or 32-bit format of either
/// byte order, decodes back to its red, green and blue values at every pixel.
pub proof fn lemma_solid_color_decodes(
    data: Vec<u8>,
    width: u16,
    height: u16,
    output: PixelLayout,
    format: ServerFormat,
    red: u8,
    green: u8,
    blue: u8,
    r: Result<Vec<u8>, ReencodeError>,
)
    requires
        data@.len() == 3 * width * height,
        output.wf(),
        output.red.width == 8 && output.green.width == 8 && output.blue.width == 8,
        format.bits_per_pixel == 24 || format.bits_per_pixel == 32,
        fits_in(output, format.bits_per_pixel),
        forall|k: int| 0 <= k < width * height ==> data@[3 * k] == red && data@[3 * k + 1] == green
            && #[trigger] data@[3 * k + 2] == blue,
        call_ensures(reencode_rgb8, (&data, width, height, output, format), r),
    ensures
        r matches Ok(v) ==> forall|y: int, x: int| 0 <= y < height && 0 <= x < width ==> {
            let p = #[trigger] pixel_at(v@, width, y, x, format);
            &&& (p / pow2(output.red.shift as nat) as int) % 256 == red
            &&& (p / pow2(output.green.shift as nat) as int) % 256 == green
            &&& (p / pow2(output.blue.shift as nat) as int) % 256 == blue
        },
{
    assert(pow2(8) == 256) by {
        vstd::arithmetic::power2::lemma2_to64();
    }
    lemma_eight_bit_field(red);
    lemma_eight_bit_field(green);
    lemma_eight_bit_field(blue);
    if let Ok(v) = r {
        assert forall|y: int, x: int| 0 <= y < height && 0 <= x < width implies {
            let p = #[trigger] pixel_at(v@, width, y, x, format);
            &&& (p / pow2(output.red.shift as nat) as int) % 256 == red
            &&& (p / pow2(output.green.shift as nat) as int) % 256 == green
            &&& (p / pow2(output.blue.shift as nat) as int) % 256 == blue
        } by {
            assert(pixel_matches(v@, data@, width, y, x, output, format));
            let k = y * width + x;
            assert(0 <= k < width * height) by (nonlinear_arith)
                requires 0 <= y < height, 0 <= x < width, k == y * width + x;
            assert(data@[3 * k + 2] == blue);
        }
    }
}

/// Reencoding into the packed RGB8 layout itself, in a 24-bit byte-padded most-significant-first
/// format, leaves the bytes as they were.
pub proof fn lemma_reencode_identity(data: Vec<u8>, width: u16, height: u16, r: Result<Vec<u8>, ReencodeError>)
    requires
        data@.len() == 3 * width * height,
        call_ensures(reencode_rgb8, (&data, width, height, PixelLayout::canonical(), ServerFormat { bits_per_pixel: 24, scanline_pad: 8, byte_order: 1 }), r),
    ensures
        r matches Ok(v) && v@ == data@,
{
}

} // verus!
