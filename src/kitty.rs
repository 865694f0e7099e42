//! Kitty graphics protocol encoder: paints an RGBA8 raster at a terminal cell
//! region and tracks the image identifier it used so that it can delete it.

use crate::raster::PreviewImage;
use base64::engine::general_purpose::STANDARD;
use base64::Engine;
use image::codecs::png::PngEncoder;
use image::{ExtendedColorType, ImageEncoder};
use vstd::prelude::*;

verus! {

/// The escape byte that opens every control sequence.
pub const ESC: u8 = 0x1b;

/// The decimal digits of `n`, most significant first, as ASCII bytes.
pub open spec fn decimal(n: nat) -> Seq<u8>
    decreases n,
{
    if n < 10 {
        seq![(48 + n) as u8]
    } else {
        decimal(n / 10).push((48 + n % 10) as u8)
    }
}

/// Appends the decimal digits of `n` to `out`.
pub fn push_decimal(out: &mut Vec<u8>, n: u32)
    ensures
        final(out)@ == old(out)@ + decimal(n as nat),
    decreases n,
{
    if n >= 10 {
        push_decimal(out, n / 10);
    }
    let d: u8 = (n % 10) as u8;
    out.push(48 + d);
    proof {
        assert(final(out)@ =~= old(out)@ + decimal(n as nat));
    }
}

/// Appends every byte of `s` to `out`.
pub fn push_bytes(out: &mut Vec<u8>, s: &[u8])
    ensures
        final(out)@ == old(out)@ + s@,
{
    let ghost start = out@;
    let mut i: usize = 0;
    while i < s.len()
        invariant
            i <= s@.len(),
            out@ == start + s@.subrange(0, i as int),
        decreases s@.len() - i,
    {
        out.push(s[i]);
        i = i + 1;
        proof {
            assert(out@ =~= start + s@.subrange(0, i as int));
        }
    }
    proof {
        assert(s@.subrange(0, s@.len() as int) =~= s@);
    }
}

/// The base64 digit of a six-bit value in the standard alphabet.
pub open spec fn base64_digit(v: int) -> u8 {
    if v < 26 {
        (65 + v) as u8
    } else if v < 52 {
        (97 + v - 26) as u8
    } else if v < 62 {
        (48 + v - 52) as u8
    } else if v == 62 {
        43u8
    } else {
        47u8
    }
}

/// Standard base64 with `=` padding, as ASCII bytes.
pub open spec fn base64_standard(b: Seq<u8>) -> Seq<u8>
    decreases b.len(),
{
    if b.len() == 0 {
        seq![]
    } else {
        let b0 = b[0] as int;
        let b1 = if b.len() > 1 { b[1] as int } else { 0 };
        let b2 = if b.len() > 2 { b[2] as int } else { 0 };
        let first = base64_digit(b0 / 4);
        let second = base64_digit((b0 % 4) * 16 + b1 / 16);
        let third = base64_digit((b1 % 16) * 4 + b2 / 64);
        if b.len() == 1 {
            seq![first, second, 61u8, 61u8]
        } else if b.len() == 2 {
            seq![first, second, third, 61u8]
        } else {
            seq![first, second, third, base64_digit(b2 % 64)] + base64_standard(
                b.subrange(3, b.len() as int),
            )
        }
    }
}

/// Whether the base64 text of `n` bytes has a length that fits in `usize`.
pub open spec fn base64_fits(n: nat) -> bool {
    4 * ((n + 2) / 3) <= usize::MAX
}

/// The output length of base64 fits exactly when the input holds at most
/// three bytes for each four that `usize` can count.
proof fn lemma_base64_fits(n: nat)
    ensures
        base64_fits(n) <==> n <= usize::MAX / 4 * 3,
{
    let m = usize::MAX / 4;
    assert(usize::MAX == 4 * m + 3);
    if n <= m * 3 {
        assert((n + 2) / 3 <= m);
    } else {
        assert((n + 2) / 3 >= m + 1);
    }
}

/// Relies on base64's `STANDARD` engine `encode`: the standard alphabet with
/// padding; it panics only when the output length overflows `usize`.
#[verifier::external_body]
fn encode_base64(bytes: &[u8]) -> (r: Vec<u8>)
    requires
        base64_fits(bytes@.len()),
    ensures
        r@ == base64_standard(bytes@),
{
    STANDARD.encode(bytes).into_bytes()
}

/// The PNG file that image's encoder writes for a `width` by `height` RGBA8
/// raster, or `None` where it refuses the raster.
pub uninterp spec fn png_rgba8(width: u32, height: u32, pixels: Seq<u8>) -> Option<Seq<u8>>;

#[verifier::external_type_specification]
#[verifier::external_body]
pub struct ExImageError(image::ImageError);

/// Relies on image's `PngEncoder::write_image` with `ExtendedColorType::Rgba8`:
/// its result depends on the raster alone; it panics unless the buffer holds
/// four bytes per pixel.
#[verifier::external_body]
fn encode_png(pixels: &[u8], width: u32, height: u32) -> (r: Result<Vec<u8>, image::ImageError>)
    requires
        pixels@.len() == width as int * height as int * 4,
    ensures
        r is Ok <==> png_rgba8(width, height, pixels@) is Some,
        r is Ok ==> r->Ok_0@ == png_rgba8(width, height, pixels@)->Some_0,
{
    let mut png = Vec::new();
    PngEncoder::new(&mut png).write_image(pixels, width, height, ExtendedColorType::Rgba8).map(
        |_| png,
    )
}

/// A rectangle of terminal cells: top-left corner and size.
#[derive(Debug, Clone, Copy, PartialEq, Eq, Structural)]
pub struct Area {
    pub x: u16,
    pub y: u16,
    pub width: u16,
    pub height: u16,
}

impl Area {
    pub fn new(x: u16, y: u16, width: u16, height: u16) -> (r: Area)
        ensures
            r == (Area { x, y, width, height }),
    {
        Area { x, y, width, height }
    }
}

/// Why an image could not be drawn.
#[derive(Debug, Clone, Copy, PartialEq, Eq, Structural)]
pub enum DrawError {
    /// The pixel buffer does not hold four bytes for each pixel.
    InvalidBuffer,
    /// The PNG encoder refused the raster.
    PngEncode,
    /// The encoded image is too large to be sent.
    TooLarge,
}

/// Whether `img` holds exactly four bytes per pixel.
pub open spec fn buffer_matches(img: PreviewImage) -> bool {
    img.pixels@.len() == img.width as int * img.height as int * 4
}

/// `ESC [ row ; col H`: moves the cursor to the area's top-left cell (1-indexed).
pub open spec fn cursor_move(area: Area) -> Seq<u8> {
    seq![ESC, 0x5bu8] + decimal(area.y as nat + 1) + seq![0x3bu8] + decimal(area.x as nat + 1)
        + seq![0x48u8]
}

/// `ESC _G f=100,a=T,c=cols,r=rows,i=id ; payload ESC \`: transmits and
/// displays a PNG image scaled to the area.
pub open spec fn transmit_command(area: Area, id: u32, payload: Seq<u8>) -> Seq<u8> {
    seq![ESC, 0x5fu8, 0x47u8, 0x66u8, 0x3du8, 0x31u8, 0x30u8, 0x30u8, 0x2cu8, 0x61u8, 0x3du8, 0x54u8, 0x2cu8, 0x63u8, 0x3du8]
        + decimal(area.width as nat) + seq![0x2cu8, 0x72u8, 0x3du8] + decimal(area.height as nat)
        + seq![0x2cu8, 0x69u8, 0x3du8] + decimal(id as nat) + seq![0x3bu8] + payload + seq![
        ESC,
        0x5cu8,
    ]
}

/// `ESC _G a=d,d=i,i=id ESC \`: deletes the image with that identifier.
pub open spec fn delete_command(id: u32) -> Seq<u8> {
    seq![ESC, 0x5fu8, 0x47u8, 0x61u8, 0x3du8, 0x64u8, 0x2cu8, 0x64u8, 0x3du8, 0x69u8, 0x2cu8, 0x69u8, 0x3du8]
        + decimal(id as nat) + seq![ESC, 0x5cu8]
}

/// What `clear` writes when `last` is the last identifier.
pub open spec fn clear_output(last: Option<u32>) -> Seq<u8> {
    match last {
        Some(id) => delete_command(id),
        None => seq![],
    }
}

/// The identifier a new image takes: 1 at first, then one more than the last
/// one, wrapping.
pub open spec fn next_image_id(last: Option<u32>) -> u32 {
    match last {
        None => 1,
        Some(id) => if id == u32::MAX {
            0
        } else {
            (id + 1) as u32
        },
    }
}

/// Appends the cursor move to `area` and the command that transmits `png`
/// under `image_id`, scaled to `area`.
pub fn write_image_commands(writer: &mut Vec<u8>, area: Area, image_id: u32, png: &[u8])
    requires
        base64_fits(png@.len()),
    ensures
        final(writer)@ == old(writer)@ + cursor_move(area) + transmit_command(
            area,
            image_id,
            base64_standard(png@),
        ),
{
    let payload = encode_base64(png);
    push_bytes(writer, &[ESC, 0x5b]);
    push_decimal(writer, area.y as u32 + 1);
    push_bytes(writer, &[0x3b]);
    push_decimal(writer, area.x as u32 + 1);
    push_bytes(writer, &[0x48]);
    push_bytes(
        writer,
        &[ESC, 0x5f, 0x47, 0x66, 0x3d, 0x31, 0x30, 0x30, 0x2c, 0x61, 0x3d, 0x54, 0x2c, 0x63, 0x3d],
    );
    push_decimal(writer, area.width as u32);
    push_bytes(writer, &[0x2c, 0x72, 0x3d]);
    push_decimal(writer, area.height as u32);
    push_bytes(writer, &[0x2c, 0x69, 0x3d]);
    push_decimal(writer, image_id);
    push_bytes(writer, &[0x3b]);
    push_bytes(writer, payload.as_slice());
    push_bytes(writer, &[ESC, 0x5c]);
    proof {
        assert(final(writer)@ =~= old(writer)@ + cursor_move(area) + transmit_command(
            area,
            image_id,
            base64_standard(png@),
        ));
    }
}

/// Appends the command that deletes the image `image_id`.
pub fn write_delete_command(writer: &mut Vec<u8>, image_id: u32)
    ensures
        final(writer)@ == old(writer)@ + delete_command(image_id),
{
    push_bytes(
        writer,
        &[ESC, 0x5f, 0x47, 0x61, 0x3d, 0x64, 0x2c, 0x64, 0x3d, 0x69, 0x2c, 0x69, 0x3d],
    );
    push_decimal(writer, image_id);
    push_bytes(writer, &[ESC, 0x5c]);
    proof {
        assert(final(writer)@ =~= old(writer)@ + delete_command(image_id));
    }
}

/// Draws images with the Kitty graphics protocol, one at a time. It keeps the
/// identifier of the image on screen, so that it can delete it, and the last
/// identifier it handed out, from which the next one follows.
#[derive(Debug, Default)]
pub struct KittyBackend {
    shown_image_id: Option<u32>,
    last_image_id: Option<u32>,
}

impl KittyBackend {
    /// The identifier of the image on screen, if any.
    pub closed spec fn shown_id(&self) -> Option<u32> {
        self.shown_image_id
    }

    /// The last identifier handed out, if any.
    pub closed spec fn last_id(&self) -> Option<u32> {
        self.last_image_id
    }

    pub fn new() -> (r: KittyBackend)
        ensures
            r.shown_id() == None::<u32>,
            r.last_id() == None::<u32>,
    {
        KittyBackend { shown_image_id: None, last_image_id: None }
    }

    /// Deletes the image on screen, if any, and stops tracking it.
    pub fn clear(&mut self, writer: &mut Vec<u8>) -> (r: Result<(), DrawError>)
        ensures
            r is Ok,
            final(writer)@ == old(writer)@ + clear_output(old(self).shown_id()),
            final(self).shown_id() == None::<u32>,
            final(self).last_id() == old(self).last_id(),
    {
        match self.shown_image_id {
            Some(id) => write_delete_command(writer, id),
            None => {},
        }
        self.shown_image_id = None;
        Ok(())
    }

    /// Clears the image on screen, then PNG-encodes `img`, base64-encodes the
    /// PNG and writes the cursor move and the transmit-and-display command
    /// for `area` under the next identifier. On failure no identifier is
    /// handed out and nothing stays on screen.
    pub fn draw(&mut self, img: &PreviewImage, area: Area, writer: &mut Vec<u8>) -> (r: Result<
        (),
        DrawError,
    >)
        ensures
            ({
                let cleared = old(writer)@ + clear_output(old(self).shown_id());
                let id = next_image_id(old(self).last_id());
                let png = png_rgba8(img.width, img.height, img.pixels@);
                &&& !buffer_matches(*img) ==> r == Err::<(), DrawError>(DrawError::InvalidBuffer)
                &&& buffer_matches(*img) && png is None ==> r == Err::<(), DrawError>(
                    DrawError::PngEncode,
                )
                &&& buffer_matches(*img) && png is Some && !base64_fits(png->Some_0.len())
                    ==> r == Err::<(), DrawError>(DrawError::TooLarge)
                &&& buffer_matches(*img) && png is Some && base64_fits(png->Some_0.len())
                    ==> r is Ok
                &&& r is Err ==> final(writer)@ == cleared && final(self).shown_id() == None::<
                    u32,
                > && final(self).last_id() == old(self).last_id()
                &&& r is Ok ==> final(self).shown_id() == Some(id) && final(self).last_id() == Some(
                    id,
                ) && final(writer)@ == cleared + cursor_move(area) + transmit_command(
                    area,
                    id,
                    base64_standard(png->Some_0),
                )
            }),
    {
        let _ = self.clear(writer);
        let w = img.width as u128;
        let h = img.height as u128;
        proof {
            assert(w * h <= 0xffff_ffffu128 * 0xffff_ffffu128) by (nonlinear_arith)
                requires
                    w <= 0xffff_ffffu128,
                    h <= 0xffff_ffffu128,
            ;
        }
        if img.pixels.len() as u128 != w * h * 4 {
            return Err(DrawError::InvalidBuffer);
        }
        let png = match encode_png(img.pixels.as_slice(), img.width, img.height) {
            Ok(png) => png,
            Err(_) => return Err(DrawError::PngEncode),
        };
        proof {
            lemma_base64_fits(png@.len());
        }
        if png.len() > usize::MAX / 4 * 3 {
            return Err(DrawError::TooLarge);
        }
        let image_id: u32 = match self.last_image_id {
            None => 1,
            Some(id) => if id == u32::MAX {
                0
            } else {
                id + 1
            },
        };
        write_image_commands(writer, area, image_id, png.as_slice());
        self.last_image_id = Some(image_id);
        self.shown_image_id = Some(image_id);
        Ok(())
    }
}

} // verus!
