use vstd::prelude::*;

verus! {

#[verifier::external_type_specification]
#[verifier::external_body]
pub struct ExImageError(::image::ImageError);

/// What decoding `bytes` as an image file and converting it to 8-bit RGBA
/// gives: its width, its height and its pixel bytes, or nothing where the
/// bytes are no image that can be decoded.
pub uninterp spec fn rgba8_decoding(bytes: Seq<u8>) -> Option<(u32, u32, Seq<u8>)>;

/// Relies on `image::load_from_memory`, which guesses the format from the
/// bytes and decodes them, followed by `DynamicImage::to_rgba8` and
/// `ImageBuffer::into_raw`. The raw buffer of an RGBA image holds at least
/// four bytes for each pixel, row by row.
#[verifier::external_body]
fn decode_rgba8(bytes: &[u8]) -> (r: Result<(u32, u32, Vec<u8>), ::image::ImageError>)
    ensures
        match r {
            Ok((w, h, p)) => rgba8_decoding(bytes@) == Some((w, h, p@)) && p@.len() >= 4 * w * h,
            Err(_) => rgba8_decoding(bytes@) is None,
        },
{
    match ::image::load_from_memory(bytes) {
        Ok(img) => {
            let rgba = img.to_rgba8();
            let (w, h) = rgba.dimensions();
            Ok((w, h, rgba.into_raw()))
        },
        Err(e) => Err(e),
    }
}

/// Why an image could not be made.
#[derive(Clone, Copy, Debug, PartialEq, Eq, Structural)]
pub enum ImageLoadError {
    /// The contents are no image in a format that can be decoded.
    Undecodable,
}

/// A decoded image: its identity (the path it was read from, or another
/// stable name), its size in pixels and its pixels as 8-bit RGBA, row by row.
/// Two images with the same path are taken to be the same texture.
#[derive(Clone, Debug)]
pub struct Image {
    pub path: String,
    pub width: u32,
    pub height: u32,
    pub pixels: Vec<u8>,
}

impl Image {
    /// The pixel buffer holds exactly four bytes for each pixel.
    pub open spec fn is_rgba8(&self) -> bool {
        self.pixels@.len() == 4 * self.width * self.height
    }

    /// Decodes the contents of the file at `path`; the path becomes the
    /// image's identity. The first `4 * width * height` bytes of the decoded
    /// buffer are its pixels.
    pub fn from_file(path: &str, contents: &[u8]) -> (r: Result<Image, ImageLoadError>)
        ensures
            match rgba8_decoding(contents@) {
                Some((w, h, p)) => r matches Ok(img) && img.path@ == path@ && img.width == w
                    && img.height == h && img.pixels@ == p.take(4 * w * h) && img.is_rgba8(),
                None => r == Err::<Image, ImageLoadError>(ImageLoadError::Undecodable),
            },
    {
        match decode_rgba8(contents) {
            Ok((width, height, raw)) => {
                proof {
                    assert(4 * (width as int) * (height as int) <= 4 * 0xffff_ffff * 0xffff_ffff)
                        by (nonlinear_arith)
                        requires
                            width <= 0xffff_ffffu32,
                            height <= 0xffff_ffffu32,
                    ;
                }
                let total: u128 = 4 * (width as u128) * (height as u128);
                let raw_len: usize = raw.len();
                assert(total <= raw_len);
                let n: usize = total as usize;
                let mut pixels: Vec<u8> = Vec::with_capacity(n);
                let mut i: usize = 0;
                while i < n
                    invariant
                        n == 4 * width * height,
                        n <= raw@.len(),
                        i <= n,
                        pixels@ == raw@.take(i as int),
                    decreases n - i,
                {
                    pixels.push(raw[i]);
                    i = i + 1;
                    assert(pixels@ == raw@.take(i as int));
                }
                Ok(Image { path: path.to_owned(), width, height, pixels })
            },
            Err(_) => Err(ImageLoadError::Undecodable),
        }
    }

    /// A one-pixel image of the given RGBA bytes, known by `identity`.
    pub fn single_pixel(rgba: [u8; 4], identity: String) -> (r: Image)
        ensures
            r.path == identity,
            r.width == 1,
            r.height == 1,
            r.pixels@ == rgba@,
            r.is_rgba8(),
    {
        let mut pixels: Vec<u8> = Vec::with_capacity(4);
        pixels.push(rgba[0]);
        pixels.push(rgba[1]);
        pixels.push(rgba[2]);
        pixels.push(rgba[3]);
        assert(pixels@ =~= rgba@);
        Image { path: identity, width: 1, height: 1, pixels }
    }
}

} // verus!
