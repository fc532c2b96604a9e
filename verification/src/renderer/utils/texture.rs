//! Pictures as rows of red, green, blue and opacity bytes, and how such a
//! picture is laid out when it is copied into a texture.

use vstd::prelude::*;

verus! {

/// A picture of `width` by `height` pixels, four bytes to the pixel, row
/// after row from the top.
pub struct RgbaImage {
    width: u32,
    height: u32,
    pixels: Vec<u8>,
}

/// What a picture is: its size and its bytes.
pub struct RgbaImageView {
    pub width: u32,
    pub height: u32,
    pub pixels: Seq<u8>,
}

impl View for RgbaImage {
    type V = RgbaImageView;

    closed spec fn view(&self) -> RgbaImageView {
        RgbaImageView { width: self.width, height: self.height, pixels: self.pixels@ }
    }
}

/// The picture that `bytes` encode, as `image::load_from_memory` decodes it
/// and `to_rgba8` converts it, or `None` where the decoder reports an error.
pub uninterp spec fn decoded_rgba(bytes: Seq<u8>) -> Option<RgbaImageView>;

/// Decodes `bytes` with `image::load_from_memory`, which guesses the format
/// from the first bytes, and converts the picture to four bytes to the pixel
/// with `DynamicImage::to_rgba8`.
///
/// Trusted: what comes back depends on the bytes alone, so it has a name;
/// and the buffer of a picture holds exactly four bytes for each of its
/// pixels, as the buffer's constructor makes it. The decoder refuses
/// pictures of more than 512 MiB, so the conversion cannot run out of
/// addressable memory.
#[verifier::external_body]
fn load_rgba(bytes: &[u8]) -> (decoded: Option<(u32, u32, Vec<u8>)>)
    ensures
        decoded_rgba(bytes@) == match decoded {
            Some((width, height, pixels)) => Some(
                RgbaImageView { width, height, pixels: pixels@ },
            ),
            None => None,
        },
        decoded matches Some((width, height, pixels)) ==> pixels@.len() == 4 * width * height,
{
    match image::load_from_memory(bytes) {
        Ok(picture) => {
            let rgba = picture.to_rgba8();
            Some((rgba.width(), rgba.height(), rgba.into_raw()))
        },
        Err(_) => None,
    }
}

impl RgbaImage {
    #[verifier::type_invariant]
    spec fn well_formed(&self) -> bool {
        self.pixels@.len() == 4 * self.width * self.height
    }

    /// The picture of `width` by `height` pixels that `pixels` holds, if
    /// `pixels` has four bytes for each pixel and not one more.
    pub fn from_raw(width: u32, height: u32, pixels: Vec<u8>) -> (image: Option<Self>)
        ensures
            image.is_some() <==> pixels@.len() == 4 * width * height,
            image matches Some(i) ==> i@ == (RgbaImageView { width, height, pixels: pixels@ }),
    {
        assert(width * height <= 0xffff_ffff * 0xffff_ffff) by (nonlinear_arith)
            requires
                0 <= width <= 0xffff_ffff,
                0 <= height <= 0xffff_ffff,
        ;
        assert(4 * width * height == 4 * (width * height)) by (nonlinear_arith);
        let area: u64 = (width as u64) * (height as u64);
        let len: usize = pixels.len();
        if len % 4 == 0 && (len / 4) as u64 == area {
            Some(Self { width, height, pixels })
        } else {
            None
        }
    }

    /// Decodes an encoded picture, such as the bytes of a PNG file.
    ///
    /// The result is the picture that `bytes` encode, or `None` where they
    /// encode none that the decoder takes.
    pub fn decode(bytes: &[u8]) -> (image: Option<Self>)
        ensures
            image.is_some() <==> decoded_rgba(bytes@).is_some(),
            image matches Some(i) ==> decoded_rgba(bytes@) == Some(i@),
    {
        match load_rgba(bytes) {
            Some((width, height, pixels)) => Some(Self { width, height, pixels }),
            None => None,
        }
    }

    pub fn width(&self) -> (width: u32)
        ensures
            width == self@.width,
    {
        self.width
    }

    pub fn height(&self) -> (height: u32)
        ensures
            height == self@.height,
    {
        self.height
    }

    /// The bytes of the picture: four for each of its pixels.
    pub fn pixels(&self) -> (pixels: &Vec<u8>)
        ensures
            pixels@ == self@.pixels,
            pixels@.len() == 4 * self@.width * self@.height,
    {
        proof {
            use_type_invariant(self);
        }
        &self.pixels
    }
}

/// How a picture is copied into a two-dimensional texture: the extent of
/// the copy, and where the rows lie in the picture's bytes.
#[derive(Debug, Clone, Copy, PartialEq, Eq)]
pub struct TextureUpload {
    pub width: u32,
    pub height: u32,
    pub depth_or_array_layers: u32,
    /// Where the first row starts in the bytes.
    pub offset: u64,
    pub bytes_per_row: u32,
    pub rows_per_image: u32,
}

/// The copy of a whole picture of `width` by `height` pixels into a texture
/// of the same size: one layer, rows of four bytes to the pixel that follow
/// each other from the first byte on.
pub open spec fn whole_upload(width: u32, height: u32) -> TextureUpload {
    TextureUpload {
        width,
        height,
        depth_or_array_layers: 1,
        offset: 0,
        bytes_per_row: (4 * width) as u32,
        rows_per_image: height,
    }
}

/// The copy of the whole of `image` into a texture of its size. A row has
/// to fit in 32 bits.
pub fn texture_upload(image: &RgbaImage) -> (upload: TextureUpload)
    requires
        4 * image@.width <= u32::MAX,
    ensures
        upload == whole_upload(image@.width, image@.height),
        upload.bytes_per_row * upload.rows_per_image == image@.pixels.len(),
{
    proof {
        use_type_invariant(image);
        assert(4 * image.width * image.height == (4 * image.width) * image.height)
            by (nonlinear_arith);
    }
    TextureUpload {
        width: image.width,
        height: image.height,
        depth_or_array_layers: 1,
        offset: 0,
        bytes_per_row: 4 * image.width,
        rows_per_image: image.height,
    }
}

} // verus!
