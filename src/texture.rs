use vstd::prelude::*;

verus! {

#[verifier::external_type_specification]
#[verifier::external_body]
pub struct ExImageError(image::ImageError);

/// What decoding `bytes` as an image gives, as width, height and 8-bit RGBA
/// pixels row by row; `None` where the bytes are no image that can be decoded.
pub uninterp spec fn decoded_rgba(bytes: Seq<u8>) -> Option<(u32, u32, Seq<u8>)>;

/// Relies on `image::load_from_memory` to decode the bytes (the format is
/// guessed from them), and on `DynamicImage::to_rgba8` with
/// `ImageBuffer::into_raw` to turn the result into RGBA pixels, four bytes
/// each, in a buffer allocated for exactly `width * height` pixels.
#[verifier::external_body]
fn decode_rgba(bytes: &[u8]) -> (r: Result<(u32, u32, Vec<u8>), image::ImageError>)
    ensures
        match r {
            Ok((w, h, px)) => decoded_rgba(bytes@) == Some((w, h, px@)) && px@.len() == 4 * w * h,
            Err(_) => decoded_rgba(bytes@) is None,
        },
{
    match image::load_from_memory(bytes) {
        Ok(img) => {
            let rgba = img.to_rgba8();
            Ok((rgba.width(), rgba.height(), rgba.into_raw()))
        },
        Err(e) => Err(e),
    }
}

/// Why a glyph atlas cannot be used as a texture.
#[derive(Clone, Copy, Debug, PartialEq, Eq, Structural)]
pub enum TextureError {
    /// The bytes are no image that can be decoded.
    Undecodable,
    /// The image has no pixels.
    Empty,
    /// A row of the image takes more bytes than an upload can describe.
    RowTooWide,
    /// The pixel data does not hold four bytes for each pixel.
    SizeMismatch,
}

/// An RGBA image ready for upload: width, height, and four bytes per pixel,
/// row by row.
pub struct TextureImage {
    width: u32,
    height: u32,
    rgba: Vec<u8>,
}

impl View for TextureImage {
    type V = (u32, u32, Seq<u8>);

    closed spec fn view(&self) -> (u32, u32, Seq<u8>) {
        (self.width, self.height, self.rgba@)
    }
}

/// What an image of `w` x `h` pixels with RGBA data `px` becomes.
pub open spec fn texture_outcome(w: u32, h: u32, px: Seq<u8>) -> Result<(u32, u32, Seq<u8>), TextureError> {
    if w == 0 || h == 0 {
        Err(TextureError::Empty)
    } else if 4 * w > u32::MAX {
        Err(TextureError::RowTooWide)
    } else if px.len() != 4 * w * h {
        Err(TextureError::SizeMismatch)
    } else {
        Ok((w, h, px))
    }
}

/// `r` is the texture or error that `outcome` describes.
pub open spec fn gives(r: Result<TextureImage, TextureError>, outcome: Result<(u32, u32, Seq<u8>), TextureError>) -> bool {
    match r {
        Ok(t) => outcome == Ok::<(u32, u32, Seq<u8>), TextureError>(t@),
        Err(e) => outcome == Err::<(u32, u32, Seq<u8>), TextureError>(e),
    }
}

/// How the pixels of a texture are laid out for upload.
#[derive(Clone, Copy, Debug, PartialEq, Eq, Structural)]
pub struct UploadLayout {
    pub width: u32,
    pub height: u32,
    pub bytes_per_row: u32,
    pub rows_per_image: u32,
}

impl TextureImage {
    #[verifier::type_invariant]
    closed spec fn inv(&self) -> bool {
        texture_outcome(self.width, self.height, self.rgba@) is Ok
    }

    /// The texture of an image of `width` x `height` pixels with RGBA data `rgba`.
    pub fn from_rgba(width: u32, height: u32, rgba: Vec<u8>) -> (r: Result<TextureImage, TextureError>)
        ensures
            gives(r, texture_outcome(width, height, rgba@)),
    {
        if width == 0 || height == 0 {
            return Err(TextureError::Empty);
        }
        if width > u32::MAX / 4 {
            return Err(TextureError::RowTooWide);
        }
        let row: u128 = 4 * (width as u128);
        assert(row * (height as u128) <= u32::MAX * u32::MAX) by (nonlinear_arith)
            requires
                row <= u32::MAX,
                height <= u32::MAX,
        ;
        let expected: u128 = row * (height as u128);
        if rgba.len() as u128 != expected {
            return Err(TextureError::SizeMismatch);
        }
        Ok(TextureImage { width, height, rgba })
    }

    /// The texture that the encoded image `bytes` holds.
    pub fn decode(bytes: &[u8]) -> (r: Result<TextureImage, TextureError>)
        ensures
            match decoded_rgba(bytes@) {
                None => r == Err::<TextureImage, TextureError>(TextureError::Undecodable),
                Some((w, h, px)) => gives(r, texture_outcome(w, h, px)),
            },
            decoded_rgba(bytes@) matches Some((w, h, px)) ==> px.len() == 4 * w * h,
    {
        match decode_rgba(bytes) {
            Ok((w, h, px)) => TextureImage::from_rgba(w, h, px),
            Err(_) => Err(TextureError::Undecodable),
        }
    }

    /// The width in pixels.
    pub fn width(&self) -> (w: u32)
        ensures
            w == self@.0,
    {
        self.width
    }

    /// The height in pixels.
    pub fn height(&self) -> (h: u32)
        ensures
            h == self@.1,
    {
        self.height
    }

    /// The RGBA data, four bytes per pixel, row by row.
    pub fn rgba(&self) -> (px: &Vec<u8>)
        ensures
            px@ == self@.2,
    {
        &self.rgba
    }

    /// The layout of the pixels for upload: one row of `4 * width` bytes for
    /// each of the `height` rows.
    pub fn upload_layout(&self) -> (l: UploadLayout)
        ensures
            l.width == self@.0,
            l.height == self@.1,
            l.bytes_per_row == 4 * self@.0,
            l.rows_per_image == self@.1,
    {
        proof {
            use_type_invariant(self);
        }
        UploadLayout {
            width: self.width,
            height: self.height,
            bytes_per_row: 4 * self.width,
            rows_per_image: self.height,
        }
    }
}

} // verus!
