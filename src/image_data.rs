//! Two-dimensional texture data held in buffers of the `image` crate.
//!
//! An RGBA image stores its rows top row first, four `u8` channels per pixel;
//! its flat sequence holds the channels, so a row of `width` pixels is
//! `4 * width` elements long. Images of other pixel types (grey, RGB, 16-bit)
//! go through `DynamicImage`, which converts them to RGBA with `u8` channels.

use crate::format::ClientFormat;
use crate::row_order::{
    chunk_rows, flatten_rows, flip_rows, lemma_chunk_flatten, lemma_chunk_rows_width,
    lemma_flatten_chunk, lemma_rows_round_trip, unflatten_rows, RowOrder,
};
use crate::texture::{rows_in, Texture2dData, TextureDataError};
use vstd::prelude::*;

verus! {

/// An RGBA image of the `image` crate, one `u8` per channel.
#[verifier::external_body]
pub struct RgbaImageData {
    image: image::RgbaImage,
}

/// The channel samples an RGBA image holds, as `ImageBuffer::into_raw` hands them out.
pub uninterp spec fn rgba_samples(img: RgbaImageData) -> Seq<u8>;

/// The (width, height) of an RGBA image, as `ImageBuffer::dimensions` gives it.
pub uninterp spec fn rgba_dims(img: RgbaImageData) -> (u32, u32);

impl RgbaImageData {
    /// Builds an image of `width` by `height` pixels on `buf`, top row first.
    ///
    /// Relies on `ImageBuffer::from_raw`: it takes the buffer as it is when it holds
    /// at least `4 * width * height` samples, and returns `None` otherwise.
    #[verifier::external_body]
    pub fn from_raw(width: u32, height: u32, buf: Vec<u8>) -> (r: Option<RgbaImageData>)
        ensures
            r is Some <==> 4 * width * height <= buf@.len(),
            r is Some ==> rgba_samples(r->Some_0) == buf@ && rgba_dims(r->Some_0) == (
                width,
                height,
            ),
    {
        image::ImageBuffer::from_raw(width, height, buf).map(|image| RgbaImageData { image })
    }

    /// Returns the sample buffer.
    ///
    /// Relies on `ImageBuffer::into_raw`: it returns the sample buffer.
    #[verifier::external_body]
    pub fn into_raw(self) -> (r: Vec<u8>)
        ensures
            r@ == rgba_samples(self),
    {
        self.image.into_raw()
    }

    /// Returns (width, height).
    ///
    /// Relies on `ImageBuffer::dimensions`: (width, height), whose samples the
    /// buffer always holds.
    #[verifier::external_body]
    pub fn dimensions(&self) -> (r: (u32, u32))
        ensures
            r == rgba_dims(*self),
            4 * r.0 * r.1 <= rgba_samples(*self).len(),
    {
        self.image.dimensions()
    }
}

/// The samples of the image's `height` rows, without what the buffer holds beyond them.
pub open spec fn rgba_pixels(img: RgbaImageData) -> Seq<u8> {
    rgba_samples(img).take(4 * rgba_dims(img).0 * rgba_dims(img).1)
}

impl Texture2dData for RgbaImageData {
    type Data = u8;

    open spec fn format_spec() -> ClientFormat {
        ClientFormat::U8U8U8U8
    }

    open spec fn rows(&self) -> Seq<Seq<u8>> {
        chunk_rows(rgba_pixels(*self), 4 * (rgba_dims(*self).0 as nat))
    }

    open spec fn width_spec(&self) -> nat {
        rgba_dims(*self).0 as nat
    }

    open spec fn height_spec(&self) -> nat {
        rgba_dims(*self).1 as nat
    }

    open spec fn row_len(width: nat) -> nat {
        4 * width
    }

    open spec fn can_hold(len: nat, width: nat) -> bool {
        width == 0 || len / (4 * width) <= u32::MAX
    }

    fn get_format(_hint: Option<RgbaImageData>) -> (r: ClientFormat) {
        ClientFormat::U8U8U8U8
    }

    fn get_dimensions(&self) -> (r: (u32, u32))
        ensures
            4 * r.0 * r.1 <= rgba_samples(*self).len(),
    {
        self.dimensions()
    }

    fn into_vec(self, order: RowOrder) -> (r: Vec<u8>) {
        let (width, height) = self.dimensions();
        let ghost img = self;
        let raw = self.into_raw();
        let raw_len = raw.len();
        if height == 0 || width == 0 {
            proof {
                assert(4 * width * height == 0) by (nonlinear_arith)
                    requires
                        height == 0 || width == 0,
                ;
                assert(rgba_pixels(img) =~= Seq::<u8>::empty());
                assert(Seq::<Seq<u8>>::empty().reverse() =~= Seq::<Seq<u8>>::empty());
                assert(img.rows() =~= Seq::<Seq<u8>>::empty());
            }
            return Vec::new();
        }
        proof {
            assert(4 * width <= 4 * width * height) by (nonlinear_arith)
                requires
                    height >= 1,
            ;
            assert(raw_len == raw@.len());
        }
        let row_len: usize = 4 * width as usize;
        proof {
            assert(row_len * height <= raw@.len()) by (nonlinear_arith)
                requires
                    row_len == 4 * width,
                    4 * width * height <= raw@.len(),
            ;
        }
        let len: usize = row_len * height as usize;
        let pixels = crate::texture::copy_range(raw.as_slice(), 0, len);
        proof {
            assert(pixels@ =~= rgba_pixels(img));
            vstd::arithmetic::div_mod::lemma_mod_multiples_basic(height as int, row_len as int);
            assert(height * row_len == row_len * height) by (nonlinear_arith);
        }
        match order {
            RowOrder::TopFirst => flip_rows(pixels.as_slice(), row_len),
            RowOrder::BottomFirst => {
                proof {
                    lemma_flatten_chunk(pixels@, row_len as nat);
                }
                pixels
            },
        }
    }

    fn from_vec(data: Vec<u8>, width: u32, order: RowOrder) -> (r: Result<
        RgbaImageData,
        TextureDataError,
    >)
        ensures
            r is Ok ==> rgba_dims(r->Ok_0) == (
                width,
                rows_in(data@.len(), 4 * (width as nat)) as u32,
            ),
            r is Ok ==> rgba_samples(r->Ok_0) == flatten_rows(
                unflatten_rows(data@, 4 * (width as nat), order),
                RowOrder::BottomFirst,
            ),
    {
        let ghost input = data@;
        let ghost w4 = 4 * (width as nat);
        let height: u32;
        let laid: Vec<u8>;
        if data.len() == 0 {
            height = 0;
            laid = data;
            proof {
                assert(chunk_rows(input, w4) =~= Seq::<Seq<u8>>::empty());
                assert(Seq::<Seq<u8>>::empty().reverse() =~= Seq::<Seq<u8>>::empty());
                assert(unflatten_rows(input, w4, order) == Seq::<Seq<u8>>::empty());
                assert(Seq::<Seq<u8>>::empty().flatten() =~= laid@);
                if w4 > 0 {
                    vstd::arithmetic::div_mod::lemma_div_of0(w4 as int);
                }
                assert(4 * width * height == 0) by (nonlinear_arith)
                    requires
                        height == 0,
                ;
            }
        } else {
            let row_len: usize = match (width as usize).checked_mul(4) {
                Some(n) => n,
                None => {
                    proof {
                        assert(input.len() % w4 == input.len()) by {
                            vstd::arithmetic::div_mod::lemma_small_mod(
                                input.len() as nat,
                                w4,
                            );
                        }
                    }
                    return Err(TextureDataError::DimensionMismatch);
                },
            };
            if row_len == 0 || data.len() % row_len != 0 || data.len() / row_len > u32::MAX as usize {
                return Err(TextureDataError::DimensionMismatch);
            }
            height = (data.len() / row_len) as u32;
            proof {
                vstd::arithmetic::div_mod::lemma_fundamental_div_mod(
                    input.len() as int,
                    row_len as int,
                );
                lemma_chunk_rows_width(input, row_len as nat);
                lemma_chunk_flatten(chunk_rows(input, row_len as nat).reverse(), row_len as nat);
                lemma_flatten_chunk(input, row_len as nat);
                assert(4 * width * height == input.len()) by (nonlinear_arith)
                    requires
                        row_len == 4 * width,
                        input.len() == row_len * height,
                ;
            }
            laid = match order {
                RowOrder::TopFirst => flip_rows(data.as_slice(), row_len),
                RowOrder::BottomFirst => data,
            };
            proof {
                assert(laid@.len() == input.len()) by {
                    if order == RowOrder::TopFirst {
                        assert(chunk_rows(input, row_len as nat).len() * row_len == input.len())
                            by (nonlinear_arith)
                            requires
                                chunk_rows(input, row_len as nat).len() == height,
                                input.len() == row_len * height,
                        ;
                        crate::row_order::lemma_flatten_rows_len(
                            chunk_rows(input, row_len as nat),
                            row_len as nat,
                            order,
                        );
                    }
                }
                assert(chunk_rows(laid@, w4) == unflatten_rows(input, w4, order));
                assert(laid@ == flatten_rows(unflatten_rows(input, w4, order), RowOrder::BottomFirst));
                assert(height * w4 == input.len()) by (nonlinear_arith)
                    requires
                        w4 == 4 * width,
                        4 * width * height == input.len(),
                ;
            }
        }
        match RgbaImageData::from_raw(width, height, laid) {
            Some(img) => {
                proof {
                    assert(rgba_pixels(img) =~= laid@);
                }
                Ok(img)
            },
            None => Err(TextureDataError::DimensionMismatch),
        }
    }
}

/// Flattening an RGBA image of nonzero width and rebuilding it with its width
/// and the same row order gives back an image of the same dimensions whose
/// buffer holds exactly the original's pixel samples.
pub proof fn lemma_rgba_round_trip(
    img: RgbaImageData,
    order: RowOrder,
    flat: Vec<u8>,
    back: Result<RgbaImageData, TextureDataError>,
)
    requires
        rgba_dims(img).0 > 0,
        4 * rgba_dims(img).0 * rgba_dims(img).1 <= rgba_samples(img).len(),
        call_ensures(RgbaImageData::into_vec, (img, order), flat),
        call_ensures(
            <RgbaImageData as Texture2dData>::from_vec,
            (flat, rgba_dims(img).0, order),
            back,
        ),
    ensures
        back is Ok,
        rgba_dims(back->Ok_0) == rgba_dims(img),
        rgba_samples(back->Ok_0) == rgba_pixels(img),
{
    let (w, h) = rgba_dims(img);
    let w4 = 4 * (w as nat);
    let pixels = rgba_pixels(img);
    assert(pixels.len() == w4 * h) by (nonlinear_arith)
        requires
            pixels.len() == 4 * w * h,
            w4 == 4 * w,
    ;
    vstd::arithmetic::div_mod::lemma_mod_multiples_basic(h as int, w4 as int);
    assert(h * w4 == w4 * h) by (nonlinear_arith);
    vstd::arithmetic::div_mod::lemma_div_multiples_vanish(h as int, w4 as int);
    lemma_chunk_rows_width(pixels, w4);
    lemma_flatten_chunk(pixels, w4);
    let rows = chunk_rows(pixels, w4);
    lemma_rows_round_trip(rows, w4, order);
    crate::row_order::lemma_flatten_rows_len(rows, w4, order);
    assert(flat@.len() == w4 * h);
}

#[verifier::external_type_specification]
#[verifier::external_body]
pub struct ExDynamicImage(image::DynamicImage);

/// The RGBA image that `DynamicImage::to_rgba8` makes of an image.
pub uninterp spec fn rgba8_of(img: image::DynamicImage) -> RgbaImageData;

/// Relies on `DynamicImage::to_rgba8`: the image converted to four `u8` channels.
#[verifier::external_body]
fn dynamic_to_rgba8(img: &image::DynamicImage) -> (r: RgbaImageData)
    ensures
        r == rgba8_of(*img),
{
    RgbaImageData { image: img.to_rgba8() }
}

/// Relies on `DynamicImage::width` and `DynamicImage::height`: the dimensions of
/// the image, which `to_rgba8` keeps, and whose samples its result holds.
#[verifier::external_body]
fn dynamic_dimensions(img: &image::DynamicImage) -> (r: (u32, u32))
    ensures
        r == rgba_dims(rgba8_of(*img)),
        4 * r.0 * r.1 <= rgba_samples(rgba8_of(*img)).len(),
{
    (img.width(), img.height())
}

/// Relies on `DynamicImage::ImageRgba8` and `DynamicImage::to_rgba8`, which
/// hands back a clone of the RGBA image that the variant holds.
#[verifier::external_body]
fn dynamic_from_rgba8(img: RgbaImageData) -> (r: image::DynamicImage)
    ensures
        rgba_samples(rgba8_of(r)) == rgba_samples(img),
        rgba_dims(rgba8_of(r)) == rgba_dims(img),
{
    image::DynamicImage::ImageRgba8(img.image)
}

impl Texture2dData for image::DynamicImage {
    type Data = u8;

    open spec fn format_spec() -> ClientFormat {
        ClientFormat::U8U8U8U8
    }

    open spec fn rows(&self) -> Seq<Seq<u8>> {
        rgba8_of(*self).rows()
    }

    open spec fn width_spec(&self) -> nat {
        rgba_dims(rgba8_of(*self)).0 as nat
    }

    open spec fn height_spec(&self) -> nat {
        rgba_dims(rgba8_of(*self)).1 as nat
    }

    open spec fn row_len(width: nat) -> nat {
        4 * width
    }

    open spec fn can_hold(len: nat, width: nat) -> bool {
        width == 0 || len / (4 * width) <= u32::MAX
    }

    fn get_format(_hint: Option<image::DynamicImage>) -> (r: ClientFormat) {
        ClientFormat::U8U8U8U8
    }

    fn get_dimensions(&self) -> (r: (u32, u32))
        ensures
            4 * r.0 * r.1 <= rgba_samples(rgba8_of(*self)).len(),
    {
        dynamic_dimensions(self)
    }

    fn into_vec(self, order: RowOrder) -> (r: Vec<u8>) {
        dynamic_to_rgba8(&self).into_vec(order)
    }

    fn from_vec(data: Vec<u8>, width: u32, order: RowOrder) -> (r: Result<
        image::DynamicImage,
        TextureDataError,
    >)
        ensures
            r is Ok ==> rgba_dims(rgba8_of(r->Ok_0)) == (
                width,
                rows_in(data@.len(), 4 * (width as nat)) as u32,
            ),
            r is Ok ==> rgba_samples(rgba8_of(r->Ok_0)) == flatten_rows(
                unflatten_rows(data@, 4 * (width as nat), order),
                RowOrder::BottomFirst,
            ),
    {
        match RgbaImageData::from_vec(data, width, order) {
            Ok(img) => {
                let r = dynamic_from_rgba8(img);
                proof {
                    assert(rgba_pixels(rgba8_of(r)) == rgba_pixels(img));
                }
                Ok(r)
            },
            Err(e) => Err(e),
        }
    }
}

} // verus!
