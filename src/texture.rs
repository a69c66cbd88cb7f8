//! Data contracts of one-, two- and three-dimensional textures: the pixel
//! format of a structured buffer, its dimensions, and its conversion to and
//! from the flat sequence that texture memory holds.

use crate::format::ClientFormat;
use crate::pixel::PixelValue;
use crate::row_order::{
    chunk_rows, flatten_rows, lemma_flatten_rows_len, lemma_rows_order_mismatch,
    lemma_rows_round_trip, rows_have_width, unflatten_rows, RowOrder,
};
use vstd::arithmetic::div_mod::lemma_mod_multiples_basic;
use vstd::prelude::*;

verus! {

/// Why a structured buffer could not be rebuilt from a flat sequence.
#[derive(Clone, Copy, Debug, PartialEq, Eq, Structural)]
pub enum TextureDataError {
    /// The number of elements is not a whole number of rows of the given width,
    /// or is more rows than the buffer type can hold.
    DimensionMismatch,
    /// The buffer type borrows its elements and cannot own new ones.
    UnsupportedReconstruction,
    /// Rebuilding this kind of buffer is not available.
    NotImplemented,
}

/// A texture: a sized image in texture memory.
pub trait Texture {
    /// Returns the width in pixels of the texture.
    fn get_width(&self) -> u32;

    /// Returns the height in pixels of the texture, or `None` for one dimension textures.
    fn get_height(&self) -> Option<u32>;

    /// Returns the depth in pixels of the texture, or `None` for one or two dimension textures.
    fn get_depth(&self) -> Option<u32>;

    /// Returns the number of textures in the array, or `None` for non-arrays.
    fn get_array_size(&self) -> Option<u32>;
}

/// Rows of vectors seen as rows of elements.
pub open spec fn rows_view<P>(rows: Seq<Vec<P>>) -> Seq<Seq<P>> {
    rows.map_values(|r: Vec<P>| r@)
}

/// Slices of rows of vectors seen as slices of rows of elements.
pub open spec fn slices_view<P>(slices: Seq<Vec<Vec<P>>>) -> Seq<Seq<Seq<P>>> {
    slices.map_values(|s: Vec<Vec<P>>| rows_view(s@))
}

/// Slices laid out one after the other, each in texture memory row order.
pub open spec fn flatten_slices<P>(slices: Seq<Seq<Seq<P>>>, order: RowOrder) -> Seq<P> {
    slices.map_values(|s: Seq<Seq<P>>| flatten_rows(s, order)).flatten()
}

/// Whether `len` elements split into whole rows of `row_len` elements
/// (only the empty sequence does when rows are empty).
pub open spec fn splits_into_rows(len: nat, row_len: nat) -> bool {
    if row_len == 0 {
        len == 0
    } else {
        len % row_len == 0
    }
}

/// The number of whole rows of `row_len` elements in `len` elements (none when rows are empty).
pub open spec fn rows_in(len: nat, row_len: nat) -> nat {
    if row_len == 0 {
        0
    } else {
        len / row_len
    }
}

/// Copies `len` elements of `data` from `start` on.
pub(crate) fn copy_range<P: Copy>(data: &[P], start: usize, len: usize) -> (r: Vec<P>)
    requires
        start + len <= data@.len(),
    ensures
        r@ == data@.subrange(start as int, start + len),
{
    let mut r: Vec<P> = Vec::new();
    let mut j: usize = 0;
    while j < len
        invariant
            start + len <= data@.len(),
            data@.len() == data.len(),
            j <= len,
            r@ == data@.subrange(start as int, start + j),
        decreases len - j,
    {
        r.push(data[start + j]);
        proof {
            assert(data@.subrange(start as int, start + j + 1) =~= data@.subrange(
                start as int,
                start + j,
            ).push(data@[start + j]));
        }
        j = j + 1;
    }
    r
}

/// Appends the elements of `rows` to `out`, in texture memory row order.
fn append_rows<P: Copy>(out: &mut Vec<P>, rows: &Vec<Vec<P>>, order: RowOrder)
    ensures
        final(out)@ == old(out)@ + flatten_rows(rows_view(rows@), order),
{
    let ghost view = rows_view(rows@);
    let ghost oriented = match order {
        RowOrder::TopFirst => view.reverse(),
        RowOrder::BottomFirst => view,
    };
    let n = rows.len();
    let mut i: usize = 0;
    while i < n
        invariant
            n == rows@.len(),
            view == rows_view(rows@),
            oriented == (match order {
                RowOrder::TopFirst => view.reverse(),
                RowOrder::BottomFirst => view,
            }),
            i <= n,
            out@ == old(out)@ + oriented.take(i as int).flatten(),
        decreases n - i,
    {
        let src: usize = match order {
            RowOrder::TopFirst => n - 1 - i,
            RowOrder::BottomFirst => i,
        };
        let row = &rows[src];
        let ghost before = out@;
        let m = row.len();
        let mut j: usize = 0;
        while j < m
            invariant
                m == row@.len(),
                j <= m,
                out@ == before + row@.take(j as int),
            decreases m - j,
        {
            out.push(row[j]);
            proof {
                assert(row@.take(j + 1) =~= row@.take(j as int).push(row@[j as int]));
            }
            j = j + 1;
        }
        proof {
            assert(row@.take(m as int) =~= row@);
            assert(oriented[i as int] == row@);
            assert(oriented.take(i + 1) =~= oriented.take(i as int).push(oriented[i as int]));
            oriented.take(i as int).lemma_flatten_push(oriented[i as int]);
        }
        i = i + 1;
    }
    proof {
        assert(oriented.take(n as int) =~= oriented);
    }
}

/// Data for a one-dimensional texture.
pub trait Texture1dData: Sized {
    /// The type of one pixel.
    type Data: Copy + Send;

    /// The client format of the pixels.
    spec fn format_spec() -> ClientFormat;

    /// The pixels, in order.
    spec fn elements(&self) -> Seq<Self::Data>;

    /// Whether a value of this type owns its pixels, and so can be rebuilt from a sequence.
    spec fn owns_storage() -> bool;

    /// Returns the format of the pixels; the argument only names the type.
    fn get_format(_hint: Option<Self>) -> (r: ClientFormat)
        ensures
            r == Self::format_spec(),
    ;

    /// Returns a vec where each element is a pixel of the texture.
    fn into_vec(self) -> (r: Vec<Self::Data>)
        ensures
            r@ == self.elements(),
    ;

    /// Builds a new object from raw data.
    fn from_vec(data: Vec<Self::Data>) -> (r: Result<Self, TextureDataError>)
        ensures
            Self::owns_storage() ==> r is Ok && r->Ok_0.elements() == data@,
            !Self::owns_storage() ==> r == Err::<Self, TextureDataError>(
                TextureDataError::UnsupportedReconstruction,
            ),
    ;
}

impl<P: PixelValue + Copy> Texture1dData for Vec<P> {
    type Data = P;

    open spec fn format_spec() -> ClientFormat {
        P::client_format()
    }

    open spec fn elements(&self) -> Seq<P> {
        self@
    }

    open spec fn owns_storage() -> bool {
        true
    }

    fn get_format(_hint: Option<Vec<P>>) -> (r: ClientFormat) {
        P::get_format(None)
    }

    fn into_vec(self) -> (r: Vec<P>) {
        self
    }

    fn from_vec(data: Vec<P>) -> (r: Result<Vec<P>, TextureDataError>) {
        Ok(data)
    }
}

impl<'a, P: PixelValue + Copy> Texture1dData for &'a [P] {
    type Data = P;

    open spec fn format_spec() -> ClientFormat {
        P::client_format()
    }

    open spec fn elements(&self) -> Seq<P> {
        self@
    }

    open spec fn owns_storage() -> bool {
        false
    }

    fn get_format(_hint: Option<&'a [P]>) -> (r: ClientFormat) {
        P::get_format(None)
    }

    fn into_vec(self) -> (r: Vec<P>) {
        copy_range(self, 0, self.len())
    }

    fn from_vec(data: Vec<P>) -> (r: Result<&'a [P], TextureDataError>) {
        Err(TextureDataError::UnsupportedReconstruction)
    }
}

/// Data for a two-dimensional texture.
///
/// The stored rows of a buffer are scanlines of `row_len(width)` elements each.
/// Flattening lays them out bottom row first, as texture memory holds them:
/// with `RowOrder::TopFirst` the stored rows are reversed on the way, with
/// `RowOrder::BottomFirst` they are kept.
pub trait Texture2dData: Sized {
    /// The type of one element of the flat sequence.
    type Data: Copy + Send;

    /// The client format of the pixels.
    spec fn format_spec() -> ClientFormat;

    /// The stored rows, first stored row first.
    spec fn rows(&self) -> Seq<Seq<Self::Data>>;

    /// The width in pixels.
    spec fn width_spec(&self) -> nat;

    /// The height in pixels.
    spec fn height_spec(&self) -> nat;

    /// The number of elements of a row of `width` pixels.
    spec fn row_len(width: nat) -> nat;

    /// Whether a buffer of this type can hold `len` elements in rows of `width` pixels.
    spec fn can_hold(len: nat, width: nat) -> bool;

    /// Returns the format of the pixels; the argument only names the type.
    fn get_format(_hint: Option<Self>) -> (r: ClientFormat)
        ensures
            r == Self::format_spec(),
    ;

    /// Returns the dimensions of the texture, as (width, height).
    fn get_dimensions(&self) -> (r: (u32, u32))
        requires
            self.width_spec() <= u32::MAX,
            self.height_spec() <= u32::MAX,
        ensures
            r.0 == self.width_spec(),
            r.1 == self.height_spec(),
    ;

    /// Returns a vec with the pixels of the texture, bottom row first.
    fn into_vec(self, order: RowOrder) -> (r: Vec<Self::Data>)
        ensures
            r@ == flatten_rows(self.rows(), order),
    ;

    /// Builds a new object from the pixels of a texture, bottom row first,
    /// in rows of `width` pixels.
    fn from_vec(data: Vec<Self::Data>, width: u32, order: RowOrder) -> (r: Result<
        Self,
        TextureDataError,
    >)
        ensures
            r is Ok <==> splits_into_rows(data@.len(), Self::row_len(width as nat))
                && Self::can_hold(data@.len(), width as nat),
            r is Ok ==> r->Ok_0.rows() == unflatten_rows(data@, Self::row_len(width as nat), order),
            r is Ok ==> r->Ok_0.height_spec() * Self::row_len(width as nat) == data@.len(),
            r is Ok && data@.len() > 0 ==> r->Ok_0.width_spec() == width,
            r is Err ==> r->Err_0 == TextureDataError::DimensionMismatch,
    ;
}

impl<P: PixelValue + Copy> Texture2dData for Vec<Vec<P>> {
    type Data = P;

    open spec fn format_spec() -> ClientFormat {
        P::client_format()
    }

    open spec fn rows(&self) -> Seq<Seq<P>> {
        rows_view(self@)
    }

    open spec fn width_spec(&self) -> nat {
        if self@.len() == 0 {
            0
        } else {
            self@[0]@.len()
        }
    }

    open spec fn height_spec(&self) -> nat {
        self@.len()
    }

    open spec fn row_len(width: nat) -> nat {
        width
    }

    open spec fn can_hold(len: nat, width: nat) -> bool {
        true
    }

    fn get_format(_hint: Option<Vec<Vec<P>>>) -> (r: ClientFormat) {
        P::get_format(None)
    }

    fn get_dimensions(&self) -> (r: (u32, u32)) {
        let width: usize = if self.len() == 0 {
            0
        } else {
            self[0].len()
        };
        (width as u32, self.len() as u32)
    }

    fn into_vec(self, order: RowOrder) -> (r: Vec<P>) {
        let mut r: Vec<P> = Vec::new();
        append_rows(&mut r, &self, order);
        proof {
            assert(r@ =~= flatten_rows(rows_view(self@), order));
        }
        r
    }

    fn from_vec(data: Vec<P>, width: u32, order: RowOrder) -> (r: Result<
        Vec<Vec<P>>,
        TextureDataError,
    >) {
        let w = width as usize;
        if w == 0 {
            if data.len() == 0 {
                let r: Vec<Vec<P>> = Vec::new();
                proof {
                    assert(rows_view(r@) =~= unflatten_rows(data@, 0, order));
                }
                return Ok(r);
            } else {
                return Err(TextureDataError::DimensionMismatch);
            }
        }
        if data.len() % w != 0 {
            return Err(TextureDataError::DimensionMismatch);
        }
        let n = data.len() / w;
        let ghost target = unflatten_rows(data@, w as nat, order);
        let ghost chunks = chunk_rows(data@, w as nat);
        proof {
            crate::row_order::lemma_chunk_rows_width(data@, w as nat);
        }
        let mut rows: Vec<Vec<P>> = Vec::new();
        let mut i: usize = 0;
        while i < n
            invariant
                w == width,
                w > 0,
                n == data@.len() / (w as nat),
                n * w <= data@.len(),
                chunks == chunk_rows(data@, w as nat),
                chunks.len() == n,
                data@.len() == data.len(),
                target == unflatten_rows(data@, w as nat, order),
                i <= n,
                rows_view(rows@) == target.take(i as int),
            decreases n - i,
        {
            let src: usize = match order {
                RowOrder::TopFirst => n - 1 - i,
                RowOrder::BottomFirst => i,
            };
            proof {
                assert(src * w + w <= n * w) by (nonlinear_arith)
                    requires
                        src < n,
                ;
            }
            let row = copy_range(data.as_slice(), src * w, w);
            let ghost before = rows@;
            rows.push(row);
            proof {
                assert(chunks[src as int] == data@.subrange(src * w, src * w + w));
                assert(target[i as int] == chunks[src as int]);
                assert(rows@ == before.push(row));
                assert(rows_view(rows@) =~= rows_view(before).push(row@));
                assert(target.take(i + 1) =~= target.take(i as int).push(target[i as int]));
            }
            i = i + 1;
        }
        proof {
            assert(target.take(n as int) =~= target);
            let len = data@.len() as int;
            vstd::arithmetic::div_mod::lemma_fundamental_div_mod(len, w as int);
            assert(n * w == len) by (nonlinear_arith)
                requires
                    len == w * n + len % (w as int),
                    len % (w as int) == 0,
            ;
            if n > 0 {
                crate::row_order::lemma_reverse_width(chunks, w as nat);
                assert(rows@[0]@ == target[0]);
            }
        }
        Ok(rows)
    }
}

/// Data for a three-dimensional texture.
///
/// A buffer is a sequence of depth slices, each a sequence of stored rows.
/// Flattening lays the slices out one after the other, each as a
/// two-dimensional buffer is laid out.
pub trait Texture3dData: Sized {
    /// The type of one element of the flat sequence.
    type Data: Copy + Send;

    /// The client format of the pixels.
    spec fn format_spec() -> ClientFormat;

    /// The depth slices, each as its stored rows.
    spec fn slices(&self) -> Seq<Seq<Seq<Self::Data>>>;

    /// The width in pixels.
    spec fn width_spec(&self) -> nat;

    /// The height in pixels.
    spec fn height_spec(&self) -> nat;

    /// The depth in pixels.
    spec fn depth_spec(&self) -> nat;

    /// Returns the format of the pixels; the argument only names the type.
    fn get_format(_hint: Option<Self>) -> (r: ClientFormat)
        ensures
            r == Self::format_spec(),
    ;

    /// Returns the dimensions of the texture, as (width, height, depth).
    fn get_dimensions(&self) -> (r: (u32, u32, u32))
        requires
            self.width_spec() <= u32::MAX,
            self.height_spec() <= u32::MAX,
            self.depth_spec() <= u32::MAX,
        ensures
            r.0 == self.width_spec(),
            r.1 == self.height_spec(),
            r.2 == self.depth_spec(),
    ;

    /// Returns a vec with the pixels of the texture, first slice first and
    /// bottom row first in each slice.
    fn into_vec(self, order: RowOrder) -> (r: Vec<Self::Data>)
        ensures
            r@ == flatten_slices(self.slices(), order),
    ;

    /// Rebuilding a three-dimensional buffer is not available: this always
    /// fails with `NotImplemented`.
    fn from_vec(data: Vec<Self::Data>, width: u32, height: u32, order: RowOrder) -> (r: Result<
        Self,
        TextureDataError,
    >)
        ensures
            r == Err::<Self, TextureDataError>(TextureDataError::NotImplemented),
    ;
}

impl<P: PixelValue + Copy> Texture3dData for Vec<Vec<Vec<P>>> {
    type Data = P;

    open spec fn format_spec() -> ClientFormat {
        P::client_format()
    }

    open spec fn slices(&self) -> Seq<Seq<Seq<P>>> {
        slices_view(self@)
    }

    open spec fn width_spec(&self) -> nat {
        if self@.len() == 0 || self@[0]@.len() == 0 {
            0
        } else {
            self@[0]@[0]@.len()
        }
    }

    open spec fn height_spec(&self) -> nat {
        if self@.len() == 0 {
            0
        } else {
            self@[0]@.len()
        }
    }

    open spec fn depth_spec(&self) -> nat {
        self@.len()
    }

    fn get_format(_hint: Option<Vec<Vec<Vec<P>>>>) -> (r: ClientFormat) {
        P::get_format(None)
    }

    fn get_dimensions(&self) -> (r: (u32, u32, u32)) {
        let width: usize = if self.len() == 0 || self[0].len() == 0 {
            0
        } else {
            self[0][0].len()
        };
        let height: usize = if self.len() == 0 {
            0
        } else {
            self[0].len()
        };
        (width as u32, height as u32, self.len() as u32)
    }

    fn into_vec(self, order: RowOrder) -> (r: Vec<P>) {
        let ghost laid = slices_view(self@).map_values(
            |s: Seq<Seq<P>>| flatten_rows(s, order),
        );
        let mut r: Vec<P> = Vec::new();
        let n = self.len();
        let mut k: usize = 0;
        while k < n
            invariant
                n == self@.len(),
                laid == slices_view(self@).map_values(|s: Seq<Seq<P>>| flatten_rows(s, order)),
                k <= n,
                r@ == laid.take(k as int).flatten(),
            decreases n - k,
        {
            append_rows(&mut r, &self[k], order);
            proof {
                assert(laid[k as int] == flatten_rows(rows_view(self@[k as int]@), order));
                assert(laid.take(k + 1) =~= laid.take(k as int).push(laid[k as int]));
                laid.take(k as int).lemma_flatten_push(laid[k as int]);
            }
            k = k + 1;
        }
        proof {
            assert(laid.take(n as int) =~= laid);
        }
        r
    }

    fn from_vec(data: Vec<P>, width: u32, height: u32, order: RowOrder) -> (r: Result<
        Vec<Vec<Vec<P>>>,
        TextureDataError,
    >) {
        Err(TextureDataError::NotImplemented)
    }
}

/// Every call of `get_format` for one two-dimensional buffer type returns the same format.
pub proof fn lemma_2d_format_deterministic<B: Texture2dData>(
    hint_a: Option<B>,
    hint_b: Option<B>,
    a: ClientFormat,
    b: ClientFormat,
)
    requires
        call_ensures(B::get_format, (hint_a,), a),
        call_ensures(B::get_format, (hint_b,), b),
    ensures
        a == b,
{
}

/// Flattening an owning one-dimensional buffer and rebuilding it from the
/// result gives back its pixels, in the same order.
pub proof fn lemma_1d_round_trip<B: Texture1dData>(
    b: B,
    flat: Vec<B::Data>,
    back: Result<B, TextureDataError>,
)
    requires
        B::owns_storage(),
        call_ensures(B::into_vec, (b,), flat),
        call_ensures(B::from_vec, (flat,), back),
    ensures
        back is Ok,
        back->Ok_0.elements() == b.elements(),
{
}

/// Rows that a buffer of type `C` can be rebuilt into with `width` pixels per
/// row: each holds `C::row_len(width)` elements, and `C` can hold that many rows.
pub open spec fn rebuildable_as<C: Texture2dData>(rows: Seq<Seq<C::Data>>, width: u32) -> bool {
    &&& rows_have_width(rows, C::row_len(width as nat))
    &&& (C::row_len(width as nat) > 0 || rows.len() == 0)
    &&& C::can_hold(rows.len() * C::row_len(width as nat), width as nat)
}

/// A two-dimensional buffer whose stored rows all hold `row_len(width)`
/// elements, flattened and rebuilt with `width` pixels per row.
pub open spec fn rectangular_2d<B: Texture2dData>(b: B, width: u32) -> bool {
    rebuildable_as::<B>(b.rows(), width)
}

proof fn lemma_flat_splits<C: Texture2dData>(rows: Seq<Seq<C::Data>>, width: u32, order: RowOrder)
    requires
        rebuildable_as::<C>(rows, width),
    ensures
        splits_into_rows(flatten_rows(rows, order).len(), C::row_len(width as nat)),
        flatten_rows(rows, order).len() == rows.len() * C::row_len(width as nat),
{
    let w = C::row_len(width as nat);
    lemma_flatten_rows_len(rows, w, order);
    if w > 0 {
        lemma_mod_multiples_basic(rows.len() as int, w as int);
    } else {
        assert(rows.len() * w == 0) by (nonlinear_arith)
            requires
                rows.len() == 0,
        ;
    }
}

/// Flattening a rectangular two-dimensional buffer and rebuilding it with the
/// same width and row order gives back its rows, row for row.
pub proof fn lemma_2d_round_trip<B: Texture2dData>(
    b: B,
    width: u32,
    order: RowOrder,
    flat: Vec<B::Data>,
    back: Result<B, TextureDataError>,
)
    requires
        rectangular_2d(b, width),
        call_ensures(B::into_vec, (b, order), flat),
        call_ensures(B::from_vec, (flat, width, order), back),
    ensures
        back is Ok,
        back->Ok_0.rows() == b.rows(),
{
    lemma_flat_splits::<B>(b.rows(), width, order);
    let w = B::row_len(width as nat);
    if w > 0 {
        lemma_rows_round_trip(b.rows(), w, order);
    } else {
        assert(b.rows() =~= Seq::<Seq<B::Data>>::empty());
        assert(Seq::<Seq<B::Data>>::empty().reverse() =~= Seq::<Seq<B::Data>>::empty());
    }
}

/// Flattening a two-dimensional buffer with one row order and rebuilding the
/// result, as a buffer of the same or of another type, with the other row order
/// gives the rows back in reverse order.
pub proof fn lemma_2d_order_mismatch<B: Texture2dData, C: Texture2dData<Data = B::Data>>(
    b: B,
    width: u32,
    flat_order: RowOrder,
    build_order: RowOrder,
    flat: Vec<B::Data>,
    back: Result<C, TextureDataError>,
)
    requires
        rebuildable_as::<C>(b.rows(), width),
        flat_order != build_order,
        call_ensures(B::into_vec, (b, flat_order), flat),
        call_ensures(C::from_vec, (flat, width, build_order), back),
    ensures
        back is Ok,
        back->Ok_0.rows() == b.rows().reverse(),
{
    lemma_flat_splits::<C>(b.rows(), width, flat_order);
    let w = C::row_len(width as nat);
    if w > 0 {
        lemma_rows_order_mismatch(b.rows(), w);
    } else {
        assert(b.rows() =~= Seq::<Seq<B::Data>>::empty());
        assert(Seq::<Seq<B::Data>>::empty().reverse() =~= Seq::<Seq<B::Data>>::empty());
    }
}

} // verus!
