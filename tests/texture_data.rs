use texture_data::format::{ChannelKind, ClientFormat};
use texture_data::image_data::RgbaImageData;
use texture_data::pixel::PixelValue;
use texture_data::row_order::{flip_rows, RowOrder};
use texture_data::texture::{Texture1dData, Texture2dData, Texture3dData, TextureDataError};

type Rgba = (u8, u8, u8, u8);

const A: Rgba = (1, 2, 3, 4);
const B: Rgba = (5, 6, 7, 8);
const C: Rgba = (9, 10, 11, 12);
const D: Rgba = (13, 14, 15, 16);

fn grid(width: u32, height: u32) -> Vec<Vec<u32>> {
    (0..height).map(|y| (0..width).map(|x| y * 100 + x).collect()).collect()
}

#[test]
fn flip_rows_reverses_rows() {
    let s: Vec<u32> = vec![1, 2, 3, 4, 5, 6];
    assert_eq!(flip_rows(&s, 2), vec![5, 6, 3, 4, 1, 2]);
    assert_eq!(flip_rows(&s, 3), vec![4, 5, 6, 1, 2, 3]);
    assert_eq!(flip_rows(&s, 6), s);
}

#[test]
fn flip_rows_twice_is_identity() {
    let s: Vec<u32> = (0..24).collect();
    for w in [1usize, 2, 3, 4, 6, 8, 12, 24] {
        let once = flip_rows(&s, w);
        assert_eq!(flip_rows(&once, w), s);
    }
}

#[test]
fn flip_rows_empty() {
    let s: Vec<u8> = Vec::new();
    assert_eq!(flip_rows(&s, 3), Vec::<u8>::new());
}

#[test]
fn one_dimensional_round_trip() {
    let b: Vec<u16> = vec![7, 1, 9, 3];
    let flat = b.clone().into_vec();
    assert_eq!(flat, vec![7, 1, 9, 3]);
    let back = <Vec<u16> as Texture1dData>::from_vec(flat).unwrap();
    assert_eq!(back, b);
}

#[test]
fn one_dimensional_slice_flattens_but_does_not_rebuild() {
    let data: Vec<i8> = vec![-1, 2, -3];
    let s: &[i8] = &data;
    assert_eq!(Texture1dData::into_vec(s), vec![-1, 2, -3]);
    assert_eq!(
        <&[i8] as Texture1dData>::from_vec(vec![1, 2]),
        Err(TextureDataError::UnsupportedReconstruction)
    );
    assert_eq!(<&[i8] as Texture1dData>::get_format(None), ClientFormat::I8);
}

#[test]
fn two_dimensional_round_trip_same_order() {
    let b = grid(8, 4);
    for order in [RowOrder::TopFirst, RowOrder::BottomFirst] {
        let flat = b.clone().into_vec(order);
        assert_eq!(flat.len(), 32);
        let back = <Vec<Vec<u32>> as Texture2dData>::from_vec(flat, 8, order).unwrap();
        assert_eq!(back, b);
    }
}

#[test]
fn two_dimensional_order_mismatch_reverses_rows() {
    let b = grid(3, 5);
    let mut reversed = b.clone();
    reversed.reverse();
    let flat = b.clone().into_vec(RowOrder::TopFirst);
    let back =
        <Vec<Vec<u32>> as Texture2dData>::from_vec(flat, 3, RowOrder::BottomFirst).unwrap();
    assert_eq!(back, reversed);
    let flat = b.clone().into_vec(RowOrder::BottomFirst);
    let back = <Vec<Vec<u32>> as Texture2dData>::from_vec(flat, 3, RowOrder::TopFirst).unwrap();
    assert_eq!(back, reversed);
}

#[test]
fn two_dimensional_flatten_orders() {
    let b: Vec<Vec<u8>> = vec![vec![1, 2], vec![3, 4], vec![5, 6]];
    assert_eq!(b.clone().into_vec(RowOrder::BottomFirst), vec![1, 2, 3, 4, 5, 6]);
    assert_eq!(b.into_vec(RowOrder::TopFirst), vec![5, 6, 3, 4, 1, 2]);
}

#[test]
fn two_dimensional_dimensions() {
    assert_eq!(grid(8, 4).get_dimensions(), (8, 4));
    let empty: Vec<Vec<u8>> = Vec::new();
    assert_eq!(empty.get_dimensions(), (0, 0));
}

#[test]
fn format_is_the_same_on_every_call() {
    let first = <Vec<Vec<Rgba>> as Texture2dData>::get_format(None);
    let second = <Vec<Vec<Rgba>> as Texture2dData>::get_format(None);
    assert_eq!(first, second);
    assert_eq!(first, ClientFormat::U8U8U8U8);
    assert_eq!(<u16 as PixelValue>::get_format(None), ClientFormat::U16);
    assert_eq!(<(i32, i32) as PixelValue>::get_format(None), ClientFormat::I32I32);
}

#[test]
fn client_format_descriptors() {
    let f = ClientFormat::U8U8U8U8;
    assert_eq!(f.get_num_components(), 4);
    assert_eq!(f.get_channel_bits(), 8);
    assert_eq!(f.get_kind(), ChannelKind::Unsigned);
    assert_eq!(f.get_size(), 4);
    let g = ClientFormat::I16I16I16;
    assert_eq!(g.get_num_components(), 3);
    assert_eq!(g.get_channel_bits(), 16);
    assert_eq!(g.get_kind(), ChannelKind::Signed);
    assert_eq!(g.get_size(), 6);
    assert_eq!(ClientFormat::U32.get_size(), 4);
}

#[test]
fn mismatched_reconstruction_fails() {
    let data: Vec<u8> = (0..10).collect();
    assert_eq!(
        <Vec<Vec<u8>> as Texture2dData>::from_vec(data, 3, RowOrder::BottomFirst),
        Err(TextureDataError::DimensionMismatch)
    );
}

#[test]
fn zero_width_reconstruction() {
    assert_eq!(
        <Vec<Vec<u8>> as Texture2dData>::from_vec(Vec::new(), 0, RowOrder::TopFirst),
        Ok(Vec::new())
    );
    assert_eq!(
        <Vec<Vec<u8>> as Texture2dData>::from_vec(vec![1], 0, RowOrder::TopFirst),
        Err(TextureDataError::DimensionMismatch)
    );
}

#[test]
fn end_to_end_pixel_rows() {
    let b: Vec<Vec<Rgba>> = vec![vec![A, B], vec![C, D]];
    let flat = b.clone().into_vec(RowOrder::TopFirst);
    assert_eq!(flat, vec![C, D, A, B]);
    let back = <Vec<Vec<Rgba>> as Texture2dData>::from_vec(flat, 2, RowOrder::TopFirst).unwrap();
    assert_eq!(back, vec![vec![A, B], vec![C, D]]);
}

fn rgba_bytes(pixels: &[Rgba]) -> Vec<u8> {
    pixels.iter().flat_map(|p| [p.0, p.1, p.2, p.3]).collect()
}

#[test]
fn end_to_end_rgba_image() {
    let img = RgbaImageData::from_raw(2, 2, rgba_bytes(&[A, B, C, D])).unwrap();
    assert_eq!(img.get_dimensions(), (2, 2));
    assert_eq!(<RgbaImageData as Texture2dData>::get_format(None), ClientFormat::U8U8U8U8);
    let flat = img.into_vec(RowOrder::TopFirst);
    assert_eq!(flat, rgba_bytes(&[C, D, A, B]));
    let back = <RgbaImageData as Texture2dData>::from_vec(flat, 2, RowOrder::TopFirst).unwrap();
    assert_eq!(back.dimensions(), (2, 2));
    assert_eq!(back.into_raw(), rgba_bytes(&[A, B, C, D]));
}

#[test]
fn rgba_image_keeps_order_when_bottom_first() {
    let img = RgbaImageData::from_raw(1, 3, rgba_bytes(&[A, B, C])).unwrap();
    assert_eq!(img.into_vec(RowOrder::BottomFirst), rgba_bytes(&[A, B, C]));
}

#[test]
fn rgba_image_ignores_samples_past_the_last_row() {
    let mut bytes = rgba_bytes(&[A, B]);
    bytes.extend_from_slice(&[99, 99]);
    let img = RgbaImageData::from_raw(1, 2, bytes).unwrap();
    assert_eq!(img.into_vec(RowOrder::TopFirst), rgba_bytes(&[B, A]));
}

#[test]
fn rgba_image_from_raw_needs_enough_samples() {
    assert!(RgbaImageData::from_raw(2, 2, vec![0; 15]).is_none());
    assert!(RgbaImageData::from_raw(2, 2, vec![0; 16]).is_some());
}

#[test]
fn rgba_image_reconstruction_checks_row_length() {
    assert!(matches!(
        <RgbaImageData as Texture2dData>::from_vec(vec![0; 12], 2, RowOrder::TopFirst),
        Err(TextureDataError::DimensionMismatch)
    ));
    let img = <RgbaImageData as Texture2dData>::from_vec(vec![0; 24], 3, RowOrder::TopFirst)
        .unwrap();
    assert_eq!(img.dimensions(), (3, 2));
    let empty = <RgbaImageData as Texture2dData>::from_vec(Vec::new(), 5, RowOrder::TopFirst)
        .unwrap();
    assert_eq!(empty.dimensions(), (5, 0));
}

#[test]
fn dynamic_image_round_trip() {
    let flat = rgba_bytes(&[A, B, C, D]);
    let img =
        <image::DynamicImage as Texture2dData>::from_vec(flat.clone(), 2, RowOrder::TopFirst)
            .unwrap();
    assert_eq!(img.get_dimensions(), (2, 2));
    assert_eq!(img.to_rgba8().into_raw(), rgba_bytes(&[C, D, A, B]));
    assert_eq!(img.into_vec(RowOrder::TopFirst), flat);
}

#[test]
fn three_dimensional_flatten_and_dimensions() {
    let b: Vec<Vec<Vec<u8>>> = vec![vec![vec![1, 2], vec![3, 4]], vec![vec![5, 6], vec![7, 8]]];
    assert_eq!(b.get_dimensions(), (2, 2, 2));
    assert_eq!(b.clone().into_vec(RowOrder::BottomFirst), vec![1, 2, 3, 4, 5, 6, 7, 8]);
    assert_eq!(b.into_vec(RowOrder::TopFirst), vec![3, 4, 1, 2, 7, 8, 5, 6]);
    let empty: Vec<Vec<Vec<u8>>> = Vec::new();
    assert_eq!(empty.get_dimensions(), (0, 0, 0));
}

#[test]
fn three_dimensional_reconstruction_is_not_implemented() {
    assert_eq!(
        <Vec<Vec<Vec<u8>>> as Texture3dData>::from_vec(vec![1, 2, 3, 4], 2, 2, RowOrder::TopFirst),
        Err(TextureDataError::NotImplemented)
    );
}

#[test]
fn rgba_image_rebuilt_as_rows_with_other_order_is_reversed() {
    let img = RgbaImageData::from_raw(1, 3, rgba_bytes(&[A, B, C])).unwrap();
    let flat = img.into_vec(RowOrder::TopFirst);
    let rows =
        <Vec<Vec<u8>> as Texture2dData>::from_vec(flat, 4, RowOrder::BottomFirst).unwrap();
    assert_eq!(rows, vec![rgba_bytes(&[C]), rgba_bytes(&[B]), rgba_bytes(&[A])]);
}

#[test]
fn rgba_image_round_trip_keeps_dimensions_and_samples() {
    let mut bytes = rgba_bytes(&[A, B, C, D, A, B]);
    bytes.push(7);
    let img = RgbaImageData::from_raw(2, 3, bytes).unwrap();
    let flat = img.into_vec(RowOrder::TopFirst);
    let back = <RgbaImageData as Texture2dData>::from_vec(flat, 2, RowOrder::TopFirst).unwrap();
    assert_eq!(back.dimensions(), (2, 3));
    assert_eq!(back.into_raw(), rgba_bytes(&[A, B, C, D, A, B]));
}

#[test]
fn dynamic_grey_image_flattens_as_rgba() {
    let grey = image::GrayImage::from_raw(2, 2, vec![10, 20, 30, 40]).unwrap();
    let img = image::DynamicImage::ImageLuma8(grey);
    assert_eq!(img.get_dimensions(), (2, 2));
    assert_eq!(
        img.into_vec(RowOrder::TopFirst),
        vec![30, 30, 30, 255, 40, 40, 40, 255, 10, 10, 10, 255, 20, 20, 20, 255]
    );
}
