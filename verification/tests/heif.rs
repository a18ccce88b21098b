use rapidraw::heif::{
    cancel_check_at, check_cancel, checked_pixel_count, conversion_layout, declared_dimensions,
    ensure_heif_container, looks_like_heif, orientation_from_property, HeifError,
    MAX_DECODED_PIXELS,
};
use std::sync::atomic::{AtomicUsize, Ordering};
use std::sync::Arc;

fn ftyp(major: &[u8; 4], compatible: &[[u8; 4]]) -> Vec<u8> {
    let size = 16 + compatible.len() * 4;
    let mut bytes = Vec::with_capacity(size);
    bytes.extend_from_slice(&(size as u32).to_be_bytes());
    bytes.extend_from_slice(b"ftyp");
    bytes.extend_from_slice(major);
    bytes.extend_from_slice(&0_u32.to_be_bytes());
    for brand in compatible {
        bytes.extend_from_slice(brand);
    }
    bytes
}

#[test]
fn recognizes_heif_major_and_compatible_brands() {
    assert!(looks_like_heif(&ftyp(b"heic", &[])));
    assert!(looks_like_heif(&ftyp(b"isom", &[*b"mif1"])));
    assert!(!looks_like_heif(&ftyp(b"avif", &[])));
    assert!(!looks_like_heif(b"not a container"));
}

#[test]
fn rejects_unsafe_output_dimensions() {
    assert!(checked_pixel_count(10_000, 10_000).is_ok());
    assert!(checked_pixel_count(10_001, 10_000).is_err());
    assert!(checked_pixel_count(0, 10).is_err());
}

#[test]
fn pixel_count_errors_say_why() {
    assert_eq!(checked_pixel_count(10_000, 10_000), Ok(MAX_DECODED_PIXELS));
    assert_eq!(checked_pixel_count(16, 12), Ok(192));
    assert_eq!(checked_pixel_count(0, 10), Err(HeifError::EmptyImage));
    assert_eq!(checked_pixel_count(10, 0), Err(HeifError::EmptyImage));
    assert_eq!(
        checked_pixel_count(10_001, 10_000),
        Err(HeifError::TooLarge { width: 10_001, height: 10_000 })
    );
    assert_eq!(checked_pixel_count(usize::MAX, 2), Err(HeifError::DimensionsOverflow));
}

#[test]
fn conversion_layout_sizes_an_rgba_half_float_buffer() {
    let layout = conversion_layout(16, 12).unwrap();
    assert_eq!(layout.pixel_count, 192);
    assert_eq!(layout.component_count, 768);
    assert_eq!(layout.bytes_per_row, 128);
    assert_eq!((layout.width, layout.height), (16, 12));
    assert_eq!(conversion_layout(0, 5), Err(HeifError::EmptyImage));
    assert_eq!(
        conversion_layout(20_000, 20_000),
        Err(HeifError::TooLarge { width: 20_000, height: 20_000 })
    );
}

#[test]
fn brands_beyond_the_major_brand_are_whole_four_byte_entries() {
    assert!(looks_like_heif(&ftyp(b"isom", &[*b"avif", *b"msf1"])));
    assert!(looks_like_heif(&ftyp(b"hevx", &[])));
    assert!(!looks_like_heif(&ftyp(b"isom", &[*b"avif", *b"mp41"])));
    // A partial trailing brand is ignored.
    let mut bytes = ftyp(b"isom", &[]);
    bytes.extend_from_slice(b"hei");
    bytes[3] = 19;
    assert!(!looks_like_heif(&bytes));
    // The minor version is not a brand.
    let mut bytes = ftyp(b"isom", &[]);
    bytes[12..16].copy_from_slice(b"heic");
    assert!(!looks_like_heif(&bytes));
}

#[test]
fn box_walk_handles_sizes_and_malformed_boxes() {
    // A leading box of another type is skipped.
    let mut bytes = vec![0, 0, 0, 12];
    bytes.extend_from_slice(b"free");
    bytes.extend_from_slice(&[1, 2, 3, 4]);
    bytes.extend_from_slice(&ftyp(b"heic", &[]));
    assert!(looks_like_heif(&bytes));
    // Size 0 runs to the end of the scanned bytes.
    let mut bytes = vec![0, 0, 0, 0];
    bytes.extend_from_slice(b"ftyp");
    bytes.extend_from_slice(b"mif1");
    bytes.extend_from_slice(&[0, 0, 0, 0]);
    assert!(looks_like_heif(&bytes));
    // Size 1 takes a 64-bit size after the type.
    let mut bytes = vec![0, 0, 0, 1];
    bytes.extend_from_slice(b"ftyp");
    bytes.extend_from_slice(&24_u64.to_be_bytes());
    bytes.extend_from_slice(b"heis");
    bytes.extend_from_slice(&[0, 0, 0, 0]);
    assert!(looks_like_heif(&bytes));
    // A 64-bit size needs its 16-byte header within the data.
    let mut bytes = vec![0, 0, 0, 1];
    bytes.extend_from_slice(b"ftyp");
    bytes.extend_from_slice(&[0, 0, 0]);
    assert!(!looks_like_heif(&bytes));
    // A box smaller than its header, or running past the end, is malformed.
    let mut bytes = ftyp(b"heic", &[]);
    bytes[3] = 7;
    assert!(!looks_like_heif(&bytes));
    let mut bytes = ftyp(b"heic", &[]);
    bytes[3] = 17;
    assert!(!looks_like_heif(&bytes));
    // An ftyp payload shorter than 8 bytes is refused.
    let mut bytes = vec![0, 0, 0, 12];
    bytes.extend_from_slice(b"ftyp");
    bytes.extend_from_slice(b"heic");
    assert!(!looks_like_heif(&bytes));
    assert!(!looks_like_heif(&[]));
}

#[test]
fn only_the_first_64_kib_are_searched() {
    let mut bytes = vec![0, 0, 0x40, 0];
    bytes.extend_from_slice(b"mdat");
    bytes.resize(0x4000, 0);
    bytes.extend_from_slice(&ftyp(b"heic", &[]));
    assert!(looks_like_heif(&bytes));

    let mut bytes = vec![0, 1, 0, 0];
    bytes.extend_from_slice(b"mdat");
    bytes.resize(0x10000, 0);
    bytes.extend_from_slice(&ftyp(b"heic", &[]));
    assert!(!looks_like_heif(&bytes));
}

#[test]
fn container_check_reports_non_heif_input() {
    assert_eq!(ensure_heif_container(&ftyp(b"heix", &[])), Ok(()));
    assert_eq!(
        ensure_heif_container(b"\x89PNG\r\n\x1a\n"),
        Err(HeifError::NotHeifContainer)
    );
}

#[test]
fn container_properties_fall_back_when_out_of_range() {
    assert_eq!(orientation_from_property(Some(6)), 6);
    assert_eq!(orientation_from_property(Some(1)), 1);
    assert_eq!(orientation_from_property(Some(8)), 8);
    assert_eq!(orientation_from_property(Some(0)), 1);
    assert_eq!(orientation_from_property(Some(9)), 1);
    assert_eq!(orientation_from_property(Some(-3)), 1);
    assert_eq!(orientation_from_property(Some(65_542)), 1);
    assert_eq!(orientation_from_property(None), 1);

    assert_eq!(declared_dimensions(Some(4032), Some(3024)), Some((4032, 3024)));
    assert_eq!(declared_dimensions(Some(0), Some(0)), Some((0, 0)));
    assert_eq!(declared_dimensions(Some(-1), Some(3024)), None);
    assert_eq!(declared_dimensions(Some(4032), None), None);
    assert_eq!(declared_dimensions(None, None), None);
}

#[test]
fn cancellation_follows_the_load_generation() {
    assert_eq!(check_cancel(&None), Ok(()));
    let tracker = Arc::new(AtomicUsize::new(3));
    let token = Some((Arc::clone(&tracker), 3));
    assert_eq!(check_cancel(&token), Ok(()));
    tracker.store(4, Ordering::SeqCst);
    assert_eq!(check_cancel(&token), Err(HeifError::Cancelled));
}

#[test]
fn cancellation_compares_the_tracker_with_the_generation() {
    assert_eq!(cancel_check_at(7, 7), Ok(()));
    assert_eq!(cancel_check_at(8, 7), Err(HeifError::Cancelled));
    assert_eq!(cancel_check_at(0, usize::MAX), Err(HeifError::Cancelled));
}

#[test]
fn heif_errors_carry_their_messages() {
    assert_eq!(
        HeifError::NotHeifContainer.message(),
        "The file extension is HEIC/HEIF, but the file is not a recognized HEIF container"
    );
    assert_eq!(
        HeifError::EmptyImage.message(),
        "HEIC/HEIF decoder returned an empty image"
    );
    assert_eq!(
        HeifError::DimensionsOverflow.message(),
        "HEIC/HEIF dimensions overflow"
    );
    assert_eq!(
        HeifError::TooLarge { width: 20_000, height: 10_001 }.message(),
        "HEIC/HEIF image is too large to decode safely (20000x10001; maximum 100 megapixels)"
    );
    assert_eq!(
        HeifError::TooLarge { width: 0, height: 7 }.message(),
        "HEIC/HEIF image is too large to decode safely (0x7; maximum 100 megapixels)"
    );
    assert_eq!(
        HeifError::BufferSizeOverflow.message(),
        "HEIC/HEIF pixel buffer size overflow"
    );
    assert_eq!(HeifError::RowSizeOverflow.message(), "HEIC/HEIF row size overflow");
    assert_eq!(
        HeifError::WidthTooLarge.message(),
        "HEIC/HEIF width exceeds RapidRAW's image limits"
    );
    assert_eq!(
        HeifError::HeightTooLarge.message(),
        "HEIC/HEIF height exceeds RapidRAW's image limits"
    );
    assert_eq!(HeifError::Cancelled.message(), "Load cancelled");
}

#[test]
fn oversized_image_message_names_its_dimensions() {
    let err = checked_pixel_count(10_001, 10_000).unwrap_err();
    assert_eq!(
        err.message(),
        "HEIC/HEIF image is too large to decode safely (10001x10000; maximum 100 megapixels)"
    );
}

fn filler_box(size: usize) -> Vec<u8> {
    let mut bytes = Vec::with_capacity(size);
    bytes.extend_from_slice(&(size as u32).to_be_bytes());
    bytes.extend_from_slice(b"free");
    bytes.resize(size, 0);
    bytes
}

#[test]
fn only_the_leading_bytes_are_searched() {
    // An `ftyp` box that ends exactly at the scan limit is found.
    let mut inside = filler_box(65_536 - 16);
    inside.extend_from_slice(&ftyp(b"heic", &[]));
    assert!(looks_like_heif(&inside));
    inside.extend_from_slice(&[0u8; 100]);
    assert!(looks_like_heif(&inside));
    // One byte further and it crosses the limit: not searched.
    let mut beyond = filler_box(65_536 - 15);
    beyond.extend_from_slice(&ftyp(b"heic", &[]));
    assert!(!looks_like_heif(&beyond));
    assert!(!looks_like_heif(&beyond[..65_536]));
}
