use rapidraw::converted_input::{select_decoder, ConvertedDecoder, ConvertedInputError};
use rapidraw::formats::{
    converted_input_extensions, is_converted_input_file, is_raw_file, is_supported_image_file,
    non_raw_extensions, raw_extensions, supported_non_raw_extensions,
};

#[test]
fn converted_input_detection_is_case_insensitive() {
    assert!(is_converted_input_file("photo.HEIC", true));
    assert!(is_converted_input_file("photo.heif", true));
    assert!(is_converted_input_file("photo.HiF", true));
}

#[test]
fn converted_inputs_are_in_shared_folder_discovery_registry() {
    for path in [
        "synced/IMG_0001.HEIC",
        "synced/IMG_0002.heif",
        "synced/IMG_0003.HiF",
    ] {
        assert!(
            is_supported_image_file(path, true),
            "folder discovery should include {path}"
        );
    }

    let advertised: Vec<_> = supported_non_raw_extensions(true);
    for extension in converted_input_extensions(true) {
        assert!(
            advertised.contains(&extension),
            "file pickers and drop targets should advertise {extension}"
        );
    }
}

#[test]
fn supported_images_reject_hidden_and_unknown_files() {
    assert!(!is_supported_image_file(".hidden.jpg", false));
    assert!(!is_supported_image_file("photo.txt", false));
    assert!(is_supported_image_file("photo.jpeg", false));
}

#[test]
fn raw_detection_ignores_case_and_directories() {
    assert!(is_raw_file("DCIM/100CANON/IMG_0001.CR2"));
    assert!(is_raw_file("shoot.v2/frame.nef"));
    assert!(is_raw_file("archive.tar.Dng"));
    assert!(!is_raw_file("photo.jpg"));
    assert!(!is_raw_file("cr2"));
    assert!(!is_raw_file(".cr2"));
    // Trailing separators do not change the final component.
    assert!(is_raw_file("folder.cr2/"));
    assert!(is_supported_image_file("folder/photo.cr2/", false));
}

#[test]
fn extension_follows_path_component_rules() {
    // Trailing separators and `.` components are skipped.
    assert!(is_supported_image_file("album/photo.png/.", false));
    assert!(is_supported_image_file("album/photo.png//", false));
    // A final `..`, the root and an empty path have no file name.
    assert!(!is_supported_image_file("album/photo.png/..", false));
    assert!(!is_supported_image_file("/", false));
    assert!(!is_supported_image_file("", false));
    // A trailing dot is an empty extension.
    assert!(!is_supported_image_file("photo.", false));
    // Only the final component counts.
    assert!(!is_supported_image_file("photo.jpg/readme", false));
    // Non-ASCII names keep their extension.
    assert!(is_supported_image_file("фото/снимок.JPG", false));
    // A hidden directory does not hide the file in it.
    assert!(is_supported_image_file(".cache/photo.webp", false));
}

#[test]
fn extension_tables_match_the_supported_formats() {
    let raw = raw_extensions();
    assert_eq!(raw.len(), 33);
    assert_eq!(raw[0], ("dng", "Adobe Digital Negative"));
    assert_eq!(raw[32], ("sr2", "Sony Raw 2"));
    let direct = non_raw_extensions();
    assert_eq!(direct.len(), 21);
    let all = supported_non_raw_extensions(true);
    assert_eq!(all.len(), 24);
    assert_eq!(&all[21..], &["hif", "heic", "heif"]);
    assert_eq!(supported_non_raw_extensions(false), direct);
    for ext in direct {
        assert!(is_supported_image_file(&format!("x.{}", ext.to_uppercase()), false));
        assert!(!is_raw_file(&format!("x.{ext}")));
    }
}

#[test]
fn converted_decoder_is_chosen_by_extension() {
    assert_eq!(select_decoder("photo.HEIC", true), Ok(ConvertedDecoder::Heif));
    assert_eq!(select_decoder("dir/photo.hif", true), Ok(ConvertedDecoder::Heif));
    assert_eq!(select_decoder("photo.jpg", true), Err(ConvertedInputError::NoDecoder));
    assert_eq!(select_decoder("heic", true), Err(ConvertedInputError::NoDecoder));
    assert_eq!(select_decoder("photo.HEIC", false), Err(ConvertedInputError::NoDecoder));
}

#[test]
fn converted_inputs_are_not_offered_without_a_decoder() {
    assert!(converted_input_extensions(false).is_empty());
    for path in ["photo.HEIC", "photo.heif", "synced/IMG_0003.HiF"] {
        assert!(!is_converted_input_file(path, false));
        assert!(!is_supported_image_file(path, false));
    }
    let advertised = supported_non_raw_extensions(false);
    assert_eq!(advertised.len(), 21);
    assert!(!advertised.contains(&"heic"));
    // Ordinary formats are unaffected by the decoder's presence.
    assert!(is_supported_image_file("photo.jpeg", false));
    assert!(is_supported_image_file("photo.jpeg", true));
    assert!(!is_supported_image_file(".hidden.heic", true));
}
