use timelapse::framename::{
    day_dir_name, frame_filename, next_filename_from, pad_decimal, parse_frame_number, parse_stem,
    strip_extensions,
};

fn names(entries: &[&str]) -> Vec<String> {
    entries.iter().map(|s| s.to_string()).collect()
}

#[test]
fn test_next_filename_empty_dir() {
    let entries: Vec<String> = Vec::new();

    let result = next_filename_from(&entries);
    assert_eq!(result, "00001.png");
}

#[test]
fn test_next_filename_with_existing_files() {
    let entries = names(&["00001.png", "00002.png", "00003.jpg"]);

    let result = next_filename_from(&entries);
    assert_eq!(result, "00004.png");
}

#[test]
fn test_next_filename_with_gaps() {
    let entries = names(&["00001.png", "00005.png", "00010.png"]);

    let result = next_filename_from(&entries);
    // Should be max + 1 = 11
    assert_eq!(result, "00011.png");
}

#[test]
fn test_next_filename_ignores_non_numeric() {
    let entries = names(&["00001.png", "test.png", "image.jpg"]);

    let result = next_filename_from(&entries);
    assert_eq!(result, "00002.png");
}

#[test]
fn test_create_day_dir_if_needed() {
    let dir_name = day_dir_name(2024, 3, 7);

    // Verify the directory name format (YYYY-MM-DD)
    assert_eq!(dir_name.len(), 10); // YYYY-MM-DD is 10 characters
    assert_eq!(&dir_name[4..5], "-");
    assert_eq!(&dir_name[7..8], "-");
    assert_eq!(dir_name, "2024-03-07");
}

#[test]
fn test_parse_frame_number_cases() {
    assert_eq!(parse_frame_number("00042"), Some(42));
    assert_eq!(parse_frame_number("0"), Some(0));
    assert_eq!(parse_frame_number("4294967295"), Some(u32::MAX));
    // Overflowing, empty and non-numeric strings do not parse.
    assert_eq!(parse_frame_number("4294967296"), None);
    assert_eq!(parse_frame_number(""), None);
    assert_eq!(parse_frame_number("12a"), None);
    assert_eq!(parse_frame_number("-5"), None);
}

#[test]
fn test_strip_extensions_cases() {
    assert_eq!(strip_extensions("00001.png"), "00001");
    assert_eq!(strip_extensions("00003.jpg"), "00003");
    assert_eq!(strip_extensions("photo.jpg.png"), "photo");
    assert_eq!(strip_extensions("archive.tar"), "archive.tar");
    assert_eq!(strip_extensions("plain"), "plain");
}

#[test]
fn test_parse_stem_round_trip() {
    // The generated filename parses back to the same number.
    for n in [1u64, 9, 10, 99999, 100000] {
        let name = frame_filename(n);
        assert_eq!(parse_stem(&name), Some(n as u32));
    }
    assert_eq!(frame_filename(7), "00007.png");
    assert_eq!(frame_filename(123456), "123456.png");
}

#[test]
fn test_pad_decimal_widths() {
    assert_eq!(pad_decimal(5, 5), "00005");
    assert_eq!(pad_decimal(12345, 5), "12345");
    assert_eq!(pad_decimal(123456, 5), "123456");
    assert_eq!(pad_decimal(7, 1), "7");
    assert_eq!(pad_decimal(0, 2), "00");
}
