use udisks2::text::{
    after_first_of, begins_with, decimal_string, digit_str, find_marker, last_segment_of, replace_marker,
    text_or_empty,
};

#[test]
fn numbers_are_written_in_decimal() {
    assert_eq!(decimal_string(0), "0");
    assert_eq!(decimal_string(7), "7");
    assert_eq!(decimal_string(10), "10");
    assert_eq!(decimal_string(65536), "65536");
    assert_eq!(decimal_string(u64::MAX), "18446744073709551615");
    assert_eq!(digit_str(0), "0");
    assert_eq!(digit_str(9), "9");
    assert_eq!(digit_str(10), "9");
}

#[test]
fn the_first_marker_is_found() {
    assert_eq!(find_marker("%s", 's'), Some(0));
    assert_eq!(find_marker("a %u b %s c %s", 's'), Some(7));
    assert_eq!(find_marker("a %u b %s c %s", 'u'), Some(2));
    assert_eq!(find_marker("100%", 's'), None);
    assert_eq!(find_marker("", 's'), None);
    assert_eq!(find_marker("%", 's'), None);
    assert_eq!(find_marker("— %s", 's'), Some(2));
}

#[test]
fn only_the_first_marker_is_replaced() {
    assert_eq!(replace_marker("%s and %s", 's', "one"), "one and %s");
    assert_eq!(replace_marker("nothing here", 's', "one"), "nothing here");
    assert_eq!(replace_marker("Partition %u of %s", 'u', "3"), "Partition 3 of %s");
    assert_eq!(replace_marker("%s", 's', ""), "");
    assert_eq!(replace_marker("é%sé", 's', "—"), "é—é");
}

#[test]
fn the_last_segment_stands_behind_the_last_separator() {
    assert_eq!(last_segment_of("/org/freedesktop/UDisks2/block_devices/sda1", '/'), "sda1");
    assert_eq!(last_segment_of("myhost:data", ':'), "data");
    assert_eq!(last_segment_of("a:b:c", ':'), "c");
    assert_eq!(last_segment_of("data", ':'), "data");
    assert_eq!(last_segment_of("data:", ':'), "");
    assert_eq!(last_segment_of("", ':'), "");
}

#[test]
fn prefixes_are_told() {
    assert!(begins_with("optical_cd_rw", "optical_cd"));
    assert!(begins_with("flash", "flash"));
    assert!(!begins_with("flas", "flash"));
    assert!(!begins_with("optical_dvd", "optical_cd"));
    assert!(begins_with("anything", ""));
}

#[test]
fn a_missing_text_is_the_empty_text() {
    assert_eq!(text_or_empty(&None), "");
    assert_eq!(text_or_empty(&Some("/dev/sda".to_string())), "/dev/sda");
}

#[test]
fn what_follows_the_first_separator_is_kept_whole() {
    assert_eq!(after_first_of("myhost:data", ':'), "data");
    assert_eq!(after_first_of("h:a:b", ':'), "a:b");
    assert_eq!(after_first_of("data", ':'), "data");
    assert_eq!(after_first_of(":", ':'), "");
    assert_eq!(after_first_of("", ':'), "");
    assert_eq!(after_first_of("\u{e9}:\u{2014}:x", ':'), "\u{2014}:x");
}
