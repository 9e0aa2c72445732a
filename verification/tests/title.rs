use window_rescue::title::{wide_string_to_string, TitleDecodeError};

#[test]
fn decodes_up_to_the_first_null() {
    let units: [u16; 4] = [0x0048, 0x0069, 0x0000, 0x0058];
    assert_eq!(wide_string_to_string(&units), Ok(String::from("Hi")));
}

#[test]
fn decodes_whole_buffer_without_null() {
    let units: [u16; 2] = [0x0048, 0x0069];
    assert_eq!(wide_string_to_string(&units), Ok(String::from("Hi")));
}

#[test]
fn empty_buffer_decodes_to_empty_title() {
    let units: [u16; 0] = [];
    assert_eq!(wide_string_to_string(&units), Ok(String::new()));
}

#[test]
fn buffer_of_only_a_null_decodes_to_empty_title() {
    let units: [u16; 1] = [0x0000];
    assert_eq!(wide_string_to_string(&units), Ok(String::new()));
}

#[test]
fn garbage_after_the_null_is_ignored() {
    // A lone surrogate sits after the terminator; the title before it is fine.
    let units: [u16; 3] = [0x0041, 0x0000, 0xD800];
    assert_eq!(wide_string_to_string(&units), Ok(String::from("A")));
}

#[test]
fn lone_surrogate_is_a_decode_error() {
    let units: [u16; 2] = [0xD800, 0x0000];
    assert_eq!(wide_string_to_string(&units), Err(TitleDecodeError));
}

#[test]
fn surrogate_pair_decodes_to_one_character() {
    let units: [u16; 3] = [0xD83D, 0xDE00, 0x0000];
    let decoded = wide_string_to_string(&units).unwrap();
    assert_eq!(decoded.chars().count(), 1);
    assert_eq!(decoded.chars().next(), char::from_u32(0x1F600));
}
