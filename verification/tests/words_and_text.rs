use fidget_vk::wide::{fill_wide_buf, wide_null};
use fidget_vk::words::{
    client_pos_from_packed, high_word, low_word, signed_high_word, signed_low_word,
    size_from_packed,
};

#[test]
fn low_and_high_words_split_packed_value() {
    assert_eq!(low_word(0x1234_5678), 0x5678);
    assert_eq!(high_word(0x1234_5678), 0x1234);
    assert_eq!(low_word(0), 0);
    assert_eq!(high_word(u32::MAX), 0xffff);
}

#[test]
fn signed_words_read_negative_coordinates() {
    // (-10, -2) packed as two 16-bit two's-complement halves.
    let packed: u32 = 0xfffe_fff6;
    assert_eq!(signed_low_word(packed), -10);
    assert_eq!(signed_high_word(packed), -2);
    assert_eq!(signed_low_word(0x0000_7fff), 32767);
    assert_eq!(signed_low_word(0x0000_8000), -32768);
    assert_eq!(client_pos_from_packed(0x0064_0032), (50, 100));
}

#[test]
fn size_message_decodes_width_and_height() {
    assert_eq!(size_from_packed((1080 << 16) | 1920), (1920, 1080));
    assert_eq!(size_from_packed(0xffff_ffff), (65535, 65535));
}

#[test]
fn wide_null_encodes_ascii_and_terminates() {
    assert_eq!(wide_null("Fidget"), vec![70, 105, 100, 103, 101, 116, 0]);
    assert_eq!(wide_null(""), vec![0]);
}

#[test]
fn wide_null_uses_surrogate_pairs() {
    // U+1F600 is encoded as D83D DE00; U+00E9 is a single unit.
    assert_eq!(wide_null("\u{1F600}\u{e9}"), vec![0xD83D, 0xDE00, 0xE9, 0]);
    let expected: Vec<u16> = "a\u{10FFFF}z".encode_utf16().chain(std::iter::once(0)).collect();
    assert_eq!(wide_null("a\u{10FFFF}z"), expected);
}

#[test]
fn fill_wide_buf_copies_with_terminator_when_it_fits() {
    let mut buf = [0xAAAAu16; 8];
    fill_wide_buf(&mut buf, "Tip");
    assert_eq!(buf, [84, 105, 112, 0, 0xAAAA, 0xAAAA, 0xAAAA, 0xAAAA]);
}

#[test]
fn fill_wide_buf_truncates_long_text() {
    let mut buf = [7u16; 4];
    fill_wide_buf(&mut buf, "Fidget-VK");
    assert_eq!(buf, [70, 105, 100, 103]);
    let mut empty: [u16; 0] = [];
    fill_wide_buf(&mut empty, "x");
}
