use guest_bridge::utf16::{decode_utf16_lossy, encode_utf16, REPLACEMENT};

fn std_units(text: &str) -> Vec<u16> {
    text.encode_utf16().collect()
}

#[test]
fn encode_empty_text_has_no_units() {
    assert_eq!(encode_utf16(""), Vec::<u16>::new());
}

#[test]
fn encode_ascii_is_one_unit_per_char() {
    assert_eq!(encode_utf16("hi"), vec![0x68, 0x69]);
}

#[test]
fn encode_multi_byte_utf8_is_one_unit() {
    // U+00E9 and U+20AC take two and three bytes in UTF-8, one unit in UTF-16.
    assert_eq!(encode_utf16("\u{e9}\u{20ac}"), vec![0x00E9, 0x20AC]);
}

#[test]
fn encode_supplementary_char_is_a_surrogate_pair() {
    // U+1F600: 0x1F600 - 0x10000 = 0xF600; high = 0xD800 + 0x3D, low = 0xDC00 + 0x200.
    assert_eq!(encode_utf16("\u{1F600}"), vec![0xD83D, 0xDE00]);
    assert_eq!(encode_utf16("\u{10000}"), vec![0xD800, 0xDC00]);
    assert_eq!(encode_utf16("\u{10FFFF}"), vec![0xDBFF, 0xDFFF]);
}

#[test]
fn encode_edges_of_the_basic_plane() {
    assert_eq!(encode_utf16("\u{D7FF}\u{E000}\u{FFFF}"), vec![0xD7FF, 0xE000, 0xFFFF]);
}

#[test]
fn encode_agrees_with_std() {
    for text in ["", "a", "{\"name\":\"John\", \"age\":30}", "\u{e9}t\u{e9}", "\u{1F600}x\u{10FFFF}", "\u{FFFD}\u{0}"] {
        assert_eq!(encode_utf16(text), std_units(text));
    }
}

#[test]
fn decode_plain_units() {
    assert_eq!(decode_utf16_lossy(&vec![0x68, 0x69]), "hi");
    assert_eq!(decode_utf16_lossy(&vec![]), "");
}

#[test]
fn decode_surrogate_pair() {
    assert_eq!(decode_utf16_lossy(&vec![0xD83D, 0xDE00]), "\u{1F600}");
    assert_eq!(decode_utf16_lossy(&vec![0xD800, 0xDC00]), "\u{10000}");
    assert_eq!(decode_utf16_lossy(&vec![0xDBFF, 0xDFFF]), "\u{10FFFF}");
}

#[test]
fn decode_replaces_unpaired_surrogates() {
    assert_eq!(REPLACEMENT, '\u{FFFD}');
    // A high surrogate at the end.
    assert_eq!(decode_utf16_lossy(&vec![0x61, 0xD800]), "a\u{FFFD}");
    // A low surrogate alone.
    assert_eq!(decode_utf16_lossy(&vec![0xDC00, 0x61]), "\u{FFFD}a");
    // A high surrogate before a plain unit: the plain unit is kept.
    assert_eq!(decode_utf16_lossy(&vec![0xD800, 0x61]), "\u{FFFD}a");
    // Two high surrogates, then a low one: the second pairs up.
    assert_eq!(decode_utf16_lossy(&vec![0xD83D, 0xD83D, 0xDE00]), "\u{FFFD}\u{1F600}");
    // Low before high.
    assert_eq!(decode_utf16_lossy(&vec![0xDE00, 0xD83D]), "\u{FFFD}\u{FFFD}");
}

#[test]
fn decode_agrees_with_std_on_every_pair_of_edge_units() {
    let edges: [u16; 12] = [
        0x0000, 0x0041, 0xD7FF, 0xD800, 0xD801, 0xDBFF, 0xDC00, 0xDC01, 0xDFFF, 0xE000, 0xFFFD,
        0xFFFF,
    ];
    for a in edges {
        for b in edges {
            for c in edges {
                let units = vec![a, b, c];
                assert_eq!(decode_utf16_lossy(&units), String::from_utf16_lossy(&units));
            }
        }
    }
}

#[test]
fn text_comes_back_from_its_units() {
    for text in [
        "",
        "hello",
        "{\"name\":\"John\", \"age\":30}",
        "gr\u{fc}\u{df}e \u{4e16}\u{754c}",
        "\u{1F600}\u{1F4A9} and \u{10000}",
        "\u{FFFD}",
    ] {
        assert_eq!(decode_utf16_lossy(&encode_utf16(text)), text);
    }
}
