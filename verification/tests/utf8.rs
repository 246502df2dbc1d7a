//! The UTF-8 validator against the standard library's, on the classic
//! edge cases: overlong forms, surrogates, truncations, boundary scalars.
use consul_client::encoding::check_utf8;

#[test]
fn accepts_well_formed_sequences() {
    let cases: &[&[u8]] = &[
        b"",
        b"plain ascii",
        "héllo wörld".as_bytes(),
        "\u{7f}\u{80}\u{7ff}\u{800}\u{ffff}".as_bytes(),
        "\u{10000}\u{10ffff}".as_bytes(),
        "\u{d7ff}\u{e000}".as_bytes(),
        &[0xf0, 0x90, 0x8d, 0x88],
    ];
    for bytes in cases {
        assert!(check_utf8(bytes), "rejected {:x?}", bytes);
    }
}

#[test]
fn rejects_malformed_sequences() {
    let cases: &[&[u8]] = &[
        &[0x80],
        &[0xbf],
        &[0xc0, 0x80],
        &[0xc1, 0xbf],
        &[0xc2],
        &[0xc2, 0x20],
        &[0xe0, 0x80, 0x80],
        &[0xe0, 0x9f, 0xbf],
        &[0xed, 0xa0, 0x80],
        &[0xed, 0xbf, 0xbf],
        &[0xe2, 0x82],
        &[0xf0, 0x80, 0x80, 0x80],
        &[0xf0, 0x8f, 0xbf, 0xbf],
        &[0xf4, 0x90, 0x80, 0x80],
        &[0xf5, 0x80, 0x80, 0x80],
        &[0xf8, 0x88, 0x80, 0x80, 0x80],
        &[0xff],
        &[0xf0, 0x90, 0x8d],
    ];
    for bytes in cases {
        assert!(!check_utf8(bytes), "accepted {:x?}", bytes);
    }
}

#[test]
fn agrees_with_the_standard_library() {
    // Every window of a byte soup that mixes valid and broken forms.
    let soup: Vec<u8> = [
        b"ascii".as_ref(),
        "δοκιμή".as_bytes(),
        &[0xc0, 0xaf],
        "\u{10ffff}".as_bytes(),
        &[0xed, 0xa0, 0x80],
        &[0xe2, 0x82, 0xac],
    ]
    .concat();
    for start in 0..soup.len() {
        for end in start..=soup.len() {
            let window = &soup[start..end];
            assert_eq!(
                check_utf8(window),
                std::str::from_utf8(window).is_ok(),
                "disagreement on {:x?}",
                window
            );
        }
    }
}
