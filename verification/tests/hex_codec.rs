use color_changer::cmyk::CMYK;
use color_changer::hex::{format_hex, parse_hex};
use color_changer::rgb::RGB;
use color_changer::{Color, ColorExt, ColorParseError};

#[test]
fn from_hex_reads_red_green_blue() {
    assert_eq!(RGB::from_hex("#EDBBF3").unwrap(), RGB::new(0xED, 0xBB, 0xF3));
    assert_eq!(RGB::from_hex("EDBBF3").unwrap(), RGB::new(237, 187, 243));
    assert_eq!(RGB::from_hex("#000000").unwrap(), RGB::black());
    assert_eq!(RGB::from_hex("FFFFFF").unwrap(), RGB::white());
    assert_eq!(RGB::from_hex("#0a0B0c").unwrap(), RGB::new(10, 11, 12));
    assert_eq!(RGB::from_hex("abcdef").unwrap(), RGB::new(0xAB, 0xCD, 0xEF));
    assert_eq!(RGB::from_hex("#FFABCD").unwrap(), RGB::new(0xFF, 0xAB, 0xCD));
    assert_eq!(RGB::from_hex("ABFFED").unwrap(), RGB::new(0xAB, 0xFF, 0xED));
    assert_eq!(parse_hex("#102030").unwrap(), RGB::new(0x10, 0x20, 0x30));
}

#[test]
fn from_hex_builds_the_requested_type() {
    let c = CMYK::from_hex("#EDBBF3").unwrap();
    assert_eq!(c, CMYK::from_rgb(RGB::new(0xED, 0xBB, 0xF3)));
    assert_eq!(c.to_string(), "(0.02,0.23,0.00,0.05)");
    assert_eq!(CMYK::from_hex("000000").unwrap(), CMYK::black());
}

#[test]
fn from_hex_rejects_malformed_input() {
    for s in [
        "not a color",
        "",
        "#",
        "#12345",
        "12345",
        "1234567",
        "#1234567",
        "12345G",
        "#12345g",
        "##123456",
        "#12#456",
        " #123456",
        "#123456 ",
        "#123456\n",
        "0x123456",
        "+12345",
        "#+1+2+3",
        "xx#EDBBF3yy",
        "#EDBBF3EDBBF3",
        "\u{e9}23456",
        "#12345\u{ff11}",
    ] {
        assert!(matches!(RGB::from_hex(s), Err(ColorParseError::BadInput)), "{:?}", s);
        assert!(matches!(CMYK::from_hex(s), Err(ColorParseError::BadInput)), "{:?}", s);
        assert!(matches!(parse_hex(s), Err(ColorParseError::BadInput)), "{:?}", s);
    }
}

#[test]
fn parse_failure_carries_its_cause() {
    let cause = "x".parse::<u8>().unwrap_err();
    match ColorParseError::from(cause.clone()) {
        ColorParseError::ParseFailure(inner) => assert_eq!(inner, cause),
        ColorParseError::BadInput => panic!("the cause was dropped"),
    }
    let copy = ColorParseError::from(cause.clone()).clone();
    assert!(matches!(copy, ColorParseError::ParseFailure(inner) if inner == cause));
    assert!(matches!(ColorParseError::BadInput.clone(), ColorParseError::BadInput));
}

#[test]
fn rgb_text_is_six_upper_case_digits() {
    assert_eq!(RGB::new(0, 0, 0).to_string(), "000000");
    assert_eq!(RGB::new(255, 255, 255).to_string(), "FFFFFF");
    assert_eq!(RGB::new(1, 10, 160).to_string(), "010AA0");
    assert_eq!(RGB::new(0xED, 0xBB, 0xF3).to_string(), "EDBBF3");
    assert_eq!(format_hex(RGB::new(0x9F, 0x0F, 0xF0)), "9F0FF0");
}

#[test]
fn as_hex_is_the_text_of_the_rgb_value() {
    assert_eq!(RGB::new(0xED, 0xBB, 0xF3).as_hex(), "EDBBF3");
    assert_eq!(CMYK::black().as_hex(), "000000");
    assert_eq!(CMYK::white().as_hex(), "FFFFFF");
    assert_eq!(CMYK::from_parts([1618, 15103, 0, 3084]).as_hex(), "EDBBF3");
}

#[test]
fn hex_text_parses_back() {
    for r in (0..=255u8).step_by(5) {
        for g in (0..=255u8).step_by(17) {
            for b in [0u8, 9, 10, 15, 16, 159, 160, 255] {
                let x = RGB::new(r, g, b);
                assert_eq!(RGB::from_hex(&x.as_hex()).unwrap(), x);
                assert_eq!(RGB::from_hex(&format!("#{}", x.to_string().to_lowercase())).unwrap(), x);
            }
        }
    }
}
