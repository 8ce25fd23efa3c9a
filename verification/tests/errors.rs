use relay_nav::error::AppError;
use std::str::FromStr;

#[test]
fn io_error_becomes_io() {
    let e = std::io::Error::new(std::io::ErrorKind::NotFound, "no such program");
    assert!(matches!(AppError::from(e), AppError::Io(_)));
}

#[test]
fn utf8_error_becomes_utf8() {
    let e = String::from_utf8(vec![0xc3, 0x28]).unwrap_err();
    assert!(matches!(AppError::from(e), AppError::Utf8(_)));
}

#[test]
fn toml_error_becomes_toml() {
    let e = "colors = ".parse::<toml::Table>().unwrap_err();
    assert!(matches!(AppError::from(e), AppError::Toml(_)));
}

#[test]
fn color_error_becomes_parse_color() {
    let e = ratatui::style::Color::from_str("no such colour").unwrap_err();
    assert!(matches!(AppError::from(e), AppError::ParseColor(_)));
}

#[test]
fn text_variants_hold_their_message() {
    match AppError::Config("bad".to_string()) {
        AppError::Config(m) => assert_eq!(m, "bad"),
        _ => panic!("expected a configuration error"),
    }
    match AppError::Parse("odd".to_string()) {
        AppError::Parse(m) => assert_eq!(m, "odd"),
        _ => panic!("expected a parse error"),
    }
    assert!(format!("{:?}", AppError::Command("exit status: 2".to_string())).contains("exit status: 2"));
}
