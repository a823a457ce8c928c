use rwops::FileMode;
use rwops::StreamError;
use rwops::parse_mode;

fn flags(read: bool, write: bool, append: bool, truncate: bool, create: bool, binary: bool) -> FileMode {
    FileMode { read, write, append, truncate, create, binary }
}

#[test]
fn parse_mode_decodes_the_classic_modes() {
    assert_eq!(parse_mode("r"), Ok(flags(true, false, false, false, false, false)));
    assert_eq!(parse_mode("w"), Ok(flags(false, true, false, true, true, false)));
    assert_eq!(parse_mode("a"), Ok(flags(false, true, true, false, true, false)));
    assert_eq!(parse_mode("r+"), Ok(flags(true, true, false, false, false, false)));
    assert_eq!(parse_mode("w+"), Ok(flags(true, true, false, true, true, false)));
    assert_eq!(parse_mode("a+"), Ok(flags(true, true, true, false, true, false)));
}

#[test]
fn parse_mode_accepts_the_binary_flag_in_either_order() {
    assert_eq!(parse_mode("rb"), Ok(flags(true, false, false, false, false, true)));
    assert_eq!(parse_mode("wb"), Ok(flags(false, true, false, true, true, true)));
    assert_eq!(parse_mode("ab"), Ok(flags(false, true, true, false, true, true)));
    assert_eq!(parse_mode("r+b"), Ok(flags(true, true, false, false, false, true)));
    assert_eq!(parse_mode("rb+"), Ok(flags(true, true, false, false, false, true)));
    assert_eq!(parse_mode("w+b"), Ok(flags(true, true, false, true, true, true)));
    assert_eq!(parse_mode("ab+"), Ok(flags(true, true, true, false, true, true)));
}

#[test]
fn parse_mode_rejects_the_word_read() {
    assert!(matches!(parse_mode("read"), Err(StreamError::OpenError(_))));
}

#[test]
fn parse_mode_rejects_other_invalid_strings() {
    assert!(matches!(parse_mode(""), Err(StreamError::OpenError(_))));
    assert!(matches!(parse_mode("x"), Err(StreamError::OpenError(_))));
    assert!(matches!(parse_mode("b"), Err(StreamError::OpenError(_))));
    assert!(matches!(parse_mode("+"), Err(StreamError::OpenError(_))));
    assert!(matches!(parse_mode("rr"), Err(StreamError::OpenError(_))));
    assert!(matches!(parse_mode("r++"), Err(StreamError::OpenError(_))));
    assert!(matches!(parse_mode("rbb"), Err(StreamError::OpenError(_))));
    assert!(matches!(parse_mode("wa"), Err(StreamError::OpenError(_))));
}
