use fedik::cli::{is_quit_key, validate_args, Args, ArgsError, KeyInput};

fn args() -> Args {
    Args {
        show_seconds: false,
        ms_digits: None,
        show_date: false,
        show_week: false,
        center: false,
        bold: false,
        hour_12: false,
        utc: false,
        format: None,
    }
}

#[test]
fn validate_args_accepts_implemented_options() {
    assert_eq!(validate_args(&args()), Ok(()));
}

#[test]
fn validate_args_refuses_hour_12_first() {
    let mut a = args();
    a.hour_12 = true;
    a.format = Some("%Y".to_string());
    assert_eq!(validate_args(&a), Err(ArgsError::Hour12NotImplemented));
    assert_eq!(ArgsError::Hour12NotImplemented.message(), "--hour-12 is not implemented yet");
}

#[test]
fn validate_args_refuses_format() {
    let mut a = args();
    a.format = Some("%Y".to_string());
    assert_eq!(validate_args(&a), Err(ArgsError::FormatNotImplemented));
    assert_eq!(ArgsError::FormatNotImplemented.message(), "--format is not implemented yet");
}

#[test]
fn quit_keys() {
    assert!(is_quit_key(KeyInput::Char('q'), true));
    assert!(is_quit_key(KeyInput::Esc, true));
    assert!(!is_quit_key(KeyInput::Char('q'), false));
    assert!(!is_quit_key(KeyInput::Char('Q'), true));
    assert!(!is_quit_key(KeyInput::Other, true));
}
