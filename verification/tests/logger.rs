use ale_rs::logger::{set_logger_mode, LoggerMode, LoggerSetting};

#[test]
fn logger_codes_match_ale() {
    assert_eq!(LoggerMode::Info.code(), 0);
    assert_eq!(LoggerMode::Warning.code(), 1);
    assert_eq!(LoggerMode::Error.code(), 2);
}

#[test]
fn first_construction_quiets_the_logger_once() {
    let mut setting = LoggerSetting::new();
    assert_eq!(setting.on_construction(), Some(LoggerMode::Error));
    assert_eq!(setting.on_construction(), None);
    assert_eq!(setting.on_construction(), None);
}

#[test]
fn an_explicit_choice_opts_out_of_the_default() {
    let mut setting = LoggerSetting::new();
    assert_eq!(set_logger_mode(&mut setting, LoggerMode::Info), LoggerMode::Info);
    assert_eq!(setting.on_construction(), None);
    assert_eq!(set_logger_mode(&mut setting, LoggerMode::Warning), LoggerMode::Warning);
    assert_eq!(setting.on_construction(), None);
}

#[test]
fn an_explicit_choice_after_the_default_still_applies() {
    let mut setting = LoggerSetting::new();
    assert_eq!(setting.on_construction(), Some(LoggerMode::Error));
    assert_eq!(set_logger_mode(&mut setting, LoggerMode::Info), LoggerMode::Info);
    assert_eq!(setting.on_construction(), None);
}
