use ale_rs::error::{AleError, ROM_PATH, SETTING_KEY};
use ale_rs::session::{check_action, check_c_string, path_verdict, Call, LoadStep, Session};

fn post_rom_calls() -> Vec<Call<'static>> {
    vec![
        Call::ResetGame,
        Call::Act { action: 0 },
        Call::GameOver,
        Call::GameTruncated,
        Call::Lives,
        Call::FrameNumber,
        Call::EpisodeFrameNumber,
        Call::MinimalActionSet,
        Call::Screen,
        Call::ScreenGrayscale,
        Call::ScreenRgb,
    ]
}

fn loaded_session() -> Session {
    let mut session = Session::new();
    session.after_load(Ok(()));
    session
}

#[test]
fn pre_rom_calls_are_errors_not_segfaults() {
    let session = Session::new();
    for call in post_rom_calls() {
        assert_eq!(session.check(&call).unwrap_err(), AleError::NoRomLoaded);
    }
}

#[test]
fn an_out_of_range_action_is_rejected_before_reaching_ale() {
    let session = Session::new();
    for action in [-1, 18, 40, 99] {
        assert_eq!(
            session.check(&Call::Act { action }).unwrap_err(),
            AleError::ActionOutOfRange(action)
        );
    }
}

#[test]
fn interior_nul_in_a_setting_key_is_rejected_before_the_abi_boundary() {
    let session = Session::new();
    assert_eq!(
        session.check(&Call::SetInt { key: "random\0seed" }).unwrap_err(),
        AleError::InteriorNul("setting key")
    );
}

#[test]
fn out_of_range_actions_are_rejected_even_with_a_rom() {
    let session = loaded_session();
    for action in [i32::MIN, -1, 18, i32::MAX] {
        assert_eq!(
            session.check(&Call::Act { action }),
            Err(AleError::ActionOutOfRange(action))
        );
    }
    for action in 0..=17 {
        assert_eq!(session.check(&Call::Act { action }), Ok(()));
    }
}

#[test]
fn check_action_accepts_exactly_the_player_a_range() {
    assert_eq!(check_action(0), Ok(()));
    assert_eq!(check_action(17), Ok(()));
    assert_eq!(check_action(18), Err(AleError::ActionOutOfRange(18)));
    assert_eq!(check_action(-1), Err(AleError::ActionOutOfRange(-1)));
}

#[test]
fn settings_calls_are_admitted_without_a_rom() {
    let session = Session::new();
    assert_eq!(session.check(&Call::GetInt { key: "max_num_frames_per_episode" }), Ok(()));
    assert_eq!(session.check(&Call::GetFloat { key: "repeat_action_probability" }), Ok(()));
    assert_eq!(session.check(&Call::SetInt { key: "random_seed" }), Ok(()));
    assert_eq!(session.check(&Call::SetFloat { key: "repeat_action_probability" }), Ok(()));
    assert_eq!(session.check(&Call::SupportedRom { path: "/roms/tetris.bin" }), Ok(()));
    assert_eq!(session.check(&Call::LoadRom { path: "/roms/tetris.bin" }), Ok(()));
    assert_eq!(
        session.check(&Call::GetInt { key: "bad\0key" }),
        Err(AleError::InteriorNul(SETTING_KEY))
    );
    assert_eq!(
        session.check(&Call::GetFloat { key: "\0" }),
        Err(AleError::InteriorNul(SETTING_KEY))
    );
    assert_eq!(
        session.check(&Call::SupportedRom { path: "/roms/\0tetris.bin" }),
        Err(AleError::InteriorNul(ROM_PATH))
    );
}

#[test]
fn post_rom_calls_are_admitted_once_a_rom_is_loaded() {
    let session = loaded_session();
    assert!(session.is_rom_loaded());
    for call in post_rom_calls() {
        assert_eq!(session.check(&call), Ok(()));
    }
}

#[test]
fn check_c_string_rejects_any_nul_byte() {
    assert_eq!(check_c_string("random_seed", SETTING_KEY), Ok(()));
    assert_eq!(check_c_string("", SETTING_KEY), Ok(()));
    assert_eq!(
        check_c_string("seed\0", SETTING_KEY),
        Err(AleError::InteriorNul("setting key"))
    );
    assert_eq!(
        check_c_string("\0path", ROM_PATH),
        Err(AleError::InteriorNul("ROM path"))
    );
}

#[test]
fn require_rom_follows_the_load_state() {
    assert_eq!(Session::new().require_rom(), Err(AleError::NoRomLoaded));
    assert_eq!(loaded_session().require_rom(), Ok(()));
}

#[test]
fn a_load_starts_with_the_support_query() {
    let session = Session::new();
    assert!(matches!(session.begin_load("/roms/tetris.bin"), LoadStep::QuerySupported));
    assert!(matches!(
        session.begin_load("/roms/\0tetris.bin"),
        LoadStep::Finished(Err(AleError::InteriorNul("ROM path")))
    ));
}

#[test]
fn an_unsupported_rom_is_never_loaded() {
    let session = Session::new();
    let missing = AleError::Ale("file not found".to_string());
    match session.after_supported(Err(missing.clone())) {
        LoadStep::Finished(Err(e)) => assert_eq!(e, missing),
        _ => panic!("an unsupported ROM must end the load"),
    }
    assert!(matches!(
        session.after_supported(Ok("tetris".to_string())),
        LoadStep::Load
    ));
    assert!(!session.is_rom_loaded());
}

#[test]
fn a_rom_stays_loaded_after_a_failed_reload() {
    let mut session = Session::new();
    let failed = AleError::Ale("boom".to_string());
    match session.after_load(Err(failed.clone())) {
        LoadStep::Finished(Err(e)) => assert_eq!(e, failed),
        _ => panic!("a failed load ends with its error"),
    }
    assert!(!session.is_rom_loaded());
    assert!(matches!(session.after_load(Ok(())), LoadStep::Finished(Ok(()))));
    assert!(session.is_rom_loaded());
    session.record_load(&Err(failed));
    assert!(session.is_rom_loaded());
    assert_eq!(session.check(&Call::ResetGame), Ok(()));
}

#[test]
fn a_path_must_be_utf8() {
    assert_eq!(path_verdict(Some("/roms/tetris.bin")), Ok("/roms/tetris.bin"));
    assert_eq!(path_verdict(None), Err(AleError::NonUtf8Path));
}
