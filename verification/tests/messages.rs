use ale_rs::error::AleError;

#[test]
fn every_error_has_its_message() {
    assert_eq!(
        AleError::NotLinked.message(),
        "ALE is not linked into this build (set ALE_ROOT to a CMake install prefix)"
    );
    assert_eq!(AleError::ConstructionFailed.message(), "could not construct an ALEInterface");
    assert_eq!(
        AleError::InteriorNul("setting key").message(),
        "setting key contains an interior NUL byte"
    );
    assert_eq!(AleError::NonUtf8Path.message(), "ROM path is not valid UTF-8");
    assert_eq!(
        AleError::ActionOutOfRange(18).message(),
        "ALE action value 18 is outside the PLAYER_A range 0..=17"
    );
    assert_eq!(
        AleError::ActionOutOfRange(-1).message(),
        "ALE action value -1 is outside the PLAYER_A range 0..=17"
    );
    assert_eq!(
        AleError::ActionOutOfRange(i32::MIN).message(),
        "ALE action value -2147483648 is outside the PLAYER_A range 0..=17"
    );
    assert_eq!(AleError::NoRomLoaded.message(), "no ROM is loaded (call load_rom first)");
    assert_eq!(AleError::Ale("boom".to_string()).message(), "ALE error: boom");
}
