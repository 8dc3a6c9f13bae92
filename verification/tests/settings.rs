use dsh_desktop::settings::{load, save, set_engine_dir, SaveOutcome, Settings, StoredSettings};

#[test]
fn stored_settings_are_used_and_others_default() {
    let stored = Settings { engine_dir: Some("C:\\harness".to_string()) };
    assert_eq!(
        load(StoredSettings::Parsed(stored)).engine_dir,
        Some("C:\\harness".to_string())
    );
    assert_eq!(load(StoredSettings::NoConfigDir).engine_dir, None);
    assert_eq!(load(StoredSettings::Unreadable).engine_dir, None);
    assert_eq!(load(StoredSettings::Malformed).engine_dir, None);
    assert_eq!(Settings::default().engine_dir, None);
}

#[test]
fn each_failure_to_save_has_its_message() {
    let e = || "reason".to_string();
    assert_eq!(save(SaveOutcome::Saved), Ok(()));
    assert_eq!(
        save(SaveOutcome::NoConfigDir(e())),
        Err("cannot resolve app config dir: reason".to_string())
    );
    assert_eq!(
        save(SaveOutcome::DirNotCreated(e())),
        Err("cannot create config dir: reason".to_string())
    );
    assert_eq!(
        save(SaveOutcome::NotSerialized(e())),
        Err("cannot serialize settings: reason".to_string())
    );
    assert_eq!(
        save(SaveOutcome::NotWritten(e())),
        Err("cannot write settings: reason".to_string())
    );
}

#[test]
fn a_blank_directory_clears_the_setting() {
    let old = || Settings { engine_dir: Some("/old".to_string()) };
    assert_eq!(
        set_engine_dir(old(), Some("/new".to_string())).engine_dir,
        Some("/new".to_string())
    );
    assert_eq!(set_engine_dir(old(), Some("  ".to_string())).engine_dir, None);
    assert_eq!(set_engine_dir(old(), None).engine_dir, None);
}
