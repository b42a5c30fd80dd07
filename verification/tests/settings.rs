use filestorage_core::settings::{
    Settings, ADDR_VAR, DATA_DIR_VAR, DEFAULT_ADDR, DEFAULT_DATA_DIR,
};

#[test]
fn unset_values_take_their_defaults() {
    let settings = Settings::from_env(None, None);
    assert_eq!(settings.bind_address, "127.0.0.1:8080");
    assert_eq!(settings.storage_root, "data");
    assert_eq!(DEFAULT_ADDR, "127.0.0.1:8080");
    assert_eq!(DEFAULT_DATA_DIR, "data");
}

#[test]
fn set_values_are_taken_as_they_are() {
    let settings =
        Settings::from_env(Some("0.0.0.0:9000".to_string()), Some("/srv/objects".to_string()));
    assert_eq!(
        settings,
        Settings { bind_address: "0.0.0.0:9000".to_string(), storage_root: "/srv/objects".to_string() }
    );
}

#[test]
fn each_value_falls_back_alone() {
    let settings = Settings::from_env(Some("[::1]:80".to_string()), None);
    assert_eq!(settings.bind_address, "[::1]:80");
    assert_eq!(settings.storage_root, "data");
    let settings = Settings::from_env(None, Some(String::new()));
    assert_eq!(settings.bind_address, "127.0.0.1:8080");
    assert_eq!(settings.storage_root, "");
}

#[test]
fn variable_names() {
    assert_eq!(ADDR_VAR, "FILESTORAGE_ADDR");
    assert_eq!(DATA_DIR_VAR, "FILESTORAGE_DATA_DIR");
}
