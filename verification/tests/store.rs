use googauth_lib::config_file::{join, DIRECTORY_MODE, FILE_MODE};
use googauth_lib::{
    save_next, ConfigBasePath, ConfigFile, LibError, ReadOutcome, SaveNext, SaveStep, StoreEntry,
    Token,
};

fn work() -> ConfigFile {
    ConfigFile::new(
        "work",
        "client-1",
        "secret-1",
        &["openid".to_string(), "email".to_string()],
        "http://localhost:8080/",
    )
}

fn io_error() -> std::io::Error {
    std::io::Error::new(std::io::ErrorKind::PermissionDenied, "denied")
}

#[test]
fn new_record_has_no_tokens() {
    let config = work();
    assert_eq!(config.version, 1);
    assert_eq!(config.name, "work");
    assert_eq!(config.client_id, "client-1");
    assert_eq!(config.client_secret, "secret-1");
    assert_eq!(config.scopes, vec!["openid".to_string(), "email".to_string()]);
    assert_eq!(config.redirect_url, "http://localhost:8080/");
    assert!(config.refresh_token.is_none());
    assert!(config.id_token.is_none());
    assert!(config.access_token.is_none());
}

#[test]
fn new_record_keeps_scope_order_and_empty_scopes() {
    let config = ConfigFile::new("p", "i", "s", &["b".to_string(), "a".to_string()], "u");
    assert_eq!(config.scopes, vec!["b".to_string(), "a".to_string()]);
    let none = ConfigFile::new("p", "i", "s", &[], "u");
    assert!(none.scopes.is_empty());
}

#[test]
fn token_new_and_clone() {
    let token = Token::new("abc".to_string(), 42);
    assert_eq!(token.secret, "abc");
    assert_eq!(token.exp, 42);
    let copy = token.clone();
    assert_eq!(copy.secret, "abc");
    assert_eq!(copy.exp, 42);
}

#[test]
fn join_puts_one_separator() {
    assert_eq!(join("/home/u/.googauth", "work"), "/home/u/.googauth/work");
    assert_eq!(join("/home/u/.googauth/", "work"), "/home/u/.googauth/work");
    assert_eq!(join("", "work"), "work");
    assert_eq!(join("/", "work"), "/work");
    assert_eq!(join("base", ""), "base/");
    assert_eq!(join("rel", "a/b"), "rel/a/b");
}

#[test]
fn join_with_rooted_name_is_the_name() {
    assert_eq!(join("/home/u/.googauth", "/etc/passwd"), "/etc/passwd");
    assert_eq!(join("", "/x"), "/x");
}

#[test]
fn join_counts_characters_not_bytes() {
    assert_eq!(join("/home/\u{e9}", "w\u{f6}rk"), "/home/\u{e9}/w\u{f6}rk");
    assert_eq!(join("/home/\u{e9}/", "w"), "/home/\u{e9}/w");
}

#[test]
fn config_file_is_name_under_base() {
    let base = ConfigBasePath::from("/home/u/.googauth".to_string());
    assert_eq!(base.as_str(), "/home/u/.googauth");
    let path = ConfigFile::config_file("work", &base).unwrap();
    assert_eq!(path, "/home/u/.googauth/work");
}

#[test]
fn default_directory_is_under_home() {
    let base = ConfigBasePath::in_home(Some("/home/u".to_string())).unwrap();
    assert_eq!(base.as_str(), "/home/u/.googauth");
    assert!(matches!(ConfigBasePath::in_home(None), Err(LibError::HomeDirectoryNotFound)));
}

#[test]
fn default_agrees_with_googauth_dir() {
    match (ConfigBasePath::default(), ConfigFile::googauth_dir()) {
        (Ok(base), Some(dir)) => {
            assert_eq!(base.as_str(), dir);
            assert!(dir.ends_with(".googauth"));
            let file = ConfigFile::googauth_file("work").unwrap();
            assert_eq!(file, join(&dir, "work"));
        }
        (Err(LibError::HomeDirectoryNotFound), None) | (Err(LibError::FilenameError), None) => {
            assert!(ConfigFile::googauth_file("work").is_none());
        }
        _ => panic!("the two disagree"),
    }
}

#[test]
fn list_skips_file_with_invalid_content() {
    let base = ConfigBasePath::from("/b".to_string());
    let entries = vec![
        Ok(StoreEntry { is_file: true, file_name: Some("work".to_string()), config: Some(work()) }),
        Ok(StoreEntry { is_file: true, file_name: Some("junk".to_string()), config: None }),
    ];
    let listed = ConfigFile::list_configs(&base, true, entries).unwrap();
    assert_eq!(listed.len(), 1);
    assert_eq!(listed[0].name, "work");
}

#[test]
fn list_keeps_order_and_passes_over_directories() {
    let base = ConfigBasePath::from("/b".to_string());
    let a = ConfigFile::new("a", "i", "s", &[], "u");
    let b = ConfigFile::new("b", "i", "s", &[], "u");
    let hidden = ConfigFile::new("hidden", "i", "s", &[], "u");
    let entries = vec![
        Ok(StoreEntry { is_file: true, file_name: Some("b".to_string()), config: Some(b) }),
        Ok(StoreEntry { is_file: false, file_name: None, config: Some(hidden) }),
        Ok(StoreEntry { is_file: true, file_name: Some("a".to_string()), config: Some(a) }),
    ];
    let listed = ConfigFile::list_configs(&base, true, entries).unwrap();
    let names: Vec<&str> = listed.iter().map(|c| c.name.as_str()).collect();
    assert_eq!(names, vec!["b", "a"]);
}

#[test]
fn list_of_empty_directory_is_empty() {
    let base = ConfigBasePath::from("/b".to_string());
    let listed = ConfigFile::list_configs(&base, true, Vec::new()).unwrap();
    assert!(listed.is_empty());
}

#[test]
fn list_fails_where_base_is_no_directory() {
    let base = ConfigBasePath::from("/b".to_string());
    let entries = vec![Ok(StoreEntry {
        is_file: true,
        file_name: Some("work".to_string()),
        config: Some(work()),
    })];
    match ConfigFile::list_configs(&base, false, entries) {
        Err(LibError::ConfigsDirectoryNotADirectory(path)) => assert_eq!(path, "/b"),
        other => panic!("unexpected: {:?}", other),
    }
}

#[test]
fn list_fails_on_entry_that_could_not_be_read() {
    let base = ConfigBasePath::from("/b".to_string());
    let entries = vec![
        Ok(StoreEntry { is_file: true, file_name: Some("work".to_string()), config: Some(work()) }),
        Err(io_error()),
        Ok(StoreEntry { is_file: true, file_name: None, config: None }),
    ];
    match ConfigFile::list_configs(&base, true, entries) {
        Err(LibError::IoError(e)) => assert_eq!(e.kind(), std::io::ErrorKind::PermissionDenied),
        other => panic!("unexpected: {:?}", other),
    }
}

#[test]
fn list_skips_file_whose_name_is_no_text() {
    let base = ConfigBasePath::from("/b".to_string());
    let after = ConfigFile::new("after", "i", "s", &[], "u");
    let entries = vec![
        Ok(StoreEntry { is_file: true, file_name: Some("work".to_string()), config: Some(work()) }),
        Ok(StoreEntry { is_file: true, file_name: None, config: None }),
        Ok(StoreEntry { is_file: true, file_name: None, config: Some(work()) }),
        Ok(StoreEntry { is_file: true, file_name: Some("after".to_string()), config: Some(after) }),
    ];
    let listed = ConfigFile::list_configs(&base, true, entries).unwrap();
    let names: Vec<&str> = listed.iter().map(|c| c.name.as_str()).collect();
    assert_eq!(names, vec!["work", "after"]);
}

#[test]
fn list_of_corrupt_and_foreign_files_only_is_empty_not_an_error() {
    let base = ConfigBasePath::from("/b".to_string());
    let entries = vec![
        Ok(StoreEntry { is_file: true, file_name: Some("empty".to_string()), config: None }),
        Ok(StoreEntry { is_file: true, file_name: None, config: None }),
        Ok(StoreEntry { is_file: false, file_name: Some("dir".to_string()), config: None }),
        Ok(StoreEntry { is_file: true, file_name: Some("binary".to_string()), config: None }),
    ];
    let listed = ConfigFile::list_configs(&base, true, entries).unwrap();
    assert!(listed.is_empty());
}

#[test]
fn read_config_names_each_failure() {
    match ConfigFile::read_config("work", ReadOutcome::NoDirectory) {
        Err(LibError::NoSuchConfiguration(name)) => assert_eq!(name, "work"),
        other => panic!("unexpected: {:?}", other),
    }
    assert!(matches!(
        ConfigFile::read_config("work", ReadOutcome::Unreadable(io_error())),
        Err(LibError::IoError(_))
    ));
    let json = serde_json::from_str::<serde_json::Value>("{").unwrap_err();
    assert!(matches!(
        ConfigFile::read_config("work", ReadOutcome::Malformed(json)),
        Err(LibError::JsonError(_))
    ));
    let config = ConfigFile::read_config("work", ReadOutcome::Record(work())).unwrap();
    assert_eq!(config.name, "work");
    assert_eq!(config.client_id, "client-1");
}

#[test]
fn save_closes_directory_and_file_before_writing() {
    let base = ConfigBasePath::from("/home/u/.googauth".to_string());
    let steps = work().save_config(&base, true);
    assert_eq!(steps.len(), 5);
    assert!(matches!(&steps[0], SaveStep::CreateDirectories(p) if p == "/home/u/.googauth"));
    assert!(matches!(&steps[1], SaveStep::SetPermissions { path, mode }
        if path == "/home/u/.googauth" && *mode == 0o700));
    assert!(matches!(&steps[2], SaveStep::CreateFile(p) if p == "/home/u/.googauth/work"));
    assert!(matches!(&steps[3], SaveStep::SetPermissions { path, mode }
        if path == "/home/u/.googauth/work" && *mode == 0o600));
    assert!(matches!(&steps[4], SaveStep::WriteRecord(p) if p == "/home/u/.googauth/work"));
}

#[test]
fn save_without_permission_bits_sets_none() {
    let base = ConfigBasePath::from("/b".to_string());
    let steps = work().save_config(&base, false);
    assert_eq!(steps.len(), 3);
    assert!(matches!(&steps[0], SaveStep::CreateDirectories(p) if p == "/b"));
    assert!(matches!(&steps[1], SaveStep::CreateFile(p) if p == "/b/work"));
    assert!(matches!(&steps[2], SaveStep::WriteRecord(p) if p == "/b/work"));
}

#[test]
fn modes_are_owner_only() {
    assert_eq!(DIRECTORY_MODE, 0o700);
    assert_eq!(FILE_MODE, 0o600);
    assert_eq!(DIRECTORY_MODE & 0o077, 0);
    assert_eq!(FILE_MODE & 0o077, 0);
}

#[test]
fn save_performs_each_step_in_turn_and_then_succeeds() {
    let base = ConfigBasePath::from("/b".to_string());
    let steps = work().save_config(&base, true);
    for done in 0..5 {
        assert!(matches!(save_next(&steps, done, None), SaveNext::Perform(step) if step == done));
    }
    assert!(matches!(save_next(&steps, 5, None), SaveNext::Finished(Ok(()))));
    assert!(matches!(save_next(&steps, 6, None), SaveNext::Finished(Ok(()))));
    assert!(matches!(save_next(&Vec::new(), 0, None), SaveNext::Finished(Ok(()))));
}

#[test]
fn failed_step_ends_save_with_its_error() {
    let base = ConfigBasePath::from("/b".to_string());
    let steps = work().save_config(&base, true);
    for done in 0..7 {
        match save_next(&steps, done, Some(io_error())) {
            SaveNext::Finished(Err(LibError::IoError(e))) => {
                assert_eq!(e.kind(), std::io::ErrorKind::PermissionDenied)
            }
            other => panic!("unexpected: {:?}", other),
        }
    }
}

#[test]
fn failed_write_is_an_io_error() {
    let base = ConfigBasePath::from("/b".to_string());
    let steps = work().save_config(&base, true);
    assert!(matches!(&steps[4], SaveStep::WriteRecord(_)));
    let full = std::io::Error::new(std::io::ErrorKind::WriteZero, "disk full");
    match save_next(&steps, 4, Some(full)) {
        SaveNext::Finished(Err(LibError::IoError(e))) => {
            assert_eq!(e.kind(), std::io::ErrorKind::WriteZero)
        }
        other => panic!("unexpected: {:?}", other),
    }
}
