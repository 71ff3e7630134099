use klaver_wintertc::fs::{FileSystemSettings, FsError};

#[test]
fn open_without_backend_is_unsupported() {
    let settings: FileSystemSettings<u32> = FileSystemSettings::new();
    let r = settings.resolve_open("a.txt");
    assert!(matches!(r, Err(FsError::NoBackend)));
    assert_eq!(FsError::NoBackend.message(), "No backend configured");
}

#[test]
fn open_without_cwd_uses_the_path_as_given() {
    let settings = FileSystemSettings::new().with_backend(7u32);
    let (backend, path) = settings.resolve_open("./x/../y.txt").unwrap();
    assert_eq!(*backend, 7);
    assert_eq!(path, "./x/../y.txt");
}

#[test]
fn open_resolves_against_the_working_directory() {
    let mut settings = FileSystemSettings::new().with_backend(1u32).with_cwd("foo/bar".to_string());
    assert_eq!(settings.cwd().map(|c| c.as_str()), Some("foo/bar"));
    assert_eq!(settings.resolve_open("../baz.txt").unwrap().1, "foo/baz.txt");
    assert_eq!(settings.resolve_open("./q").unwrap().1, "foo/bar/q");
    settings.set_cwd("../up".to_string());
    assert_eq!(settings.resolve_open("../baz.txt").unwrap().1, "../baz.txt");
    assert_eq!(settings.backend(), Some(&1));
}
