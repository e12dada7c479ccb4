use lunvix::model::Platform;
use lunvix::paths::{base_directory, hidden_status, normalize_path};
use lunvix::text::{str_eq, to_ascii_lower};

#[test]
fn normalize_strips_verbatim_prefix_on_unix() {
    assert_eq!(normalize_path(r"\\?\/home/user/a.txt", Platform::Linux), "/home/user/a.txt");
    assert_eq!(normalize_path("/home/user/a.txt", Platform::Linux), "/home/user/a.txt");
    assert_eq!(normalize_path("C:/Users", Platform::MacOs), "C:/Users");
}

#[test]
fn normalize_windows_backslashes_and_drive_letter() {
    assert_eq!(normalize_path(r"\\?\c:/Users/Me/file.txt", Platform::Windows), r"C:\Users\Me\file.txt");
    assert_eq!(normalize_path("d:", Platform::Windows), "D:");
    assert_eq!(normalize_path("relative/dir", Platform::Windows), r"relative\dir");
    assert_eq!(normalize_path("é:/x", Platform::Windows), r"é:\x");
    assert_eq!(normalize_path("", Platform::Windows), "");
}

#[test]
fn normalize_twice_is_normalize_once() {
    for p in [r"\\?\c:/a/b", "/usr/lib", r"x:\y/z", "plain"] {
        for platform in [Platform::Windows, Platform::Linux] {
            let once = normalize_path(p, platform);
            assert_eq!(normalize_path(&once, platform), once);
        }
    }
    let nested = r"\\?\\\?\x";
    let once = normalize_path(nested, Platform::Linux);
    assert_eq!(once, r"\\?\x");
    assert_ne!(normalize_path(&once, Platform::Linux), once);
}

#[test]
fn base_directory_per_platform() {
    assert_eq!(base_directory(Platform::Windows), "C:\\");
    assert_eq!(base_directory(Platform::Linux), "/");
    assert_eq!(base_directory(Platform::MacOs), "/");
}

#[test]
fn hidden_by_leading_dot_or_attribute() {
    assert!(hidden_status("/home/u/.bashrc", None));
    assert!(!hidden_status("/home/u/notes.txt", None));
    assert!(!hidden_status("/", None));
    assert!(hidden_status("/home/u/notes.txt", Some(true)));
    assert!(!hidden_status("/home/u/.bashrc", Some(false)));
}

#[test]
fn ascii_lowercase_keeps_other_characters() {
    assert_eq!(to_ascii_lower("/Home/ÄBC/X.TXT"), "/home/Äbc/x.txt");
    assert!(str_eq("abc", "abc"));
    assert!(!str_eq("abc", "abd"));
    assert!(!str_eq("ab", "abc"));
}
