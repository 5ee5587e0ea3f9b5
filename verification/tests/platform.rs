use ytdlp_bridge::{get_download_dir, output_template, Host, Platform};

fn host(
    platform: Platform,
    userprofile: Option<&str>,
    xdg_download_dir: Option<&str>,
    home: Option<&str>,
) -> Host {
    Host {
        platform,
        userprofile: userprofile.map(str::to_string),
        xdg_download_dir: xdg_download_dir.map(str::to_string),
        home: home.map(str::to_string),
    }
}

#[test]
fn windows_profile_gets_downloads_appended() {
    let h = host(Platform::Windows, Some("C:\\Users\\alice"), None, None);
    assert_eq!(get_download_dir(&h), Some("C:\\Users\\alice\\Downloads".to_string()));
}

#[test]
fn windows_without_profile_has_no_directory() {
    let h = host(Platform::Windows, None, Some("/mnt/dl"), Some("/home/alice"));
    assert_eq!(get_download_dir(&h), None);
}

#[test]
fn windows_profile_ending_in_separator_gets_no_second_one() {
    let h = host(Platform::Windows, Some("C:\\Users\\alice\\"), None, None);
    assert_eq!(get_download_dir(&h), Some("C:\\Users\\alice\\Downloads".to_string()));
    let h = host(Platform::Windows, Some("C:/Users/alice/"), None, None);
    assert_eq!(get_download_dir(&h), Some("C:/Users/alice/Downloads".to_string()));
}

#[test]
fn xdg_directory_wins_over_home() {
    let h = host(Platform::Unix, None, Some("/mnt/dl"), Some("/home/alice"));
    assert_eq!(get_download_dir(&h), Some("/mnt/dl".to_string()));
}

#[test]
fn xdg_directory_is_returned_verbatim() {
    let h = host(Platform::Unix, None, Some("/mnt/dl/"), None);
    assert_eq!(get_download_dir(&h), Some("/mnt/dl/".to_string()));
    let h = host(Platform::Unix, None, Some(""), Some("/home/alice"));
    assert_eq!(get_download_dir(&h), Some(String::new()));
}

#[test]
fn home_gets_downloads_appended() {
    let h = host(Platform::Unix, Some("C:\\Users\\alice"), None, Some("/home/alice"));
    assert_eq!(get_download_dir(&h), Some("/home/alice/Downloads".to_string()));
}

#[test]
fn home_ending_in_separator_gets_no_second_one() {
    let h = host(Platform::Unix, None, None, Some("/"));
    assert_eq!(get_download_dir(&h), Some("/Downloads".to_string()));
}

#[test]
fn backslash_is_no_separator_on_unix() {
    let h = host(Platform::Unix, None, None, Some("/home/alice\\"));
    assert_eq!(get_download_dir(&h), Some("/home/alice\\/Downloads".to_string()));
}

#[test]
fn empty_home_gives_a_relative_directory() {
    let h = host(Platform::Unix, None, None, Some(""));
    assert_eq!(get_download_dir(&h), Some("Downloads".to_string()));
}

#[test]
fn unix_without_variables_has_no_directory() {
    let h = host(Platform::Unix, Some("C:\\Users\\alice"), None, None);
    assert_eq!(get_download_dir(&h), None);
}

#[test]
fn other_platform_has_no_directory() {
    let h = host(Platform::Other, Some("C:\\Users\\alice"), Some("/mnt/dl"), Some("/home/alice"));
    assert_eq!(get_download_dir(&h), None);
}

#[test]
fn non_ascii_home_is_joined_by_characters() {
    let h = host(Platform::Unix, None, None, Some("/home/zoë"));
    assert_eq!(get_download_dir(&h), Some("/home/zoë/Downloads".to_string()));
}

#[test]
fn template_is_joined_with_the_platform_separator() {
    assert_eq!(output_template(Platform::Unix, "/mnt/dl"), "/mnt/dl/%(title)s.%(ext)s");
    assert_eq!(output_template(Platform::Windows, "D:\\dl"), "D:\\dl\\%(title)s.%(ext)s");
    assert_eq!(output_template(Platform::Other, "dl"), "dl/%(title)s.%(ext)s");
}

#[test]
fn template_in_directory_ending_in_separator() {
    assert_eq!(output_template(Platform::Unix, "/mnt/dl/"), "/mnt/dl/%(title)s.%(ext)s");
    assert_eq!(output_template(Platform::Windows, "D:\\"), "D:\\%(title)s.%(ext)s");
    assert_eq!(output_template(Platform::Unix, ""), "%(title)s.%(ext)s");
}

#[test]
fn host_is_read_from_the_three_variables() {
    let asked = std::cell::RefCell::new(Vec::new());
    let host = Host::read(Platform::Unix, |name| {
        asked.borrow_mut().push(name.to_string());
        match name {
            "USERPROFILE" => Some("C:\\Users\\alice".to_string()),
            "HOME" => Some("/home/alice".to_string()),
            _ => None,
        }
    });
    assert_eq!(host.platform, Platform::Unix);
    assert_eq!(host.userprofile, Some("C:\\Users\\alice".to_string()));
    assert_eq!(host.xdg_download_dir, None);
    assert_eq!(host.home, Some("/home/alice".to_string()));
    let mut names = asked.into_inner();
    names.sort();
    assert_eq!(names, vec!["HOME", "USERPROFILE", "XDG_DOWNLOAD_DIR"]);
    assert_eq!(get_download_dir(&host), Some("/home/alice/Downloads".to_string()));
}

#[test]
fn host_without_variables_has_none() {
    let host = Host::read(Platform::Windows, |_name| None);
    assert_eq!(host, Host { platform: Platform::Windows, userprofile: None, xdg_download_dir: None, home: None });
}
