use watchfile::paths::join_path;

#[test]
fn join_puts_one_separator_between_directory_and_name() {
    assert_eq!(join_path("/var/run", "marker"), "/var/run/marker");
    assert_eq!(join_path("relative/dir", "the-watchfile"), "relative/dir/the-watchfile");
}

#[test]
fn join_adds_no_separator_after_a_trailing_one() {
    assert_eq!(join_path("/var/run/", "marker"), "/var/run/marker");
    assert_eq!(join_path("/", "marker"), "/marker");
}

#[test]
fn join_with_empty_directory_is_the_name() {
    assert_eq!(join_path("", "marker"), "marker");
}

#[test]
fn join_with_absolute_name_is_the_name() {
    assert_eq!(join_path("/var/run", "/etc/marker"), "/etc/marker");
    assert_eq!(join_path("", "/marker"), "/marker");
}

#[test]
fn join_with_empty_name_ends_in_a_separator() {
    assert_eq!(join_path("/var/run", ""), "/var/run/");
    assert_eq!(join_path("", ""), "");
}

#[test]
fn join_counts_characters_not_bytes() {
    assert_eq!(join_path("/données/é", "märker"), "/données/é/märker");
    assert_eq!(join_path("é/", "ü"), "é/ü");
}

#[test]
fn join_agrees_with_the_platform_on_these_paths() {
    let cases = [
        ("/var/run", "marker"),
        ("/var/run/", "marker"),
        ("", "marker"),
        ("/a", "/b"),
        ("a", ""),
        ("a//", "b/c"),
        (".", "x"),
    ];
    for (dir, name) in cases {
        let expected = std::path::Path::new(dir).join(name).display().to_string();
        assert_eq!(join_path(dir, name), expected);
    }
}

#[test]
fn join_keeps_the_file_name_on_both_sides() {
    let local = join_path("/home/me/watch", "beat.txt");
    let remote = join_path("/srv/incoming/", "beat.txt");
    assert!(local.ends_with("beat.txt"));
    assert!(remote.ends_with("beat.txt"));
    assert!(local.starts_with("/home/me/watch"));
    assert!(remote.starts_with("/srv/incoming/"));
}
