use botman::config::{Config, ConfigError};
use botman::path::{
    file_name_of, has_yml_name, join_path, parent_of, rename_to_yaml, to_yaml_name,
};
use botman::status::Status;
use botman::text::{
    chars_of, contains_text, find_char, find_whitespace, is_whitespace_char, piece_end,
    skip_whitespace, str_eq, string_of,
};

#[test]
fn texts_are_compared_by_their_characters() {
    assert!(str_eq("", ""));
    assert!(str_eq("source:", "source:"));
    assert!(!str_eq("source:", "source"));
    assert!(!str_eq("source", "source:"));
    assert!(!str_eq("a\u{e9}", "ae"));
    assert!(str_eq("\u{1F916}", "\u{1F916}"));
}

#[test]
fn characters_and_ranges() {
    let chars = chars_of("a\u{e9}b c");
    assert_eq!(chars, vec!['a', '\u{e9}', 'b', ' ', 'c']);
    assert_eq!(string_of(&chars, 1, 3), "\u{e9}b");
    assert_eq!(string_of(&chars, 2, 2), "");
    assert_eq!(find_char(&chars, 0, ' '), 3);
    assert_eq!(find_char(&chars, 4, ' '), 5);
    assert_eq!(find_char(&chars, 0, 'z'), 5);
    assert_eq!(find_whitespace(&chars, 0), 3);
    assert_eq!(skip_whitespace(&chars, 3), 4);
    assert_eq!(skip_whitespace(&chars, 0), 0);
    let lines = chars_of("ab\ncd\n");
    assert_eq!(piece_end(&lines, 0, '\n'), 3);
    assert_eq!(piece_end(&lines, 3, '\n'), 6);
    assert_eq!(piece_end(&chars_of("ab"), 0, '\n'), 2);
    assert!(contains_text(&vec!["a".to_owned(), "b".to_owned()], "b"));
    assert!(!contains_text(&vec!["a".to_owned(), "b".to_owned()], "ab"));
}

#[test]
fn whitespace_is_unicode_white_space() {
    for c in ['\t', '\n', '\u{b}', '\u{c}', '\r', ' ', '\u{85}', '\u{a0}', '\u{1680}', '\u{2000}',
        '\u{200a}', '\u{2028}', '\u{2029}', '\u{202f}', '\u{205f}', '\u{3000}']
    {
        assert!(is_whitespace_char(c));
        assert!(c.is_whitespace());
    }
    for c in ['a', '0', '\u{8}', '\u{e}', '\u{200b}', '\u{feff}', '\u{180e}', '-'] {
        assert!(!is_whitespace_char(c));
        assert!(!c.is_whitespace());
    }
}

#[test]
fn whitespace_agrees_with_the_standard_library_everywhere() {
    for code in 0u32..0x11_0000 {
        if let Some(c) = char::from_u32(code) {
            assert_eq!(is_whitespace_char(c), c.is_whitespace());
        }
    }
}

#[test]
fn paths_are_joined_with_one_separator() {
    assert_eq!(join_path("/tmp/ws", "packages"), "/tmp/ws/packages");
    assert_eq!(join_path("/tmp/ws/", "packages"), "/tmp/ws/packages");
    assert_eq!(join_path("", "packages"), "packages");
    assert_eq!(join_path("/tmp/ws", "/etc/passwd"), "/etc/passwd");
    assert_eq!(join_path("/tmp/ws", ""), "/tmp/ws/");
}

#[test]
fn file_name_and_parent() {
    assert_eq!(file_name_of("foo/bar/package.yml"), "package.yml");
    assert_eq!(parent_of("foo/bar/package.yml"), "foo/bar");
    assert_eq!(file_name_of("package.yml"), "package.yml");
    assert_eq!(parent_of("package.yml"), "");
    assert_eq!(file_name_of("foo/"), "");
    assert_eq!(parent_of("foo/"), "foo");
    assert_eq!(parent_of("/x"), "");
}

#[test]
fn yml_names_get_the_yaml_extension() {
    assert!(has_yml_name("a/package.yml"));
    assert!(has_yml_name(".yml"));
    assert!(!has_yml_name("a/package.yaml"));
    assert!(!has_yml_name("a/package.YML"));
    assert!(!has_yml_name("yml"));
    assert_eq!(to_yaml_name("package.yml"), "package.yaml");
    assert_eq!(to_yaml_name(".yml"), ".yml.yaml");
    assert_eq!(to_yaml_name("..yml"), "..yaml");
    assert_eq!(to_yaml_name("a.b.yml"), "a.b.yaml");
    assert_eq!(rename_to_yaml("foo/package.yml"), "foo/package.yaml");
    assert_eq!(rename_to_yaml("foo.yml/.yml"), "foo.yml/.yml.yaml");
    assert_eq!(rename_to_yaml("x.yml"), "x.yaml");
}

#[test]
fn yaml_names_agree_with_the_standard_library() {
    for name in ["package.yml", ".yml", "..yml", "a.b.yml", "dir.yml/x.yml", "a/b/.yml"] {
        let mut expected = std::path::PathBuf::from(name);
        expected.set_extension("yaml");
        assert_eq!(rename_to_yaml(name), expected.to_string_lossy());
    }
}

#[test]
fn settings_must_all_be_there() {
    let some = |s: &str| Some(s.to_owned());
    let config = Config::from_vars(some("williambotman"), some("ghp_x"), some("s3cret")).unwrap();
    assert_eq!(config.github_login, "williambotman");
    assert_eq!(config.github_pat, "ghp_x");
    assert_eq!(config.github_webhook_secret, "s3cret");
    assert_eq!(Config::from_vars(None, None, None).unwrap_err(), ConfigError::NoLogin);
    assert_eq!(Config::from_vars(some("a"), None, None).unwrap_err(), ConfigError::NoPat);
    assert_eq!(
        Config::from_vars(some("a"), some("b"), None).unwrap_err(),
        ConfigError::NoWebhookSecret
    );
    assert_eq!(ConfigError::NoLogin.message(), "No GITHUB_LOGIN.");
    assert_eq!(ConfigError::NoPat.message(), "No PAT.");
    assert_eq!(ConfigError::NoWebhookSecret.message(), "No GITHUB_WEBHOOK_SECRET.");
}

#[test]
fn statuses_have_their_codes() {
    let codes: Vec<u16> = [
        Status::NoContent,
        Status::BadRequest,
        Status::Unauthorized,
        Status::Forbidden,
        Status::PayloadTooLarge,
        Status::UnprocessableEntity,
        Status::InternalServerError,
        Status::NotImplemented,
        Status::ServiceUnavailable,
    ]
    .iter()
    .map(|s| s.code())
    .collect();
    assert_eq!(codes, vec![204, 400, 401, 403, 413, 422, 500, 501, 503]);
    assert!(Status::Forbidden.is_unauthorized_class());
    assert!(Status::Unauthorized.is_unauthorized_class());
    assert!(!Status::BadRequest.is_unauthorized_class());
    assert!(Status::BadRequest.is_client_error());
    assert!(!Status::NoContent.is_client_error());
    assert!(!Status::InternalServerError.is_client_error());
}
