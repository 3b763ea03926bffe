use symfetch::config_handler::AsciiConfig;
use symfetch::util::path_utils::{get_path, join};

#[test]
fn test_ascii_path() {
    let home = "/home/ada";
    let path = join(&join(home, ".config"), "symfetch/ascii");

    let ascii_config = AsciiConfig::new("~/.config/symfetch/ascii", home);

    assert_eq!(get_path(&ascii_config.path, home), path)
}

#[test]
fn shorthand_is_taken_below_the_home_directory() {
    assert_eq!(get_path("~/.config/symfetch/ascii", "/home/ada"), "/home/ada/.config/symfetch/ascii");
}

#[test]
fn path_without_shorthand_is_unchanged() {
    assert_eq!(get_path("/etc/symfetch/ascii", "/home/ada"), "/etc/symfetch/ascii");
    assert_eq!(get_path("ascii", "/home/ada"), "ascii");
    assert_eq!(get_path("", "/home/ada"), "");
    assert_eq!(get_path("~/.config", "/home/ada"), "~/.config");
    assert_eq!(get_path("~/.confi/g/", "/home/ada"), "~/.confi/g/");
}

#[test]
fn home_with_a_trailing_separator_gets_no_second_one() {
    assert_eq!(get_path("~/.config/art", "/home/ada/"), "/home/ada/.config/art");
}

#[test]
fn empty_home_gives_a_relative_path() {
    assert_eq!(get_path("~/.config/art", ""), ".config/art");
}

#[test]
fn shorthand_inside_the_path_is_no_shorthand() {
    assert_eq!(get_path("data/~/.config/x", "/home/u"), "data/~/.config/x");
    assert_eq!(get_path("/srv/~/.config/art", "/home/ada"), "/srv/~/.config/art");
    assert_eq!(get_path("x~/.config/y", "/h"), "x~/.config/y");
    assert_eq!(get_path(" ~/.config/y", "/h"), " ~/.config/y");
}

#[test]
fn only_the_leading_shorthand_is_expanded() {
    assert_eq!(get_path("~/.config/a/~/.config/b", "/home/ada"), "/home/ada/.config/a/~/.config/b");
}

#[test]
fn shorthand_alone_names_the_configuration_directory() {
    assert_eq!(get_path("~/.config/", "/home/ada"), "/home/ada/.config/");
}

#[test]
fn absolute_remainder_stands_for_itself() {
    assert_eq!(get_path("~/.config//etc/art", "/home/ada"), "/etc/art");
}

#[test]
fn shorthand_is_matched_by_characters_not_bytes() {
    assert_eq!(get_path("~/.config/símbolo/日本", "/home/ada"), "/home/ada/.config/símbolo/日本");
    assert_eq!(get_path("é~/.config/ü", "/home/ñ"), "é~/.config/ü");
    assert_eq!(get_path("~/.config/ü", "/home/ñ"), "/home/ñ/.config/ü");
}

#[test]
fn join_follows_the_separator_rules() {
    assert_eq!(join("/home/ada", ".config"), "/home/ada/.config");
    assert_eq!(join("/home/ada/", ".config"), "/home/ada/.config");
    assert_eq!(join("", ".config"), ".config");
    assert_eq!(join("/home/ada", "/etc"), "/etc");
    assert_eq!(join("/home/ada", ""), "/home/ada/");
}
