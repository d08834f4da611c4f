use mc_launcher::template::Vars;
use mc_launcher::text::{join, last_piece, replace_all, split_char, str_eq};

fn vars(pairs: &[(&str, &str)]) -> Vars {
    let mut v = Vars::new();
    for (k, x) in pairs {
        v.insert(k, x);
    }
    v
}

#[test]
fn substitute_single_placeholder() {
    let v = vars(&[("classpath", "/a:/b")]);
    assert_eq!(mc_launcher::template::format("${classpath}", &v), "/a:/b");
}

#[test]
fn substitute_missing_variable_gives_null() {
    let v = vars(&[]);
    assert_eq!(mc_launcher::template::format("${missing}", &v), "null");
}

#[test]
fn substitute_plain_text_unchanged() {
    let v = vars(&[]);
    assert_eq!(mc_launcher::template::format("plain", &v), "plain");
}

#[test]
fn substitute_only_first_of_two_placeholders() {
    let v = vars(&[("a", "1"), ("b", "2")]);
    assert_eq!(mc_launcher::template::format("${a}-${b}", &v), "1-${b}");
}

#[test]
fn substitute_keeps_surrounding_text() {
    let v = vars(&[("natives_directory", "/x/natives")]);
    assert_eq!(
        mc_launcher::template::format("-Djava.library.path=${natives_directory}!", &v),
        "-Djava.library.path=/x/natives!"
    );
}

#[test]
fn substitute_unclosed_placeholder_unchanged() {
    let v = vars(&[("a", "1")]);
    assert_eq!(mc_launcher::template::format("x${a", &v), "x${a");
}

#[test]
fn later_binding_wins() {
    let v = vars(&[("a", "1"), ("a", "2")]);
    assert_eq!(v.get("a").map(|s| s.as_str()), Some("2"));
    assert_eq!(v.get("b"), None);
}

#[test]
fn replace_all_occurrences() {
    assert_eq!(replace_all("natives-windows-${arch}", "${arch}", "64"), "natives-windows-64");
    assert_eq!(replace_all("${arch}${arch}", "${arch}", "32"), "3232");
    assert_eq!(replace_all("none", "${arch}", "32"), "none");
}

#[test]
fn split_on_space_keeps_empty_pieces() {
    assert_eq!(split_char("--a b", ' '), vec!["--a".to_string(), "b".to_string()]);
    assert_eq!(split_char("a  b", ' '), vec!["a".to_string(), "".to_string(), "b".to_string()]);
    assert_eq!(split_char("", ' '), vec!["".to_string()]);
}

#[test]
fn last_piece_after_dash() {
    assert_eq!(last_piece("1.12.2-forge-14.23.5.2860", '-'), "14.23.5.2860");
    assert_eq!(last_piece("plain", '-'), "plain");
}

#[test]
fn join_with_separator() {
    let parts = vec!["a".to_string(), "b".to_string(), "c".to_string()];
    assert_eq!(join(&parts, ":"), "a:b:c");
    assert_eq!(join(&Vec::new(), ":"), "");
}

#[test]
fn string_equality() {
    assert!(str_eq("abc", "abc"));
    assert!(!str_eq("abc", "abd"));
    assert!(!str_eq("abc", "ab"));
}
