use echidnabot::error::Error;
use echidnabot::text::{
    chars_of, concat2, concat3, copy_option, copy_strings, find_first, find_last, has_infix,
    has_prefix, has_suffix, list_contains, push_decimal, push_joined, same_text, str_contains,
    str_replace, string_of, string_of_range, trim_trailing,
};

#[test]
fn characters_and_back() {
    let v = chars_of("héllo");
    assert_eq!(v, vec!['h', 'é', 'l', 'l', 'o']);
    assert_eq!(string_of(&v), "héllo");
    assert_eq!(string_of_range(&v, 1, 3), "él");
    assert_eq!(string_of_range(&v, 2, 2), "");
    assert!(chars_of("").is_empty());
}

#[test]
fn searching() {
    let s = chars_of("abcabc");
    assert!(has_prefix(&s, &chars_of("abc")));
    assert!(has_prefix(&s, &chars_of("")));
    assert!(!has_prefix(&s, &chars_of("bc")));
    assert!(has_suffix(&s, &chars_of("cabc")));
    assert!(!has_suffix(&s, &chars_of("abcabca")));
    assert!(has_infix(&s, &chars_of("ca")));
    assert!(has_infix(&s, &chars_of("")));
    assert!(!has_infix(&s, &chars_of("cc")));
    assert!(has_infix(&chars_of(""), &chars_of("")));
    assert!(!has_infix(&chars_of(""), &chars_of("a")));
    assert_eq!(find_first(&s, 'b'), Some(1));
    assert_eq!(find_last(&s, 'b'), Some(4));
    assert_eq!(find_first(&s, 'z'), None);
    assert_eq!(find_last(&s, 'z'), None);
    assert!(str_contains("a rate limit", "rate limit"));
    assert!(same_text("x", "x"));
    assert!(!same_text("x", "X"));
    assert!(!same_text("x", "xy"));
    assert!(list_contains(&vec!["a".to_string(), "b".to_string()], "b"));
    assert!(!list_contains(&vec![], "b"));
}

#[test]
fn building() {
    let mut s = String::from("n=");
    push_decimal(&mut s, 0);
    assert_eq!(s, "n=0");
    for (n, text) in [(7u64, "7"), (10, "10"), (2048, "2048"), (u64::MAX, "18446744073709551615")] {
        let mut s = String::new();
        push_decimal(&mut s, n);
        assert_eq!(s, text);
    }
    let mut s = String::from(">");
    push_joined(&mut s, &vec!["a".to_string(), "b".to_string(), "c".to_string()], ", ");
    assert_eq!(s, ">a, b, c");
    let mut s = String::new();
    push_joined(&mut s, &vec![], ", ");
    assert_eq!(s, "");
    push_joined(&mut s, &vec!["only".to_string()], ", ");
    assert_eq!(s, "only");
    assert_eq!(concat2("a", "b"), "ab");
    assert_eq!(concat3("a", "/", "b"), "a/b");
    assert_eq!(copy_strings(&vec!["x".to_string()]), vec!["x".to_string()]);
    assert_eq!(copy_option(&Some("x".to_string())), Some("x".to_string()));
    assert_eq!(copy_option(&None), None);
}

#[test]
fn replacing_and_trimming() {
    assert_eq!(str_replace("a b  c", " ", "-"), "a-b--c");
    assert_eq!(str_replace("aaa", "aa", "b"), "ba");
    assert_eq!(str_replace("abc", "abcd", "x"), "abc");
    assert_eq!(str_replace("", "a", "x"), "");
    assert_eq!(str_replace("xyz", "y", ""), "xz");
    assert_eq!(str_replace("abc", "", "-"), "-a-b-c-");
    assert_eq!(str_replace("", "", "-"), "-");
    assert_eq!(trim_trailing("a//", '/'), "a");
    assert_eq!(trim_trailing("/a/b", '/'), "/a/b");
    assert_eq!(trim_trailing("", '/'), "");
}

#[test]
fn errors_carry_their_text() {
    assert_eq!(Error::Config("c".to_string()).message(), "c");
    assert_eq!(Error::InvalidInput("i".to_string()).message(), "i");
    assert_eq!(Error::RepoNotFound("r".to_string()).message(), "r");
    assert_eq!(Error::JobNotFound(3).message(), "");
    assert_eq!(Error::InvalidProver("p".to_string()).message(), "p");
    assert_eq!(Error::Unsupported("u".to_string()).message(), "u");
    assert_eq!(Error::Http("h".to_string()).message(), "h");
    assert_eq!(Error::Sqlx("s".to_string()).message(), "s");
    assert_eq!(Error::Io("io".to_string()).message(), "io");
    assert_eq!(Error::Bitbucket("b".to_string()).message(), "b");
    assert_eq!(Error::GitLab("g".to_string()).message(), "g");
    assert_eq!(Error::GitHub("gh".to_string()).message(), "gh");
    assert_eq!(Error::Echidna("e".to_string()).message(), "e");
    assert_eq!(Error::Internal("x".to_string()).message(), "x");
}
