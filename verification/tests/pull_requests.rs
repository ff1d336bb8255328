use aelita_github::pr::{Pr, Repo};
use aelita_github::text::{contains, decimal_text, same_bytes, same_text};
use std::str::FromStr;

#[test]
fn numbers_in_decimal() {
    assert_eq!(decimal_text(0), "0");
    assert_eq!(decimal_text(9), "9");
    assert_eq!(decimal_text(10), "10");
    assert_eq!(decimal_text(1234567890), "1234567890");
    assert_eq!(decimal_text(u32::MAX), "4294967295");
}

#[test]
fn pull_request_texts() {
    assert_eq!(Pr(17).to_string(), "17");
    assert_eq!(Pr(17).remote(), "pull/17/head");
    let text: String = Pr(17).into();
    assert_eq!(text, "17");
}

#[test]
fn pull_request_text_reads_back() {
    for n in [0u32, 1, 9, 10, 99, 100, 65536, u32::MAX] {
        let text: String = Pr(n).into();
        assert_eq!(Pr::from_str(&text).unwrap(), Pr(n));
        assert_eq!(Pr::from_str(&Pr(n).to_string()).unwrap(), Pr(n));
    }
}

#[test]
fn pull_request_from_text() {
    assert_eq!(Pr::from_str("42").unwrap(), Pr(42));
    assert_eq!(Pr::from_str("+42").unwrap(), Pr(42));
    assert_eq!(Pr::from_str("0042").unwrap(), Pr(42));
    assert_eq!("4294967295".parse::<Pr>().unwrap(), Pr(u32::MAX));
    for bad in ["", "+", "-1", "-0", " 1", "1 ", "1_0", "x", "4294967296", "++1", "\u{661}"] {
        assert!(Pr::from_str(bad).is_err(), "{}", bad);
    }
}

#[test]
fn remote_names_of_different_pull_requests() {
    assert_ne!(Pr(1).remote(), Pr(11).remote());
    assert_ne!(Pr(0).remote(), Pr(1).remote());
}

#[test]
fn equality_of_repositories() {
    let a = Repo { owner: "o".to_owned(), repo: "r".to_owned() };
    let b = Repo { owner: "o".to_owned(), repo: "s".to_owned() };
    let c = Repo { owner: "p".to_owned(), repo: "r".to_owned() };
    assert_eq!(a, a.clone());
    assert_ne!(a, b);
    assert_ne!(a, c);
}

#[test]
fn searching_texts() {
    assert!(contains("hello @bot r+", "@bot"));
    assert!(contains("@bot", "@bot"));
    assert!(contains("", ""));
    assert!(contains("abc", ""));
    assert!(contains("aaab", "aab"));
    assert!(contains("gr\u{fc}\u{df}e", "\u{df}e"));
    assert!(!contains("@bo", "@bot"));
    assert!(!contains("", "a"));
    assert!(!contains("@bOt", "@bot"));
}

#[test]
fn comparing_texts_and_bytes() {
    assert!(same_text("closed", "closed"));
    assert!(!same_text("closed", "close"));
    assert!(same_bytes(b"ping", b"ping"));
    assert!(!same_bytes(b"ping", b"pong"));
    assert!(!same_bytes(b"ping", b"pin"));
    assert!(same_bytes(b"", b""));
}
