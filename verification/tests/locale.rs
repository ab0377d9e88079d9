use asciinema::error::Error;
use asciinema::locale::{check_utf8_locale, fold, is_utf8_locale, mentions_folded};

#[test]
fn utf8_locales_are_recognised() {
    assert!(is_utf8_locale(b"en_US.UTF-8"));
    assert!(is_utf8_locale(b"en_US.utf8"));
    assert!(is_utf8_locale(b"pl_PL.Utf-8"));
    assert!(is_utf8_locale(b"C.UTF8"));
    assert!(is_utf8_locale(b"utf8"));
}

#[test]
fn other_locales_are_not() {
    assert!(!is_utf8_locale(b"C"));
    assert!(!is_utf8_locale(b"POSIX"));
    assert!(!is_utf8_locale(b"en_US.ISO-8859-1"));
    assert!(!is_utf8_locale(b"en_US.UTF_8"));
    assert!(!is_utf8_locale(b"utf"));
    assert!(!is_utf8_locale(b""));
}

#[test]
fn folding_touches_capitals_only() {
    assert_eq!(fold(b'A'), b'a');
    assert_eq!(fold(b'Z'), b'z');
    assert_eq!(fold(b'a'), b'a');
    assert_eq!(fold(b'@'), b'@');
    assert_eq!(fold(b'['), b'[');
    assert_eq!(fold(b'-'), b'-');
    assert_eq!(fold(200), 200);
}

#[test]
fn search_ignores_case_of_the_text_searched() {
    assert!(mentions_folded(b"xxUTFxx", b"utf"));
    assert!(mentions_folded(b"utf", b"utf"));
    assert!(mentions_folded(b"anything", b""));
    assert!(mentions_folded(b"", b""));
    assert!(!mentions_folded(b"ut", b"utf"));
    assert!(!mentions_folded(b"", b"u"));
    assert!(!mentions_folded(b"utf", b"UTF"));
}

#[test]
fn lc_all_wins_over_lc_ctype_and_lang() {
    assert_eq!(check_utf8_locale(Some(b"C"), Some(b"en_US.UTF-8"), Some(b"en_US.UTF-8")), Err(Error::NonUtf8Locale));
    assert_eq!(check_utf8_locale(Some(b"en_US.UTF-8"), Some(b"C"), Some(b"C")), Ok(()));
}

#[test]
fn lc_ctype_wins_over_lang() {
    assert_eq!(check_utf8_locale(None, Some(b"en_US.UTF-8"), Some(b"C")), Ok(()));
    assert_eq!(check_utf8_locale(None, Some(b"C"), Some(b"en_US.UTF-8")), Err(Error::NonUtf8Locale));
}

#[test]
fn lang_decides_when_nothing_else_is_set() {
    assert_eq!(check_utf8_locale(None, None, Some(b"de_DE.utf8")), Ok(()));
    assert_eq!(check_utf8_locale(None, None, Some(b"de_DE")), Err(Error::NonUtf8Locale));
}

#[test]
fn empty_variable_counts_as_unset() {
    assert_eq!(check_utf8_locale(Some(b""), Some(b""), Some(b"en_US.UTF-8")), Ok(()));
    assert_eq!(check_utf8_locale(Some(b""), Some(b"C"), Some(b"en_US.UTF-8")), Err(Error::NonUtf8Locale));
}

#[test]
fn no_locale_at_all_is_not_utf8() {
    assert_eq!(check_utf8_locale(None, None, None), Err(Error::NonUtf8Locale));
    assert_eq!(check_utf8_locale(Some(b""), None, Some(b"")), Err(Error::NonUtf8Locale));
}
