use rusend::address::parse_to_vec;
use rusend::text::{chars_of, is_whitespace, trim};

fn strings(items: &[&str]) -> Vec<String> {
    items.iter().map(|s| s.to_string()).collect()
}

#[test]
fn splits_trims_and_drops_empty_pieces() {
    assert_eq!(
        parse_to_vec("a@x.com, b@y.com ,,c@z.com"),
        strings(&["a@x.com", "b@y.com", "c@z.com"])
    );
}

#[test]
fn empty_list_has_no_addresses() {
    assert_eq!(parse_to_vec(""), Vec::<String>::new());
    assert_eq!(parse_to_vec(" "), Vec::<String>::new());
    assert_eq!(parse_to_vec(","), Vec::<String>::new());
    assert_eq!(parse_to_vec(" , ,\t,"), Vec::<String>::new());
}

#[test]
fn single_address_is_kept_whole() {
    assert_eq!(parse_to_vec("a@x.com"), strings(&["a@x.com"]));
    assert_eq!(parse_to_vec("  a@x.com\n"), strings(&["a@x.com"]));
    assert_eq!(parse_to_vec("Acme <no-reply@acme.com>"), strings(&["Acme <no-reply@acme.com>"]));
}

#[test]
fn inner_white_space_stays() {
    assert_eq!(
        parse_to_vec(" Ann Lee <a@x.com> ,Bo <b@y.com>,"),
        strings(&["Ann Lee <a@x.com>", "Bo <b@y.com>"])
    );
}

#[test]
fn commas_at_the_ends_add_nothing() {
    assert_eq!(parse_to_vec(",a,"), strings(&["a"]));
    assert_eq!(parse_to_vec(",,a,,b,,"), strings(&["a", "b"]));
}

#[test]
fn wide_characters_are_split_by_character() {
    assert_eq!(
        parse_to_vec("\u{3000}rené@x.com\u{2003},\u{a0}日本@例.jp"),
        strings(&["rené@x.com", "日本@例.jp"])
    );
}

#[test]
fn parse_agrees_with_split_trim_filter() {
    for s in ["", ",", "a", "a,b", " a , b ", ",,", "a,,b", "x@y.z, ,\t q@r.s ,", "é,ü , ß"] {
        let expected: Vec<String> = s
            .split(',')
            .map(|p| p.trim().to_string())
            .filter(|p| !p.is_empty())
            .collect();
        assert_eq!(parse_to_vec(s), expected, "{:?}", s);
    }
}

#[test]
fn no_address_is_empty_holds_a_comma_or_has_outer_space() {
    for s in [" a , b ,, c d ,", "\t,\n x@y \r,", "one"] {
        for address in parse_to_vec(s) {
            assert!(!address.is_empty());
            assert!(!address.contains(','));
            assert_eq!(address.trim(), address);
        }
    }
}

#[test]
fn whitespace_matches_the_standard_library_on_every_char() {
    let mut n: u32 = 0;
    while n <= 0x10FFFF {
        if let Some(c) = char::from_u32(n) {
            assert_eq!(is_whitespace(c), c.is_whitespace(), "U+{:04X}", n);
        }
        n += 1;
    }
}

#[test]
fn whitespace_of_some_characters() {
    assert!(is_whitespace(' '));
    assert!(is_whitespace('\t'));
    assert!(is_whitespace('\n'));
    assert!(is_whitespace('\u{2028}'));
    assert!(!is_whitespace('a'));
    assert!(!is_whitespace('\u{8}'));
    assert!(!is_whitespace('\u{200b}'));
    assert!(!is_whitespace('\u{180e}'));
}

#[test]
fn trim_agrees_with_the_standard_library() {
    for s in ["", " ", "  a b \t\n", "\u{3000}x\u{2003}", "re_abc123", "\u{85}k\u{a0}", " é "] {
        assert_eq!(trim(s), s.trim().to_string());
    }
}

#[test]
fn trim_of_exact_values() {
    assert_eq!(trim("  re_abc123\n"), "re_abc123");
    assert_eq!(trim("a  b"), "a  b");
    assert_eq!(trim(" \t "), "");
}

#[test]
fn chars_of_lists_every_character() {
    assert_eq!(chars_of("a é,"), vec!['a', ' ', 'é', ',']);
    assert_eq!(chars_of(""), Vec::<char>::new());
}
