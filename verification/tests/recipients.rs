use sms_gateway::address::{AddressError, Mailbox};
use sms_gateway::recipients::{join_addresses, resolve, split, MultipleAddressParser};
use sms_gateway::text::{chars_of, whitespace};

fn address(user: &str, domain: &str) -> Mailbox {
    Mailbox { name: None, user: user.to_string(), domain: domain.to_string() }
}

#[test]
fn resolves_three_addresses_in_order() {
    let found = resolve("a@x.com, b@y.com;c@z.com").unwrap();
    assert_eq!(found, vec![address("a", "x.com"), address("b", "y.com"), address("c", "z.com")]);
    for mailbox in &found {
        assert!(!mailbox.user.is_empty());
        assert!(!mailbox.domain.is_empty());
    }
}

#[test]
fn discards_empty_tokens() {
    assert_eq!(split("a@x.com,, ;b@y.com"), vec!["a@x.com", "b@y.com"]);
    let found = resolve("a@x.com,, ;b@y.com").unwrap();
    assert_eq!(found, vec![address("a", "x.com"), address("b", "y.com")]);
}

#[test]
fn fails_on_the_first_malformed_token() {
    assert_eq!(resolve("a@x.com, not-an-address"), Err(AddressError::InvalidInput));
    assert_eq!(resolve("not-an-address, a@x.com"), Err(AddressError::InvalidInput));
}

#[test]
fn reports_the_reason_of_the_first_rejected_token() {
    assert_eq!(resolve("a@x.com; \"a b\"@x.com; a@xn--.com"), Err(AddressError::InvalidUser));
    assert_eq!(resolve("a@xn--.com, \"a b\"@x.com"), Err(AddressError::InvalidDomain));
    assert_eq!(resolve("a@x.com, a@b@c.com, a@xn--.com"), Err(AddressError::InvalidInput));
}

#[test]
fn resolves_nothing_from_an_empty_list() {
    assert_eq!(resolve(""), Ok(vec![]));
    assert_eq!(resolve(" , ;;\t,\n"), Ok(vec![]));
}

#[test]
fn reads_display_names() {
    let found = resolve("Ann Example <ann@example.org>; <bob@example.org>").unwrap();
    assert_eq!(
        found,
        vec![
            Mailbox {
                name: Some("Ann Example".to_string()),
                user: "ann".to_string(),
                domain: "example.org".to_string(),
            },
            address("bob", "example.org"),
        ]
    );
}

#[test]
fn splits_on_both_delimiters_and_trims() {
    assert_eq!(split("a,b;c"), vec!["a", "b", "c"]);
    assert_eq!(split("  a  ,\tb\n;\r\nc  "), vec!["a", "b", "c"]);
    assert_eq!(split("a b , c"), vec!["a b", "c"]);
    assert_eq!(split("single"), vec!["single"]);
    assert_eq!(split(",a"), vec!["a"]);
    assert_eq!(split("a;"), vec!["a"]);
    assert_eq!(split(";,;"), Vec::<&str>::new());
    assert_eq!(split(""), Vec::<&str>::new());
    assert_eq!(split("   "), Vec::<&str>::new());
}

#[test]
fn trims_unicode_whitespace() {
    assert_eq!(split("\u{a0}a\u{2003},\u{3000}b\u{85}"), vec!["a", "b"]);
    assert_eq!(split("\u{200b}a"), vec!["\u{200b}a"]);
    assert_eq!(split("é ; ü"), vec!["é", "ü"]);
}

#[test]
fn splits_as_the_standard_library_does() {
    let inputs = [
        "a@x.com, b@y.com;c@z.com",
        "a@x.com,, ;b@y.com",
        " ;; x ,, y z ;",
        "\u{2028}p\u{2029};\u{1680}q\u{202f},\u{205f}r",
        "",
    ];
    for input in inputs {
        let expected: Vec<&str> = input
            .split([',', ';'].as_ref())
            .map(|part| part.trim())
            .filter(|part| !part.is_empty())
            .collect();
        assert_eq!(split(input), expected);
    }
}

#[test]
fn classifies_whitespace_as_the_standard_library_does() {
    for code in 0..=0x10FFFFu32 {
        if let Some(c) = char::from_u32(code) {
            assert_eq!(whitespace(c), c.is_whitespace(), "U+{:04X}", code);
        }
    }
}

#[test]
fn lists_the_characters_of_a_text() {
    assert_eq!(chars_of("aé,"), vec!['a', 'é', ',']);
    assert_eq!(chars_of(""), Vec::<char>::new());
}

#[test]
fn joins_entries_with_comma_and_space() {
    assert_eq!(join_addresses(&vec![]), "");
    assert_eq!(join_addresses(&vec!["a@x.com".to_string()]), "a@x.com");
    assert_eq!(
        join_addresses(&vec!["a@x.com".to_string(), "b@y.com; c@z.com".to_string()]),
        "a@x.com, b@y.com; c@z.com"
    );
}

#[test]
fn tokens_of_joined_lists_follow_each_other() {
    let first = "a@x.com; b@y.com";
    let second = " c@z.com,,d@w.com ";
    let mut expected = split(first);
    expected.extend(split(second));
    let joined = join_addresses(&vec![first.to_string(), second.to_string()]);
    assert_eq!(split(&joined), expected);
    assert_eq!(split(&format!("{};{}", first, second)), expected);
}

#[test]
fn every_token_is_trimmed_and_free_of_delimiters() {
    for token in split(" a , ;b c;\t d,e ;") {
        assert!(!token.is_empty());
        assert_eq!(token.trim(), token);
        assert!(!token.contains(',') && !token.contains(';'));
    }
}

#[test]
fn adds_a_whole_list_to_gathered_mailboxes() {
    let gathered = vec![address("first", "example.org")];
    let extended = gathered.to_addresses("a@x.com, b@y.com").unwrap();
    assert_eq!(
        extended,
        vec![address("first", "example.org"), address("a", "x.com"), address("b", "y.com")]
    );
    let unchanged = Vec::<Mailbox>::new().to_addresses(" ; ").unwrap();
    assert_eq!(unchanged, vec![]);
}

#[test]
fn adds_nothing_when_one_address_is_malformed() {
    let gathered = vec![address("first", "example.org")];
    assert_eq!(gathered.to_addresses("a@x.com, nope"), Err(AddressError::InvalidInput));
}

#[test]
fn describes_address_errors() {
    assert_eq!(AddressError::InvalidInput.describe(), "Invalid input");
    assert_eq!(AddressError::InvalidUser.describe(), "Invalid email user");
    assert_eq!(AddressError::InvalidDomain.describe(), "Invalid email domain");
}
