use quote_bot::command::run;
use quote_bot::quote::{Date, Quote, StoreError};
use quote_bot::reply::{added_reply, no_quotes_reply, quote_reply, random_reply, Reply};
use quote_bot::unit::systemd_unit;

fn quote(text: &str) -> Quote {
    Quote {
        user_id: "42".to_string(),
        quote_date: Date { year: 2024, month: 3, day: 5 },
        quote: text.to_string(),
    }
}

#[test]
fn quote_reply_has_bold_text_mention_and_date() {
    assert_eq!(
        quote_reply(42, &quote("hello world")),
        Some("**hello world**\n<@42> on 2024-03-05".to_string())
    );
}

#[test]
fn quote_reply_defuses_mass_mentions() {
    let r = quote_reply(7, &quote("hi @everyone")).unwrap();
    assert_eq!(r, "**hi @\u{200B}everyone**\n<@7> on 2024-03-05");
}

#[test]
fn random_reply_cases() {
    match random_reply(1234567890123, "bob", Ok(Some(quote("x")))) {
        Ok(Reply::Public(s)) => assert_eq!(s, "**x**\n<@1234567890123> on 2024-03-05"),
        _ => panic!("expected a public reply"),
    }
    match random_reply(1, "bob", Ok(None)) {
        Ok(Reply::Private(s)) => assert_eq!(s, "No quotes found for user: bob "),
        _ => panic!("expected a private reply"),
    }
    assert!(matches!(
        random_reply(1, "bob", Err(StoreError::MalformedEntry)),
        Err(StoreError::MalformedEntry)
    ));
    assert!(matches!(random_reply(1, "bob", Err(StoreError::IO)), Err(StoreError::IO)));
}

fn dated(text: &str, year: i32, month: u32, day: u32) -> Quote {
    Quote { user_id: "1".to_string(), quote_date: Date { year, month, day }, quote: text.to_string() }
}

#[test]
fn quote_reply_dates() {
    assert_eq!(quote_reply(1, &dated("x", 2024, 2, 29)), Some("**x**\n<@1> on 2024-02-29".to_string()));
    assert_eq!(quote_reply(1, &dated("x", 7, 1, 9)), Some("**x**\n<@1> on 0007-01-09".to_string()));
    assert_eq!(
        quote_reply(1, &dated("x", 10000, 12, 31)),
        Some("**x**\n<@1> on +10000-12-31".to_string())
    );
    assert_eq!(quote_reply(1, &dated("x", 2023, 2, 29)), None);
    assert_eq!(quote_reply(1, &dated("x", 2023, 4, 31)), None);
    assert_eq!(quote_reply(1, &dated("x", 262143, 1, 1)), None);
}

#[test]
fn impossible_date_is_a_malformed_entry() {
    assert!(matches!(
        random_reply(1, "bob", Ok(Some(dated("x", 2023, 2, 31)))),
        Err(StoreError::MalformedEntry)
    ));
}

#[test]
fn added_and_missing_replies() {
    assert_eq!(added_reply("hello", "ann"), "Quote: hello, by ann added!");
    assert_eq!(no_quotes_reply("ghost"), "No quotes found for user: ghost ");
}

#[test]
fn plain_command_answer() {
    assert_eq!(run(&[]), "TEST QUOTE");
}

#[test]
fn unit_with_token_only() {
    assert_eq!(
        systemd_unit("abc", &None, None),
        "[Unit]\nDescription=Discord quote bot\n[Service]\nExecStart=/usr/bin/discord_quote_bot --token abc\n[Install]\nWantedBy=multi-user.target"
    );
}

#[test]
fn unit_with_all_options() {
    assert_eq!(
        systemd_unit("abc", &Some("db.sqlite".to_string()), Some(9876543210)),
        "[Unit]\nDescription=Discord quote bot\n[Service]\nExecStart=/usr/bin/discord_quote_bot --token abc--database db.sqlite--guild 9876543210\n[Install]\nWantedBy=multi-user.target"
    );
    assert!(systemd_unit("t", &None, Some(0)).contains("--guild 0\n"));
    assert!(systemd_unit("t", &None, Some(u64::MAX)).contains("--guild 18446744073709551615\n"));
}
