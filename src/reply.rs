use crate::decimal::{decimal_of, digits};
use crate::quote::{Date, Quote, StoreError};
use serenity::model::mention::Mentionable;
use serenity::model::id::UserId;
use serenity::utils::MessageBuilder;
use vstd::prelude::*;

verus! {

/// The text serenity's `MessageBuilder::push_bold_safe` puts between the bold
/// markers: `s` with invite links and mass mentions defused, and with each `**`,
/// each direction mark and each zero-width character turned into a space.
pub uninterp spec fn bold_safe_text_of(s: Seq<char>) -> Seq<char>;

/// Relies on serenity's `MessageBuilder::push_bold_safe` and `build`: the
/// defused text between two `**` markers.
#[verifier::external_body]
fn bold_safe(s: &str) -> (r: String)
    ensures
        r@ == "**"@ + bold_safe_text_of(s@) + "**"@,
{
    MessageBuilder::new().push_bold_safe(s).build()
}

/// Relies on serenity's `Mentionable::mention` for a `UserId` and the `Display`
/// of `Mention::User`, which writes `<@id>`.
#[verifier::external_body]
fn user_mention(user: u64) -> (r: String)
    ensures
        r@ == "<@"@ + decimal_of(user as nat) + ">"@,
{
    UserId(user).mention().to_string()
}

/// The text chrono's `Display` gives the calendar date with these parts.
pub uninterp spec fn date_text_of(year: int, month: int, day: int) -> Seq<char>;

/// The dates chrono can hold: calendar dates with a year from -262143 to 262142.
pub open spec fn chrono_holds(d: Date) -> bool {
    d.is_calendar_date() && -262143 <= d.year <= 262142
}

/// The two decimal digits of `n` (0 to 99).
pub open spec fn two_digits(n: int) -> Seq<char> {
    seq![digits()[n / 10], digits()[n % 10]]
}

/// A date of a year from 0 to 9999 as `YYYY-MM-DD`.
pub open spec fn iso_text(d: Date) -> Seq<char> {
    two_digits(d.year as int / 100) + two_digits(d.year as int % 100) + seq!['-'] + two_digits(d.month as int)
        + seq!['-'] + two_digits(d.day as int)
}

/// Relies on chrono's `NaiveDate::from_ymd_opt` (`None` unless the date exists and
/// its year is in range) and on `Display` for `NaiveDate`, which writes a year
/// from 0 to 9999 as four digits, then two-digit month and day, each after a `-`.
#[verifier::external_body]
fn date_text(d: Date) -> (r: Option<String>)
    ensures
        r is Some <==> chrono_holds(d),
        r matches Some(t) ==> t@ == date_text_of(d.year as int, d.month as int, d.day as int),
        r matches Some(t) ==> (0 <= d.year <= 9999 ==> t@ == iso_text(d)),
{
    match chrono::NaiveDate::from_ymd_opt(d.year, d.month, d.day) {
        Some(n) => Some(n.to_string()),
        None => None,
    }
}

/// The reply to a stored quote: its text in bold, then, on a line of its own,
/// a mention of `user` and the date the quote was recorded.
pub open spec fn quote_reply_text(user: u64, q_text: Seq<char>, q_date: Date) -> Seq<char> {
    "**"@ + bold_safe_text_of(q_text) + "**"@ + "\n"@ + "<@"@ + decimal_of(user as nat) + ">"@
        + " on "@ + date_text_of(q_date.year as int, q_date.month as int, q_date.day as int)
}

/// The reply that shows quote `q` of the user whose id is `user`; `None` where
/// the quote's date is no date that can be shown.
pub fn quote_reply(user: u64, q: &Quote) -> (r: Option<String>)
    ensures
        r is Some <==> chrono_holds(q.quote_date),
        r matches Some(t) ==> t@ == quote_reply_text(user, q.quote@, q.quote_date),
{
    let date = match date_text(q.quote_date) {
        Some(t) => t,
        None => {
            return None;
        },
    };
    let mut r = bold_safe(q.quote.as_str());
    r.append("\n");
    let mention = user_mention(user);
    r.append(mention.as_str());
    r.append(" on ");
    r.append(date.as_str());
    assert(r@ =~= quote_reply_text(user, q.quote@, q.quote_date));
    Some(r)
}

/// A reply to a command: seen by everyone in the channel, or by the requester
/// alone.
pub enum Reply {
    Public(String),
    Private(String),
}

/// What a reply says, and whether it is seen by the requester alone.
pub open spec fn reply_view(r: Reply) -> (Seq<char>, bool) {
    match r {
        Reply::Public(s) => (s@, false),
        Reply::Private(s) => (s@, true),
    }
}

/// The reply to a request for a random quote of the user with id `user` and
/// display name `name`, given what the store returned: the quote for all to
/// see, a private note where the user has no quotes, or the store's error. A
/// quote whose date is no date that can be shown is a malformed entry.
pub fn random_reply(user: u64, name: &str, found: Result<Option<Quote>, StoreError>) -> (r: Result<
    Reply,
    StoreError,
>)
    ensures
        match found {
            Ok(Some(q)) => if chrono_holds(q.quote_date) {
                r is Ok && reply_view(r->Ok_0) == (
                    quote_reply_text(user, q.quote@, q.quote_date),
                    false,
                )
            } else {
                r == Err::<Reply, StoreError>(StoreError::MalformedEntry)
            },
            Ok(None) => r is Ok && reply_view(r->Ok_0) == (
                "No quotes found for user: "@ + name@ + " "@,
                true,
            ),
            Err(e) => r == Err::<Reply, StoreError>(e),
        },
{
    match found {
        Ok(Some(q)) => match quote_reply(user, &q) {
            Some(t) => Ok(Reply::Public(t)),
            None => Err(StoreError::MalformedEntry),
        },
        Ok(None) => Ok(Reply::Private(no_quotes_reply(name))),
        Err(e) => Err(e),
    }
}

/// The reply confirming that `quote` was stored for the user named `name`.
pub fn added_reply(quote: &str, name: &str) -> (r: String)
    ensures
        r@ == "Quote: "@ + quote@ + ", by "@ + name@ + " added!"@,
{
    let mut r = String::from_str("Quote: ");
    r.append(quote);
    r.append(", by ");
    r.append(name);
    r.append(" added!");
    r
}

/// The reply, seen by the requester alone, saying that the user named `name`
/// has no quotes.
pub fn no_quotes_reply(name: &str) -> (r: String)
    ensures
        r@ == "No quotes found for user: "@ + name@ + " "@,
{
    let mut r = String::from_str("No quotes found for user: ");
    r.append(name);
    r.append(" ");
    r
}

} // verus!
