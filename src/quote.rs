use chrono::Datelike;
use vstd::prelude::*;

verus! {

/// A calendar date as stored with a quote: year, month (1 to 12) and day.
#[derive(Clone, Copy, Debug, PartialEq, Eq, Structural)]
pub struct Date {
    pub year: i32,
    pub month: u32,
    pub day: u32,
}

impl Date {
    /// Month and day lie in their calendar ranges.
    pub open spec fn wf(&self) -> bool {
        1 <= self.month <= 12 && 1 <= self.day <= 31
    }
}

/// Whether `y` is a leap year of the proleptic Gregorian calendar.
pub open spec fn is_leap_year(y: int) -> bool {
    (y % 4 == 0 && y % 100 != 0) || y % 400 == 0
}

/// The number of days of month `m` (1 to 12) of year `y`.
pub open spec fn days_in_month(y: int, m: int) -> int {
    if m == 2 {
        if is_leap_year(y) {
            29
        } else {
            28
        }
    } else if m == 4 || m == 6 || m == 9 || m == 11 {
        30
    } else {
        31
    }
}

impl Date {
    /// The day exists in the proleptic Gregorian calendar.
    pub open spec fn is_calendar_date(&self) -> bool {
        1 <= self.month <= 12 && 1 <= self.day <= days_in_month(self.year as int, self.month as int)
    }
}

/// Relies on std's `SystemTime::now` and `duration_since(UNIX_EPOCH)`: the whole
/// seconds and the nanoseconds (below one billion) since the epoch, or `None`
/// where the clock stands before it.
#[verifier::external_body]
fn time_since_epoch() -> (r: Option<(u64, u32)>)
    ensures
        r matches Some((_, n)) ==> n < 1_000_000_000,
{
    match std::time::SystemTime::now().duration_since(std::time::UNIX_EPOCH) {
        Ok(t) => Some((t.as_secs(), t.subsec_nanos())),
        Err(_) => None,
    }
}

/// Relies on chrono's `DateTime::from_timestamp` (`None` out of its range) and
/// `date_naive`, with `Datelike::month` (1 to 12) and `Datelike::day` (1 to 31):
/// the UTC date at that instant.
#[verifier::external_body]
fn utc_date_at(secs: i64, nanos: u32) -> (r: Option<Date>)
    ensures
        r matches Some(d) ==> d.wf(),
{
    match chrono::DateTime::from_timestamp(secs, nanos) {
        Some(t) => {
            let n = t.date_naive();
            Some(Date { year: n.year(), month: n.month(), day: n.day() })
        },
        None => None,
    }
}

/// Today's UTC date, or `None` where the system clock stands before 1970 or
/// beyond the dates that can be held.
pub(crate) fn today() -> (r: Option<Date>)
    ensures
        r matches Some(d) ==> d.wf(),
{
    match time_since_epoch() {
        Some((secs, nanos)) => {
            if secs <= i64::MAX as u64 {
                utc_date_at(secs as i64, nanos)
            } else {
                None
            }
        },
        None => None,
    }
}

/// A stored quote: who it is attributed to, when it was recorded, and its text.
#[derive(Clone, Debug, PartialEq, Eq)]
pub struct Quote {
    pub user_id: String,
    pub quote_date: Date,
    pub quote: String,
}

/// What a quote is, as values.
pub struct QuoteView {
    pub user_id: Seq<char>,
    pub quote_date: Date,
    pub quote: Seq<char>,
}

impl View for Quote {
    type V = QuoteView;

    open spec fn view(&self) -> QuoteView {
        QuoteView { user_id: self.user_id@, quote_date: self.quote_date, quote: self.quote@ }
    }
}

/// A record as read back from storage, where the date or the text may be missing.
#[derive(Clone, Debug, PartialEq, Eq)]
pub struct QuoteRow {
    pub user_id: String,
    pub quote_date: Option<Date>,
    pub quote: Option<String>,
}

/// What a stored record is, as values.
pub struct QuoteRowView {
    pub user_id: Seq<char>,
    pub quote_date: Option<Date>,
    pub quote: Option<Seq<char>>,
}

impl View for QuoteRow {
    type V = QuoteRowView;

    open spec fn view(&self) -> QuoteRowView {
        QuoteRowView {
            user_id: self.user_id@,
            quote_date: self.quote_date,
            quote: match self.quote {
                Some(t) => Some(t@),
                None => None,
            },
        }
    }
}

/// The complete record that storing `q` writes.
pub open spec fn row_of(q: QuoteView) -> QuoteRowView {
    QuoteRowView { user_id: q.user_id, quote_date: Some(q.quote_date), quote: Some(q.quote) }
}

/// The quote a record holds, or `None` where its date or its text is missing.
pub open spec fn quote_of_row(r: QuoteRowView) -> Option<QuoteView> {
    match (r.quote_date, r.quote) {
        (Some(d), Some(t)) => Some(QuoteView { user_id: r.user_id, quote_date: d, quote: t }),
        _ => None,
    }
}

/// Why a store operation failed.
#[derive(Clone, Copy, Debug, PartialEq, Eq, Structural)]
pub enum StoreError {
    /// The backing storage could not be reached or the operation did not complete.
    IO,
    /// A stored record lacks its date or its text.
    MalformedEntry,
}

impl StoreError {
    /// A sentence describing the error, for logs and replies.
    pub fn message(&self) -> (r: String)
        ensures
            *self == StoreError::IO ==> r@ == "The quote storage could not complete the operation"@,
            *self == StoreError::MalformedEntry ==> r@
                == "An entry was malformed, and didn't contain necessary data"@,
    {
        match self {
            StoreError::IO => String::from_str("The quote storage could not complete the operation"),
            StoreError::MalformedEntry => String::from_str(
                "An entry was malformed, and didn't contain necessary data",
            ),
        }
    }
}

impl Quote {
    /// A quote of `quote` attributed to `user_id`, dated today (UTC); `None` where
    /// the system clock gives no date. The text is not checked: an empty text is
    /// accepted, as any other.
    pub fn today(user_id: String, quote: String) -> (r: Option<Quote>)
        ensures
            r matches Some(q) ==> q@.user_id == user_id@ && q@.quote == quote@ && q.quote_date.wf(),
    {
        match today() {
            Some(d) => Some(Quote { user_id, quote_date: d, quote }),
            None => None,
        }
    }

    /// The complete record that storing this quote writes.
    pub fn to_row(&self) -> (r: QuoteRow)
        ensures
            r@ == row_of(self@),
    {
        QuoteRow {
            user_id: self.user_id.clone(),
            quote_date: Some(self.quote_date),
            quote: Some(self.quote.clone()),
        }
    }
}

impl QuoteRow {
    /// The quote this record holds; `MalformedEntry` where its date or its text
    /// is missing.
    pub fn to_quote(&self) -> (r: Result<Quote, StoreError>)
        ensures
            match quote_of_row(self@) {
                Some(q) => r is Ok && r->Ok_0@ == q,
                None => r == Err::<Quote, StoreError>(StoreError::MalformedEntry),
            },
    {
        match (&self.quote_date, &self.quote) {
            (Some(d), Some(t)) => Ok(
                Quote { user_id: self.user_id.clone(), quote_date: *d, quote: t.clone() },
            ),
            _ => Err(StoreError::MalformedEntry),
        }
    }
}

} // verus!
