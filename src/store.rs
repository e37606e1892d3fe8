use crate::quote::{quote_of_row, row_of, today, Date, Quote, QuoteRow, QuoteRowView, QuoteView, StoreError};
use vstd::prelude::*;

verus! {

/// The records of `rows` attributed to `user`, in storage order.
pub open spec fn user_rows(rows: Seq<QuoteRowView>, user: Seq<char>) -> Seq<QuoteRowView>
    decreases rows.len(),
{
    if rows.len() == 0 {
        Seq::empty()
    } else {
        let earlier = user_rows(rows.drop_last(), user);
        if rows.last().user_id == user {
            earlier.push(rows.last())
        } else {
            earlier
        }
    }
}

/// What a random pick for `user` gives on `draw`: nothing where the user has no
/// records; else the record at `draw` modulo their count, as a quote, or
/// `MalformedEntry` where that record is incomplete. A draw that is uniform over
/// any multiple of the count picks each of the user's records equally often.
pub open spec fn picked(rows: Seq<QuoteRowView>, user: Seq<char>, draw: int) -> Result<
    Option<QuoteView>,
    StoreError,
> {
    let mine = user_rows(rows, user);
    if mine.len() == 0 {
        Ok(None)
    } else {
        match quote_of_row(mine[draw % (mine.len() as int)]) {
            Some(q) => Ok(Some(q)),
            None => Err(StoreError::MalformedEntry),
        }
    }
}

/// The records after storing each quote of `adds`, in order.
pub open spec fn store_after(rows: Seq<QuoteRowView>, adds: Seq<QuoteView>) -> Seq<QuoteRowView>
    decreases adds.len(),
{
    if adds.len() == 0 {
        rows
    } else {
        store_after(rows, adds.drop_last()).push(row_of(adds.last()))
    }
}

/// The quotes of `adds` attributed to `user`.
pub open spec fn adds_for(adds: Seq<QuoteView>, user: Seq<char>) -> Seq<QuoteView>
    decreases adds.len(),
{
    if adds.len() == 0 {
        Seq::empty()
    } else {
        let earlier = adds_for(adds.drop_last(), user);
        if adds.last().user_id == user {
            earlier.push(adds.last())
        } else {
            earlier
        }
    }
}

/// What a call of `random_quote_for_user` returns, as values.
pub open spec fn result_view(r: Result<Option<Quote>, StoreError>) -> Result<
    Option<QuoteView>,
    StoreError,
> {
    match r {
        Ok(Some(q)) => Ok(Some(q@)),
        Ok(None) => Ok(None),
        Err(e) => Err(e),
    }
}

/// Where the backing database lives when no path is given.
pub open spec fn default_database_path() -> Seq<char> {
    "database.sqlite"@
}

/// The backing database file: the path given, else `database.sqlite` in the
/// current directory.
pub fn database_path(db: Option<String>) -> (p: String)
    ensures
        p@ == match db {
            Some(d) => d@,
            None => default_database_path(),
        },
{
    match db {
        Some(d) => d,
        None => String::from_str("database.sqlite"),
    }
}

/// The quote records of a store, in the order they were written. Records read
/// back from storage may be incomplete; records written by `add_quote` never are.
pub struct QuoteStore {
    rows: Vec<QuoteRow>,
}

impl View for QuoteStore {
    type V = Seq<QuoteRowView>;

    closed spec fn view(&self) -> Seq<QuoteRowView> {
        self.rows@.map_values(|r: QuoteRow| r@)
    }
}

impl QuoteStore {
    /// A store with no records.
    pub fn new() -> (s: QuoteStore)
        ensures
            s@ == Seq::<QuoteRowView>::empty(),
    {
        let s = QuoteStore { rows: Vec::new() };
        assert(s@ =~= Seq::<QuoteRowView>::empty());
        s
    }

    /// A store holding `rows`, in their order, as read back from storage.
    pub fn from_rows(rows: Vec<QuoteRow>) -> (s: QuoteStore)
        ensures
            s@ == rows@.map_values(|r: QuoteRow| r@),
    {
        QuoteStore { rows }
    }

    /// The number of records, of all users.
    pub fn len(&self) -> (n: usize)
        ensures
            n == self@.len(),
    {
        self.rows.len()
    }

    /// Stores a new record of `quote` attributed to `user_id`, dated `quote_date`.
    /// Earlier records are kept as they were.
    pub fn add_quote_on(&mut self, user_id: String, quote_date: Date, quote: String)
        ensures
            final(self)@ == old(self)@.push(
                row_of(QuoteView { user_id: user_id@, quote_date, quote: quote@ }),
            ),
    {
        let row = QuoteRow { user_id, quote_date: Some(quote_date), quote: Some(quote) };
        self.rows.push(row);
        assert(self@ =~= old(self)@.push(row@));
    }

    /// Stores a new record of `quote` attributed to `user_id`, dated today (UTC).
    /// The text is not checked: an empty text is stored like any other. Where the
    /// system clock gives no date, nothing is stored and the error is `IO`.
    pub fn add_quote(&mut self, user_id: String, quote: String) -> (r: Result<(), StoreError>)
        ensures
            r is Ok ==> exists|d: Date|
                d.wf() && final(self)@ == old(self)@.push(
                    row_of(QuoteView { user_id: user_id@, quote_date: d, quote: quote@ }),
                ),
            r is Err ==> r == Err::<(), StoreError>(StoreError::IO) && final(self)@ == old(self)@,
    {
        match today() {
            Some(d) => {
                self.add_quote_on(user_id, d, quote);
                Ok(())
            },
            None => Err(StoreError::IO),
        }
    }

    /// The number of records attributed to `user_id`.
    pub fn count_for_user(&self, user_id: &String) -> (n: usize)
        ensures
            n == user_rows(self@, user_id@).len(),
    {
        let mut n: usize = 0;
        let mut i: usize = 0;
        while i < self.rows.len()
            invariant
                i <= self.rows@.len(),
                n == user_rows(self@.take(i as int), user_id@).len(),
                n <= i,
            decreases self.rows@.len() - i,
        {
            proof {
                assert(self@.take(i + 1).drop_last() =~= self@.take(i as int));
            }
            if self.rows[i].user_id == *user_id {
                n = n + 1;
            }
            i = i + 1;
        }
        assert(self@.take(i as int) =~= self@);
        n
    }

    /// A record of `user_id` picked by `draw`, as `picked` states: with a draw that
    /// is uniform over a range much larger than the user's count, each of their
    /// records is about equally likely. `None` where the user has no records;
    /// `MalformedEntry` where the picked record lacks its date or its text.
    pub fn random_quote_for_user(&self, user_id: &String, draw: u64) -> (r: Result<
        Option<Quote>,
        StoreError,
    >)
        ensures
            result_view(r) == picked(self@, user_id@, draw as int),
    {
        let mut found: Vec<usize> = Vec::new();
        let mut i: usize = 0;
        while i < self.rows.len()
            invariant
                i <= self.rows@.len(),
                found@.len() == user_rows(self@.take(i as int), user_id@).len(),
                found@.len() <= i,
                forall|k: int|
                    0 <= k < found@.len() ==> #[trigger] found@[k] < self.rows@.len() && self@[found@[k] as int]
                        == user_rows(self@.take(i as int), user_id@)[k],
            decreases self.rows@.len() - i,
        {
            proof {
                assert(self@.take(i + 1).drop_last() =~= self@.take(i as int));
            }
            if self.rows[i].user_id == *user_id {
                found.push(i);
            }
            i = i + 1;
        }
        assert(self@.take(i as int) =~= self@);
        if found.len() == 0 {
            return Ok(None);
        }
        let k = (draw % (found.len() as u64)) as usize;
        let row = &self.rows[found[k]];
        assert(self@[found@[k as int] as int] == row@);
        match row.to_quote() {
            Ok(q) => Ok(Some(q)),
            Err(e) => Err(e),
        }
    }
}

/// Storing a quote for a user makes that very quote reachable: some draw below
/// the user's new count picks it.
pub proof fn lemma_added_quote_reachable(rows: Seq<QuoteRowView>, q: QuoteView)
    ensures
        ({
            let after = rows.push(row_of(q));
            let n = user_rows(after, q.user_id).len() as int;
            n == user_rows(rows, q.user_id).len() + 1 && 0 <= n - 1 && picked(
                after,
                q.user_id,
                n - 1,
            ) == Ok::<Option<QuoteView>, StoreError>(Some(q))
        }),
{
    let after = rows.push(row_of(q));
    assert(after.drop_last() =~= rows);
    let n = user_rows(after, q.user_id).len() as int;
    assert((n - 1) % n == n - 1) by (nonlinear_arith)
        requires
            n >= 1,
    ;
}

/// Every draw below a user's count picks a different one of their records, the
/// record at that position: a draw uniform over the count is uniform over the
/// records.
pub proof fn lemma_draws_cover_records(rows: Seq<QuoteRowView>, user: Seq<char>, k: int)
    requires
        0 <= k < user_rows(rows, user).len(),
    ensures
        picked(rows, user, k) == match quote_of_row(user_rows(rows, user)[k]) {
            Some(q) => Ok::<Option<QuoteView>, StoreError>(Some(q)),
            None => Err(StoreError::MalformedEntry),
        },
        picked(rows, user, k + user_rows(rows, user).len()) == picked(rows, user, k),
{
    let n = user_rows(rows, user).len() as int;
    assert(k % n == k) by (nonlinear_arith)
        requires
            0 <= k < n,
    ;
    assert((k + n) % n == k) by (nonlinear_arith)
        requires
            0 <= k < n,
    ;
}

/// A user with no records gets nothing back, never an error, whatever the draw.
pub proof fn lemma_no_records_no_quote(rows: Seq<QuoteRowView>, user: Seq<char>, draw: int)
    requires
        user_rows(rows, user).len() == 0,
    ensures
        picked(rows, user, draw) == Ok::<Option<QuoteView>, StoreError>(None),
{
}

/// Storing quotes only appends: each user's earlier records stay as they were,
/// in their order, followed by the user's new quotes in the order they were
/// stored.
pub proof fn lemma_adds_accumulate(rows: Seq<QuoteRowView>, adds: Seq<QuoteView>, user: Seq<char>)
    ensures
        user_rows(store_after(rows, adds), user) == user_rows(rows, user) + adds_for(adds, user).map_values(
            |q: QuoteView| row_of(q),
        ),
    decreases adds.len(),
{
    if adds.len() == 0 {
        assert(user_rows(rows, user) =~= user_rows(rows, user) + adds_for(adds, user).map_values(
            |q: QuoteView| row_of(q),
        ));
    } else {
        let before = store_after(rows, adds.drop_last());
        lemma_adds_accumulate(rows, adds.drop_last(), user);
        assert(before.push(row_of(adds.last())).drop_last() =~= before);
        assert(user_rows(store_after(rows, adds), user) =~= user_rows(rows, user) + adds_for(
            adds,
            user,
        ).map_values(|q: QuoteView| row_of(q)));
    }
}

/// However the quotes of several users interleave, each user ends up with
/// exactly one more record for each of their own quotes, and the records of a
/// user with no new quotes are untouched.
pub proof fn lemma_interleaved_adds(rows: Seq<QuoteRowView>, adds: Seq<QuoteView>, user: Seq<char>)
    ensures
        user_rows(store_after(rows, adds), user).len() == user_rows(rows, user).len() + adds_for(
            adds,
            user,
        ).len(),
        adds_for(adds, user).len() == 0 ==> user_rows(store_after(rows, adds), user) == user_rows(
            rows,
            user,
        ),
{
    lemma_adds_accumulate(rows, adds, user);
    if adds_for(adds, user).len() == 0 {
        assert(user_rows(rows, user) + adds_for(adds, user).map_values(|q: QuoteView| row_of(q))
            =~= user_rows(rows, user));
    }
}

} // verus!
