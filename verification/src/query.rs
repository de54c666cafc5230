//! Queries wrapped in an outer `SELECT`: one that counts the rows of the inner
//! query, and one that orders and pages them.
use vstd::prelude::*;
use crate::text::{decimal, write_decimal};

verus! {

/// The text that opens a counting wrapper.
pub open spec fn count_prefix() -> Seq<char> {
    "SELECT COUNT(*) FROM ("@
}

/// The text that opens a selecting wrapper.
pub open spec fn select_prefix() -> Seq<char> {
    "SELECT * FROM ("@
}

/// The text that closes a wrapper and names the inner query.
pub open spec fn alias_suffix() -> Seq<char> {
    ") t"@
}

/// The text that closes a selecting wrapper: the alias, then the ordering if
/// one is given, the limit if it is positive and the offset if it is positive.
pub open spec fn select_suffix(order: Seq<char>, limit: i64, offset: i64) -> Seq<char> {
    alias_suffix() + (if order.len() > 0 {
        " ORDER BY "@ + order
    } else {
        Seq::empty()
    }) + (if limit > 0 {
        " LIMIT "@ + decimal(limit as nat)
    } else {
        Seq::empty()
    }) + (if offset > 0 {
        " OFFSET "@ + decimal(offset as nat)
    } else {
        Seq::empty()
    })
}

/// A query wrapped so that it yields the number of its rows.
#[derive(Debug, Clone, Copy)]
pub struct CountedSubSelect<T> {
    pub query: T,
}

impl<T> CountedSubSelect<T> {
    /// The text that comes before the inner query.
    pub fn sql_prefix(&self) -> (s: String)
        ensures
            s@ == count_prefix(),
    {
        String::from_str("SELECT COUNT(*) FROM (")
    }

    /// The text that comes after the inner query.
    pub fn sql_suffix(&self) -> (s: String)
        ensures
            s@ == alias_suffix(),
    {
        String::from_str(") t")
    }

    /// The whole query, given the text of the inner one.
    pub fn to_sql(&self, inner: &str) -> (s: String)
        ensures
            s@ == count_prefix() + inner@ + alias_suffix(),
    {
        let mut s = self.sql_prefix();
        s.append(inner);
        s.append(") t");
        s
    }
}

/// Wraps a query so that it counts the rows of the query.
pub trait CountSubSelect: Sized {
    fn count_sub_select(self) -> (r: CountedSubSelect<Self>)
        ensures
            r.query == self,
    ;
}

impl<T> CountSubSelect for T {
    fn count_sub_select(self) -> (r: CountedSubSelect<Self>) {
        CountedSubSelect { query: self }
    }
}

/// A query wrapped so that its rows can be ordered and paged.
#[derive(Debug, Clone)]
pub struct SelectedSubSelect<T> {
    pub query: T,
    pub limit: i64,
    pub offset: i64,
    pub order: String,
}

/// The settings of a selecting wrapper: ordering, limit and offset.
pub open spec fn settings<T>(s: SelectedSubSelect<T>) -> (Seq<char>, i64, i64) {
    (s.order@, s.limit, s.offset)
}

/// The settings with the limit replaced.
pub open spec fn with_limit(st: (Seq<char>, i64, i64), limit: i64) -> (Seq<char>, i64, i64) {
    (st.0, limit, st.2)
}

/// The settings with the offset replaced.
pub open spec fn with_offset(st: (Seq<char>, i64, i64), offset: i64) -> (Seq<char>, i64, i64) {
    (st.0, st.1, offset)
}

/// The settings with the ordering replaced.
pub open spec fn with_order(st: (Seq<char>, i64, i64), order: Seq<char>) -> (Seq<char>, i64, i64) {
    (order, st.1, st.2)
}

impl<T> SelectedSubSelect<T> {
    /// The same wrapper, showing at most `limit` rows (none when not positive).
    pub fn limit(self, limit: i64) -> (r: Self)
        ensures
            r.query == self.query,
            settings(r) == with_limit(settings(self), limit),
    {
        SelectedSubSelect { query: self.query, limit, offset: self.offset, order: self.order }
    }

    /// The same wrapper, skipping the first `offset` rows (none when not positive).
    pub fn offset(self, offset: i64) -> (r: Self)
        ensures
            r.query == self.query,
            settings(r) == with_offset(settings(self), offset),
    {
        SelectedSubSelect { query: self.query, limit: self.limit, offset, order: self.order }
    }

    /// The same wrapper, ordering by the SQL expression `e` (none when empty).
    pub fn order(self, e: &str) -> (r: Self)
        ensures
            r.query == self.query,
            settings(r) == with_order(settings(self), e@),
    {
        SelectedSubSelect { query: self.query, limit: self.limit, offset: self.offset, order: String::from_str(e) }
    }

    /// The text that comes before the inner query.
    pub fn sql_prefix(&self) -> (s: String)
        ensures
            s@ == select_prefix(),
    {
        String::from_str("SELECT * FROM (")
    }

    /// The text that comes after the inner query.
    pub fn sql_suffix(&self) -> (s: String)
        ensures
            s@ == select_suffix(self.order@, self.limit, self.offset),
    {
        let mut s = String::from_str(") t");
        if self.order.as_str().unicode_len() > 0 {
            s.append(" ORDER BY ");
            s.append(self.order.as_str());
        }
        if self.limit > 0 {
            s.append(" LIMIT ");
            write_decimal(self.limit as u64, &mut s);
        }
        if self.offset > 0 {
            s.append(" OFFSET ");
            write_decimal(self.offset as u64, &mut s);
        }
        assert(s@ =~= select_suffix(self.order@, self.limit, self.offset));
        s
    }

    /// The whole query, given the text of the inner one.
    pub fn to_sql(&self, inner: &str) -> (s: String)
        ensures
            s@ == select_prefix() + inner@ + select_suffix(self.order@, self.limit, self.offset),
    {
        let mut s = self.sql_prefix();
        s.append(inner);
        let suffix = self.sql_suffix();
        s.append(suffix.as_str());
        s
    }
}

/// Wraps a query so that its rows can be ordered and paged.
pub trait SelectSubSelect: Sized {
    fn sub_select(self) -> (r: SelectedSubSelect<Self>)
        ensures
            r.query == self,
            settings(r) == (Seq::<char>::empty(), 0i64, 0i64),
    ;
}

impl<T> SelectSubSelect for T {
    fn sub_select(self) -> (r: SelectedSubSelect<Self>) {
        SelectedSubSelect { query: self, limit: 0, offset: 0, order: String::new() }
    }
}

/// A fresh selecting wrapper adds nothing to the inner query but the outer
/// `SELECT` and the alias.
pub proof fn lemma_plain_wrapper()
    ensures
        select_suffix(Seq::empty(), 0, 0) == alias_suffix(),
{
    assert(select_suffix(Seq::empty(), 0, 0) =~= alias_suffix());
}

/// Paging is added clause by clause, each clause depending on its own
/// setting only: a positive limit appends ` LIMIT ` and its decimal to the
/// ordered text, whatever the offset; a positive offset then appends
/// ` OFFSET ` and its decimal; a setting that is not positive adds nothing.
pub proof fn lemma_paging_clauses(order: Seq<char>, limit: i64, offset: i64)
    ensures
        select_suffix(order, 0, 0) == alias_suffix() + (if order.len() > 0 {
            " ORDER BY "@ + order
        } else {
            Seq::empty()
        }),
        limit > 0 ==> select_suffix(order, limit, 0) == select_suffix(order, 0, 0) + " LIMIT "@ + decimal(
            limit as nat,
        ),
        limit <= 0 ==> select_suffix(order, limit, 0) == select_suffix(order, 0, 0),
        offset > 0 ==> select_suffix(order, limit, offset) == select_suffix(order, limit, 0) + " OFFSET "@ + decimal(
            offset as nat,
        ),
        offset <= 0 ==> select_suffix(order, limit, offset) == select_suffix(order, limit, 0),
{
    assert(select_suffix(order, 0, 0) =~= alias_suffix() + (if order.len() > 0 {
        " ORDER BY "@ + order
    } else {
        Seq::empty()
    }));
    if limit > 0 {
        assert(select_suffix(order, limit, 0) =~= select_suffix(order, 0, 0) + " LIMIT "@ + decimal(limit as nat));
    } else {
        assert(select_suffix(order, limit, 0) =~= select_suffix(order, 0, 0));
    }
    if offset > 0 {
        assert(select_suffix(order, limit, offset) =~= select_suffix(order, limit, 0) + " OFFSET "@ + decimal(
            offset as nat,
        ));
    } else {
        assert(select_suffix(order, limit, offset) =~= select_suffix(order, limit, 0));
    }
}

/// The limit and the offset of a wrapper can be set in either order, and
/// setting a value again replaces the earlier one.
pub proof fn lemma_settings_commute(st: (Seq<char>, i64, i64), limit: i64, offset: i64, limit2: i64)
    ensures
        with_offset(with_limit(st, limit), offset) == with_limit(with_offset(st, offset), limit),
        with_limit(with_limit(st, limit), limit2) == with_limit(st, limit2),
{
}

} // verus!
