//! Construction of the parameterized export statement.
//!
//! The statement has one fixed shape. The series column is interpolated
//! as an identifier — identifiers cannot be bound parameters in SQL —
//! and is safe only because it comes from the closed `SeriesName`
//! enumeration, never from raw request text. The decimation factor and
//! both dates are bound parameters (`$1`, `$2`, `$3`), never text.

use vstd::prelude::*;
use vstd::string::StringExecFns;
use crate::series::SeriesName;
use crate::series::lemma_column_text_injective;

verus! {

/// The full text of the export statement for one series: select the
/// timestamp and that one column, keep every row whose id the
/// decimation divides, drop rows that failed their integrity check,
/// bound the timestamp by the start day's beginning and the whole of
/// the stop day, and order by row id ascending.
pub open spec fn query_text(series: SeriesName) -> Seq<char> {
    "SELECT servdate, "@ + series.column_text()
        + " FROM battery WHERE id % $1 = 0 AND erreur_crc16 = FALSE AND servdate >= $2 AND servdate < $3 + INTERVAL '1 day' ORDER BY id ASC;"@
}

/// Build the export statement for the given series. The result is
/// exactly `query_text(series)`: a fixed prefix, the one validated
/// column identifier, and a fixed suffix — nothing of the raw request
/// text reaches the statement.
pub fn build_query(series: SeriesName) -> (r: String)
    ensures
        r@ == query_text(series),
{
    let mut q: String = "SELECT servdate, ".to_owned();
    q.append(series.column_name());
    q.append(
        " FROM battery WHERE id % $1 = 0 AND erreur_crc16 = FALSE AND servdate >= $2 AND servdate < $3 + INTERVAL '1 day' ORDER BY id ASC;",
    );
    proof {
        assert(q@ =~= query_text(series));
    }
    q
}

/// Distinct series produce distinct statements: a request for one
/// column can never yield another column's statement, so no other
/// column's data can leak through the query.
pub proof fn lemma_query_distinguishes_series(s1: SeriesName, s2: SeriesName)
    requires
        s1 != s2,
    ensures
        query_text(s1) != query_text(s2),
{
    lemma_column_text_injective(s1, s2);
    let p = "SELECT servdate, "@;
    let c1 = s1.column_text();
    let c2 = s2.column_text();
    let t =
        " FROM battery WHERE id % $1 = 0 AND erreur_crc16 = FALSE AND servdate >= $2 AND servdate < $3 + INTERVAL '1 day' ORDER BY id ASC;"@;
    if query_text(s1) == query_text(s2) {
        assert(p + c1 + t == p + c2 + t);
        assert(c1.len() == c2.len());
        assert forall|k: int| 0 <= k < c1.len() implies c1[k] == c2[k] by {
            assert((p + c1 + t)[p.len() + k] == c1[k]);
            assert((p + c2 + t)[p.len() + k] == c2[k]);
        }
        assert(c1 =~= c2);
    }
}

} // verus!
