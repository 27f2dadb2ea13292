//! The two statements that are ever sent to the database.

use vstd::prelude::*;
use crate::sensor::{lemma_table_name_len, lemma_table_names_distinct, SensorKind};
use crate::window::{is_decimal, Window};

verus! {

/// The text of the statement that selects a kind's readings of the last
/// `window` minutes. The database compares against its own clock.
pub open spec fn select_query_text(kind: SensorKind, window: Seq<char>) -> Seq<char> {
    "SELECT * FROM "@ + kind.spec_table_name()
        + " WHERE recording_time >= datetime('now', '-"@ + window + " minutes')"@
}

/// The text of the statement that deletes every reading of a kind.
pub open spec fn delete_query_text(kind: SensorKind) -> Seq<char> {
    "DELETE FROM "@ + kind.spec_table_name()
}

pub fn select_query(kind: SensorKind, window: &Window) -> (query: String)
    ensures
        query@ == select_query_text(kind, window@),
        is_decimal(window@),
{
    let mut query = String::from_str("SELECT * FROM ");
    query.append(kind.table_name());
    query.append(" WHERE recording_time >= datetime('now', '-");
    query.append(window.as_str());
    query.append(" minutes')");
    query
}

pub fn delete_query(kind: SensorKind) -> (query: String)
    ensures
        query@ == delete_query_text(kind),
{
    let mut query = String::from_str("DELETE FROM ");
    query.append(kind.table_name());
    query
}

/// A select statement names one table, directly after `FROM`: the table of
/// the kind it was built for, which is the table of no other kind.
pub proof fn lemma_select_query_scoped(kind: SensorKind, window: Seq<char>, other: SensorKind)
    ensures
        select_query_text(kind, window).subrange(0, 14) == "SELECT * FROM "@,
        select_query_text(kind, window).subrange(14, 22) == kind.spec_table_name(),
        select_query_text(kind, window)[22] == ' ',
        other != kind ==> select_query_text(kind, window).subrange(14, 22)
            != other.spec_table_name(),
{
    reveal_strlit("SELECT * FROM ");
    reveal_strlit(" WHERE recording_time >= datetime('now', '-");
    lemma_table_name_len(kind);
    let q = select_query_text(kind, window);
    assert(q.subrange(0, 14) =~= "SELECT * FROM "@);
    assert(q.subrange(14, 22) =~= kind.spec_table_name());
    if other != kind {
        lemma_table_names_distinct(other, kind);
    }
}

/// The window of a select statement stands as it is between two fixed
/// texts, and closes the statement with them. A window that is a plain
/// decimal brings no quote into the statement.
pub proof fn lemma_select_query_window(kind: SensorKind, window: Seq<char>)
    ensures
        select_query_text(kind, window).len() == 75 + window.len(),
        select_query_text(kind, window).subrange(22, 65)
            == " WHERE recording_time >= datetime('now', '-"@,
        select_query_text(kind, window).subrange(65, 65 + window.len() as int) == window,
        select_query_text(kind, window).subrange(65 + window.len() as int, 75 + window.len() as int)
            == " minutes')"@,
        is_decimal(window) ==> forall|i: int|
            65 <= i < 65 + window.len() as int ==> #[trigger] select_query_text(kind, window)[i] != '\'',
{
    reveal_strlit("SELECT * FROM ");
    reveal_strlit(" WHERE recording_time >= datetime('now', '-");
    reveal_strlit(" minutes')");
    lemma_table_name_len(kind);
    let q = select_query_text(kind, window);
    assert(q.subrange(22, 65) =~= " WHERE recording_time >= datetime('now', '-"@);
    assert(q.subrange(65, 65 + window.len() as int) =~= window);
    assert(q.subrange(65 + window.len() as int, 75 + window.len() as int) =~= " minutes')"@);
    if is_decimal(window) {
        assert forall|i: int| 65 <= i < 65 + window.len() as int implies #[trigger] q[i] != '\'' by {
            assert(q[i] == window[i - 65]);
        }
    }
}

/// A delete statement names one table, directly after `FROM`, and nothing
/// follows it: no condition narrows what is deleted.
pub proof fn lemma_delete_query_scoped(kind: SensorKind, other: SensorKind)
    ensures
        delete_query_text(kind).len() == 20,
        delete_query_text(kind).subrange(0, 12) == "DELETE FROM "@,
        delete_query_text(kind).subrange(12, 20) == kind.spec_table_name(),
        other != kind ==> delete_query_text(kind).subrange(12, 20) != other.spec_table_name(),
{
    reveal_strlit("DELETE FROM ");
    lemma_table_name_len(kind);
    let q = delete_query_text(kind);
    assert(q.subrange(0, 12) =~= "DELETE FROM "@);
    assert(q.subrange(12, 20) =~= kind.spec_table_name());
    if other != kind {
        lemma_table_names_distinct(other, kind);
    }
}

} // verus!
