//! The shape of one statement's server response: optional column
//! descriptors, optional rows of display values, optional progress
//! counters.

use vstd::prelude::*;

use crate::stats::ProgressStats;

verus! {

/// One column descriptor. The service promises at least a name; the type
/// accompanies it but rendering shows only the name.
#[derive(Clone, Debug, PartialEq, Eq)]
pub struct Column {
    pub name: String,
    pub data_type: String,
}

/// One statement's decoded response. Every field may be absent: a
/// response without columns renders a header-less table, one without rows
/// a body-less table, and one without stats reports no throughput.
#[derive(Clone, Debug, PartialEq, Eq)]
pub struct QueryResponse {
    pub columns: Option<Vec<Column>>,
    pub data: Option<Vec<Vec<String>>>,
    pub stats: Option<ProgressStats>,
}

/// The header names of a response: the column names in order, or nothing
/// when columns are absent.
pub open spec fn header_names(resp: QueryResponse) -> Seq<Seq<char>> {
    match resp.columns {
        Option::None => Seq::empty(),
        Option::Some(cols) => cols@.map_values(|c: Column| c.name@),
    }
}

/// The body rows of a response: each row's display values in column
/// order, or nothing when rows are absent.
pub open spec fn row_texts(resp: QueryResponse) -> Seq<Seq<Seq<char>>> {
    match resp.data {
        Option::None => Seq::empty(),
        Option::Some(rows) => rows.deep_view(),
    }
}

} // verus!
