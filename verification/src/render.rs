//! Result rendering: one response becomes one bordered table. The table
//! itself is built and drawn by comfy-table; what goes into it, and that
//! the drawn text is exactly the text of what went in, is verified here.

use vstd::prelude::*;

use crate::response::{header_names, row_texts, QueryResponse};
use crate::stats::{format_stats, stats_line};

verus! {

#[verifier::external_type_specification]
#[verifier::external_body]
pub struct ExTable(comfy_table::Table);

/// Whether a header row has been set. comfy-table draws a header row and
/// its delimiter line whenever one was set, even one with no cells, so
/// presence is part of the model, apart from the cell texts.
pub uninterp spec fn table_has_header(t: comfy_table::Table) -> bool;

/// The header cells a table holds, in order; empty while no header is set.
pub uninterp spec fn table_header(t: comfy_table::Table) -> Seq<Seq<char>>;

/// The body rows a table holds, in order, each a row of cell texts.
pub uninterp spec fn table_rows(t: comfy_table::Table) -> Seq<Seq<Seq<char>>>;

/// The border/separator preset a table draws with.
pub uninterp spec fn table_preset(t: comfy_table::Table) -> Seq<char>;

/// The text a table draws as, as a function of its preset, whether a
/// header was set, the header cells, and the rows; fixed by pinning tty
/// detection off and styling on when the table is made.
pub uninterp spec fn table_text(
    preset: Seq<char>,
    has_header: bool,
    header: Seq<Seq<char>>,
    rows: Seq<Seq<Seq<char>>>,
) -> Seq<char>;

/// Relies on `comfy_table::Table::new`: a new table has no header and no
/// rows. `force_no_tty` and `enforce_styling` pin the drawing so that it
/// depends on the table's contents alone, not on where output goes.
#[verifier::external_body]
fn table_new() -> (t: comfy_table::Table)
    ensures
        !table_has_header(t),
        table_header(t) == Seq::<Seq<char>>::empty(),
        table_rows(t) == Seq::<Seq<Seq<char>>>::empty(),
{
    let mut t = comfy_table::Table::new();
    t.force_no_tty();
    t.enforce_styling();
    t
}

/// Relies on `comfy_table::Table::load_preset`: it replaces the border and
/// separator characters and touches neither header nor rows. Only a preset
/// of exactly the nineteen style components is admitted: a shorter string
/// would leave the remaining components as they were, and characters past
/// the nineteenth are ignored, so only at this length does the string
/// determine the style.
#[verifier::external_body]
fn table_load_preset(t: &mut comfy_table::Table, preset: &str)
    requires
        preset@.len() == 19,
    ensures
        table_preset(*final(t)) == preset@,
        table_has_header(*final(t)) == table_has_header(*old(t)),
        table_header(*final(t)) == table_header(*old(t)),
        table_rows(*final(t)) == table_rows(*old(t)),
{
    t.load_preset(preset);
}

/// Relies on `comfy_table::Table::set_header` and `Cell::fg`: the header
/// becomes the given names, highlighted green; rows and preset stay.
#[verifier::external_body]
fn table_set_header_green(t: &mut comfy_table::Table, names: &Vec<String>)
    ensures
        table_has_header(*final(t)),
        table_header(*final(t)) == names.deep_view(),
        table_rows(*final(t)) == table_rows(*old(t)),
        table_preset(*final(t)) == table_preset(*old(t)),
{
    t.set_header(names.iter().map(|n| comfy_table::Cell::new(n).fg(comfy_table::Color::Green)));
}

/// Relies on `comfy_table::Table::add_row`: it appends exactly one row
/// with the given cell texts; header and preset stay.
#[verifier::external_body]
fn table_add_row(t: &mut comfy_table::Table, cells: &Vec<String>)
    ensures
        table_rows(*final(t)) == table_rows(*old(t)).push(cells.deep_view()),
        table_has_header(*final(t)) == table_has_header(*old(t)),
        table_header(*final(t)) == table_header(*old(t)),
        table_preset(*final(t)) == table_preset(*old(t)),
{
    t.add_row(cells.iter().map(comfy_table::Cell::new));
}

/// Relies on `comfy_table::Table::trim_fmt`: it draws the table with
/// trailing whitespace trimmed from every line.
#[verifier::external_body]
fn table_trim_fmt(t: &comfy_table::Table) -> (r: String)
    ensures
        r@ == table_text(
            table_preset(*t),
            table_has_header(*t),
            table_header(*t),
            table_rows(*t),
        ),
{
    t.trim_fmt()
}

/// The text a response renders as: the pipeline's fixed preset, a header
/// present exactly when columns are present and holding the column names,
/// and every row's values in order as the body.
pub open spec fn rendered_response(resp: QueryResponse) -> Seq<char> {
    table_text("||--+-++|    ++++++"@, resp.columns is Some, header_names(resp), row_texts(resp))
}

/// Builds the bordered result table for one response. The table has a
/// header exactly when columns are present, even an empty column list;
/// absent rows make a body-less table; rows are shown as sent, with no
/// width check against the column count. The header names carry their
/// highlighting color codes in the returned text itself, wherever the
/// output then goes.
pub fn render_response(resp: &QueryResponse) -> (r: String)
    ensures
        r@ == rendered_response(*resp),
{
    let mut t = table_new();
    proof {
        reveal_strlit("||--+-++|    ++++++");
        assert("||--+-++|    ++++++"@.len() == 19);
    }
    table_load_preset(&mut t, "||--+-++|    ++++++");
    match &resp.columns {
        Option::Some(cols) => {
            let ghost names_spec: Seq<Seq<char>> = cols@.map_values(|c: crate::response::Column| c.name@);
            let mut names: Vec<String> = Vec::new();
            let mut i: usize = 0;
            while i < cols.len()
                invariant
                    names_spec == cols@.map_values(|c: crate::response::Column| c.name@),
                    0 <= i <= cols.len(),
                    names.deep_view() == names_spec.take(i as int),
                decreases cols.len() - i,
            {
                let ghost before: Seq<Seq<char>> = names.deep_view();
                names.push(cols[i].name.clone());
                proof {
                    assert(names.deep_view() =~~= before.push(cols@[i as int].name@));
                    assert(names.deep_view() =~~= names_spec.take(i as int + 1));
                }
                i += 1;
            }
            proof {
                assert(names_spec.take(cols@.len() as int) =~~= names_spec);
            }
            table_set_header_green(&mut t, &names);
            proof {
                assert(table_has_header(t) == (resp.columns is Some));
                assert(table_header(t) == header_names(*resp));
            }
        },
        Option::None => {
            proof {
                assert(table_has_header(t) == (resp.columns is Some));
                assert(table_header(t) == header_names(*resp));
            }
        },
    }
    match &resp.data {
        Option::Some(rows) => {
            let mut i: usize = 0;
            while i < rows.len()
                invariant
                    table_rows(t) == rows.deep_view().take(i as int),
                    table_has_header(t) == (resp.columns is Some),
                    table_header(t) == header_names(*resp),
                    table_preset(t) == "||--+-++|    ++++++"@,
                    0 <= i <= rows.len(),
                    resp.data matches Option::Some(rs) && rs == rows,
                decreases rows.len() - i,
            {
                table_add_row(&mut t, &rows[i]);
                proof {
                    assert(rows[i as int].deep_view() == rows.deep_view()[i as int]);
                    assert(rows.deep_view().take(i as int).push(rows.deep_view()[i as int]) =~~= rows.deep_view().take(i as int + 1));
                }
                i += 1;
            }
            proof {
                assert(rows.deep_view().take(rows@.len() as int) =~~= rows.deep_view());
            }
        },
        Option::None => {},
    }
    proof {
        assert(table_rows(t) == row_texts(*resp));
    }
    table_trim_fmt(&t)
}

/// One statement's displayable outcome: the rendered table and, when the
/// server sent progress counters and the round trip took a measurable
/// time, the throughput line.
pub fn render_outcome(resp: &QueryResponse, elapsed_ms: u64) -> (r: (String, Option<String>))
    ensures
        r.0@ == rendered_response(*resp),
        resp.stats is None ==> r.1 is None,
        elapsed_ms == 0 ==> r.1 is None,
        resp.stats matches Some(st) ==> (elapsed_ms > 0 ==> (r.1 matches Some(line) && line@
            == stats_line(st, elapsed_ms))),
{
    let table = render_response(resp);
    let line = match &resp.stats {
        Option::Some(st) => format_stats(st, elapsed_ms),
        Option::None => None,
    };
    (table, line)
}

} // verus!
