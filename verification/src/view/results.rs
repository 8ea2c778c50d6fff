//! A result set as a table of text.
//!
//! The columns are the members of the first row. Every row that is an
//! object gives one line of the table; a row that is none is left out.

use crate::domain::result::{
    compact_json, json_compact, member, names_of, spec_member, spec_names, JsonValue,
};
use crate::text::{clone_strings, views};
use vstd::prelude::*;
use vstd::string::*;

verus! {

/// The builder of `tabled`, which collects the records of a table.
#[verifier::external_type_specification]
#[verifier::external_body]
pub struct ExBuilder(tabled::builder::Builder);

/// The records that a builder holds, in the order in which they were
/// pushed, each a list of cells.
pub uninterp spec fn builder_records(builder: tabled::builder::Builder) -> Seq<Seq<Seq<char>>>;

/// The text that `tabled` draws for a list of records in its `psql` style:
/// the first record as the header, a line under it, columns parted by `|`.
pub uninterp spec fn psql_table(records: Seq<Seq<Seq<char>>>) -> Seq<char>;

/// `Builder::default` of `tabled`: a builder without records.
#[verifier::external_body]
fn new_builder() -> (r: tabled::builder::Builder)
    ensures
        builder_records(r) == Seq::<Seq<Seq<char>>>::empty(),
{
    tabled::builder::Builder::default()
}

/// `Builder::push_record` of `tabled`: adds `record` after the records that
/// the builder holds. This is claimed only for a record that has as many
/// cells as each record before it: for any other, `tabled` fills up the
/// shorter ones.
#[verifier::external_body]
fn push_record(builder: &mut tabled::builder::Builder, record: Vec<String>)
    requires
        forall|i: int|
            0 <= i < builder_records(*old(builder)).len() ==> (#[trigger] builder_records(
                *old(builder),
            )[i]).len() == record@.len(),
    ensures
        builder_records(*final(builder)) == builder_records(*old(builder)).push(views(record@)),
{
    builder.push_record(record)
}

/// `Builder::build`, `Table::with` for `Style::psql`, and the table's
/// `to_string`, of `tabled`: draws the records that the builder holds. The
/// text depends on the records alone.
#[verifier::external_body]
fn render_psql(builder: tabled::builder::Builder) -> (r: String)
    ensures
        r@ == psql_table(builder_records(builder)),
{
    let mut table = builder.build();
    table.with(tabled::settings::Style::psql());
    table.to_string()
}

/// The rows that a value holds: the items of an array, or of the array
/// that an object holds as its member `results`.
pub open spec fn spec_rows(value: JsonValue) -> Option<Seq<JsonValue>> {
    match value {
        JsonValue::Array(items) => Some(items@),
        JsonValue::Object(members) => match spec_member(members@, "results"@) {
            Some(JsonValue::Array(items)) => Some(items@),
            _ => None,
        },
        _ => None,
    }
}

/// The text of a cell: a string as it is, `null` for null, `true` or
/// `false`, a number's numeral, and any other value as compact JSON.
pub open spec fn cell_text(value: JsonValue) -> Seq<char> {
    match value {
        JsonValue::String(s) => s@,
        JsonValue::Null => "null"@,
        JsonValue::Bool(b) => if b {
            "true"@
        } else {
            "false"@
        },
        JsonValue::Number(numeral) => numeral@,
        _ => json_compact(value),
    }
}

/// The cells of a row under the given headers: the text of the member of
/// that name, and nothing where the row has no such member.
pub open spec fn row_cells(headers: Seq<Seq<char>>, members: Seq<(String, JsonValue)>) -> Seq<
    Seq<char>,
> {
    Seq::new(
        headers.len(),
        |i: int|
            match spec_member(members, headers[i]) {
                Some(value) => cell_text(value),
                None => Seq::empty(),
            },
    )
}

/// The records of the rows that are objects, in the order of the rows.
pub open spec fn body_records(headers: Seq<Seq<char>>, rows: Seq<JsonValue>) -> Seq<
    Seq<Seq<char>>,
>
    decreases rows.len(),
{
    if rows.len() == 0 {
        Seq::empty()
    } else {
        let before = body_records(headers, rows.drop_last());
        match rows.last() {
            JsonValue::Object(members) => before.push(row_cells(headers, members@)),
            _ => before,
        }
    }
}

/// The records of the table of `rows`: the names of the first row's
/// members, then one record for each row that is an object. Where the first
/// row is no object, the table has no record at all.
pub open spec fn table_records(rows: Seq<JsonValue>) -> Seq<Seq<Seq<char>>> {
    if rows.len() > 0 && rows[0] is Object {
        let headers = spec_names(rows[0]->Object_0@);
        seq![headers] + body_records(headers, rows)
    } else {
        Seq::empty()
    }
}

/// The table that shows `value`: none where it holds no rows, or no row.
pub open spec fn spec_get_results(value: JsonValue) -> Option<Seq<char>> {
    match spec_rows(value) {
        Some(rows) => if rows.len() == 0 {
            None
        } else {
            Some(psql_table(table_records(rows)))
        },
        None => None,
    }
}

/// The rows that `value` holds.
pub fn rows_of(value: &JsonValue) -> (r: Option<&Vec<JsonValue>>)
    ensures
        match r {
            Some(rows) => spec_rows(*value) == Some(rows@),
            None => spec_rows(*value) is None,
        },
{
    match value {
        JsonValue::Array(items) => Some(items),
        JsonValue::Object(members) => match member(members, "results") {
            Some(JsonValue::Array(items)) => Some(items),
            _ => None,
        },
        _ => None,
    }
}

fn text_of_cell(value: &JsonValue) -> (r: String)
    ensures
        r@ == cell_text(*value),
{
    match value {
        JsonValue::String(s) => s.clone(),
        JsonValue::Null => String::from_str("null"),
        JsonValue::Bool(b) => if *b {
            String::from_str("true")
        } else {
            String::from_str("false")
        },
        JsonValue::Number(numeral) => numeral.clone(),
        _ => compact_json(value),
    }
}

fn cells_of(headers: &Vec<String>, members: &Vec<(String, JsonValue)>) -> (r: Vec<String>)
    ensures
        r@.len() == headers@.len(),
        views(r@) == row_cells(views(headers@), members@),
{
    let mut cells: Vec<String> = Vec::new();
    let mut i: usize = 0;
    while i < headers.len()
        invariant
            i <= headers.len(),
            cells@.len() == i,
            forall|j: int|
                0 <= j < i ==> cells@[j]@ == #[trigger] row_cells(views(headers@), members@)[j],
        decreases headers.len() - i,
    {
        let cell = match member(members, headers[i].as_str()) {
            Some(value) => text_of_cell(value),
            None => String::new(),
        };
        proof {
            assert(views(headers@)[i as int] == headers@[i as int]@);
        }
        cells.push(cell);
        i += 1;
    }
    proof {
        assert(views(cells@) =~= row_cells(views(headers@), members@));
    }
    cells
}

/// Draws the table of `rows`.
pub fn render_rows(rows: &[JsonValue]) -> (r: String)
    ensures
        r@ == psql_table(table_records(rows@)),
{
    let mut builder = new_builder();
    if rows.len() > 0 {
        if let JsonValue::Object(first) = &rows[0] {
            let headers = names_of(first);
            let ghost width = headers@.len();
            push_record(&mut builder, clone_strings(&headers));
            let mut i: usize = 0;
            while i < rows.len()
                invariant
                    i <= rows.len(),
                    width == headers@.len(),
                    builder_records(builder) == seq![views(headers@)] + body_records(
                        views(headers@),
                        rows@.subrange(0, i as int),
                    ),
                    forall|j: int|
                        0 <= j < builder_records(builder).len() ==> (#[trigger] builder_records(
                            builder,
                        )[j]).len() == width,
                decreases rows.len() - i,
            {
                proof {
                    assert(rows@.subrange(0, i as int + 1).drop_last() =~= rows@.subrange(
                        0,
                        i as int,
                    ));
                }
                if let JsonValue::Object(members) = &rows[i] {
                    let cells = cells_of(&headers, members);
                    push_record(&mut builder, cells);
                }
                i += 1;
            }
            proof {
                assert(rows@.subrange(0, rows@.len() as int) =~= rows@);
            }
        }
    }
    render_psql(builder)
}

/// Draws the table that shows `results`: the rows of an array, or of the
/// array under `results` in an object. There is no table for a value that
/// holds no rows, nor for one without a row.
pub fn get_results(results: &JsonValue) -> (r: Option<String>)
    ensures
        match r {
            Some(table) => spec_get_results(*results) == Some(table@),
            None => spec_get_results(*results) is None,
        },
{
    match rows_of(results) {
        None => None,
        Some(rows) => {
            if rows.len() == 0 {
                None
            } else {
                Some(render_rows(rows.as_slice()))
            }
        },
    }
}

} // verus!
