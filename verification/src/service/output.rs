//! A result set as the contents of a file, in CSV or in JSON.
//!
//! Nothing here touches the file system: a result set becomes the name of
//! a file and the bytes to put in it, and whoever holds the file system
//! writes them.

use crate::domain::output::OutputFormat;
use crate::domain::result::{
    compact_json, json_compact, json_pretty, lemma_member_is_the_one, member, names_distinct,
    pretty_json, spec_member, spec_names, JsonValue,
};
use crate::text::{concat2, concat3, decimal, str_eq, to_decimal, views};
use vstd::prelude::*;
use vstd::string::*;

verus! {

/// The writer of `csv`, over bytes held in memory.
#[verifier::external_body]
pub struct CsvWriter {
    inner: csv::Writer<Vec<u8>>,
}

/// The bytes that a writer has been given so far.
pub uninterp spec fn csv_written(writer: CsvWriter) -> Seq<u8>;

/// The number of fields in each record that a writer has been given so
/// far; `None` before the first record.
pub uninterp spec fn csv_width(writer: CsvWriter) -> Option<nat>;

/// The bytes that `csv` writes for one record: its fields, quoted where
/// they must be, with commas between them and a line feed at the end.
pub uninterp spec fn csv_record(fields: Seq<Seq<char>>) -> Seq<u8>;

/// `Writer::from_writer` of `csv`, over an empty vector of bytes: a writer
/// that has been given nothing yet.
#[verifier::external_body]
fn new_csv_writer() -> (r: CsvWriter)
    ensures
        csv_written(r) == Seq::<u8>::empty(),
        csv_width(r) is None,
{
    CsvWriter { inner: csv::Writer::from_writer(Vec::new()) }
}

/// `Writer::write_record` of `csv`: adds the bytes of one record to what
/// the writer has been given. The writer refuses a record whose number of
/// fields differs from that of the first record, so this is claimed only
/// for records that agree in it; a vector of bytes takes whatever is
/// written to it.
#[verifier::external_body]
fn write_csv_record(writer: &mut CsvWriter, record: &Vec<String>) -> (r: Result<(), String>)
    requires
        csv_width(*old(writer)) is Some ==> csv_width(*old(writer)) == Some(record@.len()),
    ensures
        r is Ok,
        csv_written(*final(writer)) == csv_written(*old(writer)) + csv_record(views(record@)),
        csv_width(*final(writer)) == Some(record@.len()),
{
    writer.inner.write_record(record).map_err(|e| e.to_string())
}

/// `Writer::into_inner` of `csv`: hands out the bytes that the writer has
/// been given. It fails only where the bytes cannot be written to what is
/// underneath, which a vector of bytes never refuses.
#[verifier::external_body]
fn finish_csv(writer: CsvWriter) -> (r: Result<Vec<u8>, String>)
    ensures
        r is Ok,
        r->Ok_0@ == csv_written(writer),
{
    writer.inner.into_inner().map_err(|e| e.to_string())
}

/// The point in time that a result file is named after, as the calendar
/// and the clock show it.
#[derive(Debug, Clone, Copy, PartialEq, Eq, Structural)]
pub struct Timestamp {
    pub month: u8,
    pub day: u8,
    pub hour: u8,
    pub minute: u8,
    pub second: u8,
}

/// `n` in decimal with at least two digits.
pub open spec fn spec_two_digits(n: nat) -> Seq<char> {
    if n < 10 {
        "0"@ + decimal(n)
    } else {
        decimal(n)
    }
}

/// The name of the file that holds results written at `time` in `format`:
/// month, day, hour, minute and second with two digits each and hyphens
/// between them, then a dot and the format's extension.
pub open spec fn spec_file_name(time: Timestamp, format: OutputFormat) -> Seq<char> {
    spec_two_digits(time.month as nat) + "-"@ + spec_two_digits(time.day as nat) + "-"@
        + spec_two_digits(time.hour as nat) + "-"@ + spec_two_digits(time.minute as nat) + "-"@
        + spec_two_digits(time.second as nat) + "."@ + format.spec_extension()
}

fn two_digits(n: u8) -> (r: String)
    ensures
        r@ == spec_two_digits(n as nat),
{
    let digits = to_decimal(n as u128);
    if n < 10 {
        concat2("0", digits.as_str())
    } else {
        digits
    }
}

/// The name of the file that holds results written at `time` in `format`.
pub fn file_name(time: &Timestamp, format: &OutputFormat) -> (r: String)
    ensures
        r@ == spec_file_name(*time, *format),
{
    let mut name = two_digits(time.month);
    name.append("-");
    name.append(two_digits(time.day).as_str());
    name.append("-");
    name.append(two_digits(time.hour).as_str());
    name.append("-");
    name.append(two_digits(time.minute).as_str());
    name.append("-");
    name.append(two_digits(time.second).as_str());
    name.append(".");
    name.append(format.extension());
    name
}

/// Why a result set could not be turned into the contents of a file.
#[derive(Debug)]
pub enum OutputError {
    /// The first row is no object, so there are no columns.
    NotAnArrayOfObjects,
    /// A row after the first is no object.
    RowNotAnObject,
    /// The rows could not be written as JSON; the cause is added.
    Serialize(String),
    /// The rows could not be written as CSV; the cause is added.
    Csv(String),
}

impl OutputError {
    /// The error and its cause in one line, the cause last.
    pub open spec fn spec_message(self) -> Seq<char> {
        match self {
            OutputError::NotAnArrayOfObjects => "expected results to be an array of objects"@,
            OutputError::RowNotAnObject => "expected each result to be an object"@,
            OutputError::Serialize(cause) => "couldn't serialize results to JSON: "@ + cause@,
            OutputError::Csv(cause) => cause@,
        }
    }

    /// The error and its cause in one line, the cause last.
    pub fn to_string(&self) -> (r: String)
        ensures
            r@ == self.spec_message(),
    {
        match self {
            OutputError::NotAnArrayOfObjects => String::from_str(
                "expected results to be an array of objects",
            ),
            OutputError::RowNotAnObject => String::from_str("expected each result to be an object"),
            OutputError::Serialize(cause) => concat2(
                "couldn't serialize results to JSON: ",
                cause.as_str(),
            ),
            OutputError::Csv(cause) => cause.clone(),
        }
    }
}

/// The text of a CSV field: nothing for null, `true` or `false`, a
/// number's numeral, a string as it is, and any other value as compact
/// JSON.
pub open spec fn csv_field(value: JsonValue) -> Seq<char> {
    match value {
        JsonValue::Null => Seq::empty(),
        JsonValue::Bool(b) => if b {
            "true"@
        } else {
            "false"@
        },
        JsonValue::Number(numeral) => numeral@,
        JsonValue::String(s) => s@,
        _ => json_compact(value),
    }
}

/// The fields of a row under the given headers: the text of the member of
/// that name, and an empty field where the row has no such member.
pub open spec fn csv_fields(headers: Seq<Seq<char>>, members: Seq<(String, JsonValue)>) -> Seq<
    Seq<char>,
> {
    Seq::new(
        headers.len(),
        |i: int|
            match spec_member(members, headers[i]) {
                Some(value) => csv_field(value),
                None => Seq::empty(),
            },
    )
}

/// Whether every one of `rows` is an object.
pub open spec fn all_objects(rows: Seq<JsonValue>) -> bool {
    forall|i: int| 0 <= i < rows.len() ==> (#[trigger] rows[i]) is Object
}

/// The bytes of the records of `rows` under the given headers, one record
/// after the other.
pub open spec fn csv_body(headers: Seq<Seq<char>>, rows: Seq<JsonValue>) -> Seq<u8>
    decreases rows.len(),
{
    if rows.len() == 0 {
        Seq::empty()
    } else {
        let before = csv_body(headers, rows.drop_last());
        match rows.last() {
            JsonValue::Object(members) => before + csv_record(csv_fields(headers, members@)),
            _ => before,
        }
    }
}

/// `names` and, after them, each name of `members` that is not there
/// yet, in the order of the members.
pub open spec fn add_names(names: Seq<Seq<char>>, members: Seq<(String, JsonValue)>) -> Seq<
    Seq<char>,
>
    decreases members.len(),
{
    if members.len() == 0 {
        names
    } else {
        let before = add_names(names, members.drop_last());
        let name = members.last().0@;
        if before.contains(name) {
            before
        } else {
            before.push(name)
        }
    }
}

/// The header of `rows`: every name that a member of any row has, once,
/// in the order in which the names first occur. So the names of the first
/// row come first, and each further name stands where a later row first
/// brings it.
pub open spec fn spec_header(rows: Seq<JsonValue>) -> Seq<Seq<char>>
    decreases rows.len(),
{
    if rows.len() == 0 {
        Seq::empty()
    } else {
        let before = spec_header(rows.drop_last());
        match rows.last() {
            JsonValue::Object(members) => add_names(before, members@),
            _ => before,
        }
    }
}

/// What `rows` make as CSV: nothing for no rows; else the header, then a
/// record for each row, with an empty field where the row has no member
/// of that name. No value of any row is left out. Every row has to be an
/// object.
pub open spec fn spec_write_csv(rows: Seq<JsonValue>) -> Result<Seq<u8>, Seq<char>> {
    if rows.len() == 0 {
        Ok(Seq::empty())
    } else if !(rows[0] is Object) {
        Err(OutputError::NotAnArrayOfObjects.spec_message())
    } else if !all_objects(rows) {
        Err(OutputError::RowNotAnObject.spec_message())
    } else {
        let headers = spec_header(rows);
        Ok(csv_record(headers) + csv_body(headers, rows))
    }
}

/// The text of a CSV field.
pub fn value_to_csv_field(value: &JsonValue) -> (r: String)
    ensures
        r@ == csv_field(*value),
{
    match value {
        JsonValue::Null => String::new(),
        JsonValue::Bool(b) => if *b {
            String::from_str("true")
        } else {
            String::from_str("false")
        },
        JsonValue::Number(numeral) => numeral.clone(),
        JsonValue::String(s) => s.clone(),
        _ => compact_json(value),
    }
}

fn fields_of(headers: &Vec<String>, members: &Vec<(String, JsonValue)>) -> (r: Vec<String>)
    ensures
        r@.len() == headers@.len(),
        views(r@) == csv_fields(views(headers@), members@),
{
    let mut fields: Vec<String> = Vec::new();
    let mut i: usize = 0;
    while i < headers.len()
        invariant
            i <= headers.len(),
            fields@.len() == i,
            forall|j: int|
                0 <= j < i ==> fields@[j]@ == #[trigger] csv_fields(views(headers@), members@)[j],
        decreases headers.len() - i,
    {
        let field = match member(members, headers[i].as_str()) {
            Some(value) => value_to_csv_field(value),
            None => String::new(),
        };
        proof {
            assert(views(headers@)[i as int] == headers@[i as int]@);
        }
        fields.push(field);
        i += 1;
    }
    proof {
        assert(views(fields@) =~= csv_fields(views(headers@), members@));
    }
    fields
}

/// Adding the names of members keeps the names that were there, in their
/// places, and leaves out no name of a member.
pub proof fn lemma_add_names_keeps_all(names: Seq<Seq<char>>, members: Seq<(String, JsonValue)>)
    ensures
        names.is_prefix_of(add_names(names, members)),
        forall|j: int|
            0 <= j < members.len() ==> add_names(names, members).contains(
                (#[trigger] members[j]).0@,
            ),
    decreases members.len(),
{
    let after = add_names(names, members);
    if members.len() == 0 {
        assert(names =~= after.subrange(0, names.len() as int));
    } else {
        let rest = members.drop_last();
        let before = add_names(names, rest);
        let name = members.last().0@;
        lemma_add_names_keeps_all(names, rest);
        assert(before =~= after.subrange(0, before.len() as int));
        assert(names =~= before.subrange(0, names.len() as int));
        assert(names =~= after.subrange(0, names.len() as int));
        assert forall|j: int| 0 <= j < members.len() implies after.contains(
            (#[trigger] members[j]).0@,
        ) by {
            if j < rest.len() {
                assert(rest[j] == members[j]);
                let k = choose|k: int| 0 <= k < before.len() && before[k] == rest[j].0@;
                assert(after[k] == members[j].0@);
            } else if before.contains(name) {
                assert(after == before);
            } else {
                assert(after[after.len() - 1] == name);
            }
        }
    }
}

/// The header leaves out no name: whatever member a row has, its name is
/// in the header, so that its value has a field of its own.
pub proof fn lemma_header_holds_every_name(rows: Seq<JsonValue>, i: int, j: int)
    requires
        0 <= i < rows.len(),
        rows[i] is Object,
        0 <= j < rows[i]->Object_0@.len(),
    ensures
        spec_header(rows).contains(rows[i]->Object_0@[j].0@),
    decreases rows.len(),
{
    let before = spec_header(rows.drop_last());
    let name = rows[i]->Object_0@[j].0@;
    if i == rows.len() - 1 {
        lemma_add_names_keeps_all(before, rows[i]->Object_0@);
    } else {
        assert(rows.drop_last()[i] == rows[i]);
        lemma_header_holds_every_name(rows.drop_last(), i, j);
        let k = choose|k: int| 0 <= k < before.len() && before[k] == name;
        match rows.last() {
            JsonValue::Object(members) => {
                lemma_add_names_keeps_all(before, members@);
                assert(spec_header(rows).subrange(0, before.len() as int)[k] == before[k]);
            },
            _ => {},
        }
        assert(spec_header(rows)[k] == name);
    }
}

/// No value is left out: in rows that are objects with each name once,
/// whatever member a row has, the header has a place for its name, and
/// the record of that row holds the text of its value at that place.
pub proof fn lemma_no_value_is_left_out(rows: Seq<JsonValue>, i: int, j: int)
    requires
        0 <= i < rows.len(),
        rows[i] is Object,
        names_distinct(rows[i]->Object_0@),
        0 <= j < rows[i]->Object_0@.len(),
    ensures
        exists|k: int|
            0 <= k < spec_header(rows).len() && spec_header(rows)[k] == rows[i]->Object_0@[j].0@
                && #[trigger] csv_fields(spec_header(rows), rows[i]->Object_0@)[k] == csv_field(
                rows[i]->Object_0@[j].1,
            ),
{
    let members = rows[i]->Object_0@;
    let header = spec_header(rows);
    lemma_header_holds_every_name(rows, i, j);
    lemma_member_is_the_one(members, j);
    let k = choose|k: int| 0 <= k < header.len() && header[k] == members[j].0@;
    assert(csv_fields(header, members)[k] == csv_field(members[j].1));
}

/// The names of the first row stand at the front of the header, in their
/// order, where the row has each name once.
pub proof fn lemma_header_starts_with_first_row(rows: Seq<JsonValue>)
    requires
        rows.len() > 0,
        rows[0] is Object,
        names_distinct(rows[0]->Object_0@),
    ensures
        spec_names(rows[0]->Object_0@).is_prefix_of(spec_header(rows)),
    decreases rows.len(),
{
    let first = spec_names(rows[0]->Object_0@);
    if rows.len() == 1 {
        assert(rows.drop_last().len() == 0);
        assert(spec_header(rows.drop_last()) =~= Seq::<Seq<char>>::empty());
        assert(rows.last() == rows[0]);
        lemma_add_names_of_distinct(rows[0]->Object_0@);
        assert(spec_header(rows) == first);
        assert(first =~= spec_header(rows).subrange(0, first.len() as int));
    } else {
        assert(rows.drop_last()[0] == rows[0]);
        lemma_header_starts_with_first_row(rows.drop_last());
        let before = spec_header(rows.drop_last());
        match rows.last() {
            JsonValue::Object(members) => {
                lemma_add_names_keeps_all(before, members@);
            },
            _ => {},
        }
        assert(before =~= spec_header(rows).subrange(0, before.len() as int));
        assert(first =~= before.subrange(0, first.len() as int));
        assert(first =~= spec_header(rows).subrange(0, first.len() as int));
    }
}

proof fn lemma_add_names_of_distinct(members: Seq<(String, JsonValue)>)
    requires
        names_distinct(members),
    ensures
        add_names(Seq::empty(), members) == spec_names(members),
    decreases members.len(),
{
    if members.len() == 0 {
        assert(spec_names(members) =~= Seq::<Seq<char>>::empty());
    } else {
        let rest = members.drop_last();
        assert forall|a: int, b: int| 0 <= a < b < rest.len() implies rest[a].0@
            != rest[b].0@ by {
            assert(rest[a] == members[a] && rest[b] == members[b]);
        }
        lemma_add_names_of_distinct(rest);
        let before = add_names(Seq::empty(), rest);
        let name = members.last().0@;
        if before.contains(name) {
            let k = choose|k: int| 0 <= k < before.len() && before[k] == name;
            assert(spec_names(rest)[k] == rest[k].0@);
            assert(rest[k] == members[k]);
            assert(false);
        }
        assert(before.push(name) =~= spec_names(members));
    }
}

fn holds_name(names: &Vec<String>, name: &str) -> (r: bool)
    ensures
        r == views(names@).contains(name@),
{
    let mut i: usize = 0;
    while i < names.len()
        invariant
            i <= names.len(),
            forall|j: int| 0 <= j < i ==> views(names@)[j] != name@,
        decreases names.len() - i,
    {
        if str_eq(names[i].as_str(), name) {
            proof {
                assert(views(names@)[i as int] == name@);
            }
            return true;
        }
        proof {
            assert(views(names@)[i as int] == names@[i as int]@);
        }
        i += 1;
    }
    false
}

fn add_names_of(names: &mut Vec<String>, members: &Vec<(String, JsonValue)>)
    ensures
        views(final(names)@) == add_names(views(old(names)@), members@),
{
    let mut i: usize = 0;
    proof {
        assert(members@.subrange(0, 0) =~= Seq::<(String, JsonValue)>::empty());
    }
    while i < members.len()
        invariant
            i <= members.len(),
            views(names@) == add_names(views(old(names)@), members@.subrange(0, i as int)),
        decreases members.len() - i,
    {
        proof {
            assert(members@.subrange(0, i as int + 1).drop_last() =~= members@.subrange(
                0,
                i as int,
            ));
            assert(members@.subrange(0, i as int + 1).last() == members@[i as int]);
        }
        if !holds_name(names, members[i].0.as_str()) {
            let ghost before = names@;
            names.push(members[i].0.clone());
            proof {
                assert(views(names@) =~= views(before).push(members@[i as int].0@));
            }
        }
        i += 1;
    }
    proof {
        assert(members@.subrange(0, members@.len() as int) =~= members@);
    }
}

/// The header of `rows`, where every row is an object; else the place of
/// the first row that is none.
fn header_of(rows: &[JsonValue]) -> (r: Result<Vec<String>, usize>)
    ensures
        match r {
            Ok(headers) => all_objects(rows@) && views(headers@) == spec_header(rows@),
            Err(i) => i < rows@.len() && !(rows@[i as int] is Object) && all_objects(
                rows@.subrange(0, i as int),
            ),
        },
{
    let mut headers: Vec<String> = Vec::new();
    let mut i: usize = 0;
    proof {
        assert(rows@.subrange(0, 0) =~= Seq::<JsonValue>::empty());
        assert(views(headers@) =~= Seq::<Seq<char>>::empty());
    }
    while i < rows.len()
        invariant
            i <= rows.len(),
            all_objects(rows@.subrange(0, i as int)),
            views(headers@) == spec_header(rows@.subrange(0, i as int)),
        decreases rows.len() - i,
    {
        proof {
            assert(rows@.subrange(0, i as int + 1).drop_last() =~= rows@.subrange(0, i as int));
            assert(rows@.subrange(0, i as int + 1).last() == rows@[i as int]);
        }
        match &rows[i] {
            JsonValue::Object(members) => {
                add_names_of(&mut headers, members);
                proof {
                    assert forall|j: int| 0 <= j < i + 1 implies (#[trigger] rows@.subrange(
                        0,
                        i as int + 1,
                    )[j]) is Object by {
                        if j < i {
                            assert(rows@.subrange(0, i as int)[j] is Object);
                        }
                    }
                }
            },
            _ => {
                return Err(i);
            },
        }
        i += 1;
    }
    proof {
        assert(rows@.subrange(0, rows@.len() as int) =~= rows@);
    }
    Ok(headers)
}

/// Writes `rows` as CSV under a header that holds every name of every
/// row.
pub fn write_csv(rows: &[JsonValue]) -> (r: Result<Vec<u8>, OutputError>)
    ensures
        match r {
            Ok(bytes) => spec_write_csv(rows@) == Ok::<Seq<u8>, Seq<char>>(bytes@),
            Err(e) => spec_write_csv(rows@) == Err::<Seq<u8>, Seq<char>>(e.spec_message()) && (e
                is NotAnArrayOfObjects || e is RowNotAnObject),
        },
{
    if rows.len() == 0 {
        return Ok(Vec::new());
    }
    let headers = match header_of(rows) {
        Ok(headers) => headers,
        Err(i) => {
            if i == 0 {
                return Err(OutputError::NotAnArrayOfObjects);
            }
            proof {
                assert(rows@.subrange(0, i as int)[0] is Object);
            }
            return Err(OutputError::RowNotAnObject);
        },
    };
    proof {
        assert(rows@[0] is Object);
    }
    let mut writer = new_csv_writer();
    if let Err(cause) = write_csv_record(&mut writer, &headers) {
        return Err(OutputError::Csv(cause));
    }
    let mut i: usize = 0;
    proof {
        assert(rows@.subrange(0, 0) =~= Seq::<JsonValue>::empty());
        assert(csv_record(views(headers@)) + Seq::<u8>::empty() =~= csv_record(views(headers@)));
    }
    while i < rows.len()
        invariant
            i <= rows.len(),
            all_objects(rows@),
            csv_width(writer) == Some(headers@.len()),
            csv_written(writer) == csv_record(views(headers@)) + csv_body(
                views(headers@),
                rows@.subrange(0, i as int),
            ),
        decreases rows.len() - i,
    {
        proof {
            assert(rows@.subrange(0, i as int + 1).drop_last() =~= rows@.subrange(0, i as int));
            assert(rows@.subrange(0, i as int + 1).last() == rows@[i as int]);
            assert(rows@[i as int] is Object);
        }
        match &rows[i] {
            JsonValue::Object(members) => {
                let fields = fields_of(&headers, members);
                if let Err(cause) = write_csv_record(&mut writer, &fields) {
                    return Err(OutputError::Csv(cause));
                }
                proof {
                    let before = csv_body(views(headers@), rows@.subrange(0, i as int));
                    let record = csv_record(csv_fields(views(headers@), members@));
                    assert(csv_record(views(headers@)) + before + record =~= csv_record(
                        views(headers@),
                    ) + (before + record));
                }
            },
            _ => {},
        }
        i += 1;
    }
    proof {
        assert(rows@.subrange(0, rows@.len() as int) =~= rows@);
    }
    match finish_csv(writer) {
        Ok(bytes) => Ok(bytes),
        Err(cause) => Err(OutputError::Csv(cause)),
    }
}

/// What `rows` make as JSON: the bytes of their pretty text, or the
/// reason why they cannot be written.
pub open spec fn spec_write_json(rows: Seq<JsonValue>) -> Result<Seq<u8>, Seq<char>> {
    match json_pretty(rows) {
        Ok(text) => Ok(vstd::utf8::encode_utf8(text)),
        Err(cause) => Err("couldn't serialize results to JSON: "@ + cause),
    }
}

/// What `rows` make in `format`: the bytes for the file, or the reason why
/// they cannot be written, as the user is told it.
pub open spec fn spec_contents(rows: Seq<JsonValue>, format: OutputFormat) -> Result<
    Seq<u8>,
    Seq<char>,
> {
    match format {
        OutputFormat::Csv => spec_write_csv(rows),
        OutputFormat::Json => spec_write_json(rows),
    }
}

/// Writes `rows` as one pretty JSON array.
pub fn write_json(rows: &[JsonValue]) -> (r: Result<Vec<u8>, OutputError>)
    ensures
        match r {
            Ok(bytes) => spec_write_json(rows@) == Ok::<Seq<u8>, Seq<char>>(bytes@),
            Err(e) => spec_write_json(rows@) == Err::<Seq<u8>, Seq<char>>(e.spec_message()) && e
                is Serialize,
        },
{
    match pretty_json(rows) {
        Ok(text) => Ok(text.as_str().as_bytes_vec()),
        Err(cause) => Err(OutputError::Serialize(cause)),
    }
}

/// A result file that is ready to be written: where it goes, what it is
/// called, and what it holds.
#[derive(Debug)]
pub struct ResultsFile {
    pub directory: String,
    pub file_name: String,
    pub contents: Vec<u8>,
}

/// Prepares the file that holds `results` in `format`. It goes to
/// `results_directory`, and `reference_time` gives it its name.
pub fn write_results(
    results: &[JsonValue],
    results_directory: &str,
    format: &OutputFormat,
    reference_time: &Timestamp,
) -> (r: Result<ResultsFile, OutputError>)
    ensures
        match r {
            Ok(file) => {
                &&& file.directory@ == results_directory@
                &&& file.file_name@ == spec_file_name(*reference_time, *format)
                &&& spec_contents(results@, *format) == Ok::<Seq<u8>, Seq<char>>(file.contents@)
            },
            Err(e) => spec_contents(results@, *format) == Err::<Seq<u8>, Seq<char>>(
                e.spec_message(),
            ),
        },
{
    let contents = match format {
        OutputFormat::Csv => write_csv(results),
        OutputFormat::Json => write_json(results),
    };
    match contents {
        Ok(bytes) => Ok(
            ResultsFile {
                directory: String::from_str(results_directory),
                file_name: file_name(reference_time, format),
                contents: bytes,
            },
        ),
        Err(e) => Err(e),
    }
}

/// The step at which writing a result file failed.
#[derive(Debug, Clone, Copy, PartialEq, Eq, Structural)]
pub enum WriteStep {
    /// The directory could not be made.
    CreateDirectory,
    /// The file could not be opened.
    CreateFile,
    /// The bytes could not be written.
    WriteBytes,
}

/// A failure to write a result file: the step, the directory or file that
/// it was about, and what the system said.
#[derive(Debug)]
pub struct WriteFailure {
    pub step: WriteStep,
    pub target: String,
    pub cause: String,
}

impl WriteFailure {
    /// The failure and its cause in one line, the cause last.
    pub open spec fn spec_message(self) -> Seq<char> {
        match self.step {
            WriteStep::CreateDirectory => "failed to create results directory: "@ + self.target@
                + ": "@ + self.cause@,
            WriteStep::CreateFile => "couldn't open output file: "@ + self.target@ + ": "@
                + self.cause@,
            WriteStep::WriteBytes => "couldn't write bytes to file: "@ + self.cause@,
        }
    }

    /// The failure and its cause in one line, the cause last.
    pub fn to_string(&self) -> (r: String)
        ensures
            r@ == self.spec_message(),
    {
        match self.step {
            WriteStep::CreateDirectory => {
                let mut r = concat3(
                    "failed to create results directory: ",
                    self.target.as_str(),
                    ": ",
                );
                r.append(self.cause.as_str());
                r
            },
            WriteStep::CreateFile => {
                let mut r = concat3("couldn't open output file: ", self.target.as_str(), ": ");
                r.append(self.cause.as_str());
                r
            },
            WriteStep::WriteBytes => concat2("couldn't write bytes to file: ", self.cause.as_str()),
        }
    }
}

} // verus!
