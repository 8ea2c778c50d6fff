use grafq::domain::output::{OutputFormat, INVALID_FORMAT};
use grafq::domain::result::JsonValue;
use grafq::service::output::{
    file_name, value_to_csv_field, write_csv, write_json, write_results, OutputError, Timestamp,
    WriteFailure, WriteStep,
};

fn text(s: &str) -> JsonValue {
    JsonValue::String(s.to_string())
}

fn number(s: &str) -> JsonValue {
    JsonValue::Number(s.to_string())
}

fn object(members: Vec<(&str, JsonValue)>) -> JsonValue {
    JsonValue::Object(
        members
            .into_iter()
            .map(|(k, v)| (k.to_string(), v))
            .collect(),
    )
}

fn languages() -> Vec<JsonValue> {
    vec![
        object(vec![
            ("creator", text("Graydon Hoare")),
            ("language", text("Rust")),
            ("year", number("2010")),
        ]),
        object(vec![
            ("creator", text("Guido van Rossum")),
            ("language", text("Python")),
            ("year", number("1991")),
        ]),
    ]
}

fn time() -> Timestamp {
    Timestamp {
        month: 3,
        day: 9,
        hour: 14,
        minute: 5,
        second: 0,
    }
}

#[test]
fn output_format_has_its_extension() {
    assert_eq!(OutputFormat::Csv.extension(), "csv");
    assert_eq!(OutputFormat::Json.extension(), "json");
    assert_eq!(OutputFormat::Csv.to_string(), "csv");
    assert_eq!(OutputFormat::Json.to_string(), "json");
}

#[test]
fn output_format_is_read_from_its_name_in_any_case() {
    assert_eq!(OutputFormat::from_str("csv"), Ok(OutputFormat::Csv));
    assert_eq!(OutputFormat::from_str("json"), Ok(OutputFormat::Json));
    assert_eq!(OutputFormat::from_str("JSON"), Ok(OutputFormat::Json));
    assert_eq!(OutputFormat::from_str("Json"), Ok(OutputFormat::Json));
    assert_eq!(OutputFormat::from_str("Csv"), Ok(OutputFormat::Csv));
    assert_eq!(OutputFormat::from_str("cSv"), Ok(OutputFormat::Csv));
}

#[test]
fn output_format_is_not_trimmed() {
    assert_eq!(OutputFormat::from_str(" csv"), Err(INVALID_FORMAT));
    assert_eq!(OutputFormat::from_str("json "), Err(INVALID_FORMAT));
    assert_eq!(OutputFormat::from_str("  json \n"), Err(INVALID_FORMAT));
}

#[test]
fn output_format_refuses_what_is_no_name() {
    assert_eq!(
        OutputFormat::from_str("xml"),
        Err("invalid format provided; allowed values: [csv, json]")
    );
    assert_eq!(OutputFormat::from_str("yaml"), Err(INVALID_FORMAT));
    assert_eq!(OutputFormat::from_str(""), Err(INVALID_FORMAT));
    assert_eq!(OutputFormat::from_str("jsön"), Err(INVALID_FORMAT));
}

#[test]
fn file_name_is_made_of_the_time_and_the_extension() {
    assert_eq!(file_name(&time(), &OutputFormat::Csv), "03-09-14-05-00.csv");
    assert_eq!(file_name(&time(), &OutputFormat::Json), "03-09-14-05-00.json");
    let late = Timestamp {
        month: 12,
        day: 31,
        hour: 23,
        minute: 59,
        second: 60,
    };
    assert_eq!(file_name(&late, &OutputFormat::Json), "12-31-23-59-60.json");
}

#[test]
fn csv_field_is_the_text_of_the_value() {
    assert_eq!(value_to_csv_field(&JsonValue::Null), "");
    assert_eq!(value_to_csv_field(&JsonValue::Bool(true)), "true");
    assert_eq!(value_to_csv_field(&JsonValue::Bool(false)), "false");
    assert_eq!(value_to_csv_field(&number("-12.5")), "-12.5");
    assert_eq!(value_to_csv_field(&text("a, \"b\"")), "a, \"b\"");
    assert_eq!(
        value_to_csv_field(&JsonValue::Array(vec![number("1"), text("x")])),
        "[1,\"x\"]"
    );
    assert_eq!(
        value_to_csv_field(&object(vec![("k", JsonValue::Null)])),
        "{\"k\":null}"
    );
}

#[test]
fn write_csv_writes_a_header_and_a_record_for_each_row() {
    let bytes = write_csv(&languages()).expect("should be written");
    assert_eq!(
        String::from_utf8(bytes).expect("should be text"),
        "creator,language,year\nGraydon Hoare,Rust,2010\nGuido van Rossum,Python,1991\n"
    );
}

#[test]
fn write_csv_quotes_fields_and_leaves_missing_ones_empty() {
    let rows = vec![
        object(vec![("a", text("x,y")), ("b", text("say \"hi\""))]),
        object(vec![("b", JsonValue::Null), ("c", text("kept"))]),
        object(vec![("a", text("line\nbreak"))]),
    ];
    let bytes = write_csv(&rows).expect("should be written");
    assert_eq!(
        String::from_utf8(bytes).expect("should be text"),
        "a,b,c\n\"x,y\",\"say \"\"hi\"\"\",\n,,kept\n\"line\nbreak\",,\n"
    );
}

#[test]
fn write_csv_gives_every_name_of_every_row_a_column() {
    let rows = vec![
        object(vec![("a", number("1"))]),
        object(vec![("a", number("2")), ("b", text("x"))]),
    ];
    let bytes = write_csv(&rows).expect("should be written");
    assert_eq!(
        String::from_utf8(bytes.clone()).expect("should be text"),
        "a,b\n1,\n2,x\n"
    );

    let mut reader = csv::Reader::from_reader(bytes.as_slice());
    let headers: Vec<String> = reader
        .headers()
        .expect("should have headers")
        .iter()
        .map(|h| h.to_string())
        .collect();
    assert_eq!(headers, vec!["a", "b"]);
    let records: Vec<Vec<String>> = reader
        .records()
        .map(|r| {
            r.expect("should be a record")
                .iter()
                .map(|f| f.to_string())
                .collect()
        })
        .collect();
    assert_eq!(records, vec![vec!["1", ""], vec!["2", "x"]]);
}

#[test]
fn write_csv_puts_new_names_where_they_first_occur() {
    let rows = vec![
        object(vec![("m", number("1")), ("a", number("2"))]),
        object(vec![("z", number("3")), ("a", number("4")), ("b", number("5"))]),
        object(vec![("b", number("6")), ("k", number("7")), ("m", number("8"))]),
    ];
    let bytes = write_csv(&rows).expect("should be written");
    assert_eq!(
        String::from_utf8(bytes).expect("should be text"),
        "m,a,z,b,k\n1,2,,,\n,4,3,5,\n8,,,6,7\n"
    );
}

#[test]
fn write_csv_writes_nothing_for_no_rows() {
    assert_eq!(write_csv(&[]).expect("should be written"), Vec::<u8>::new());
}

#[test]
fn write_csv_refuses_rows_that_are_no_objects() {
    let error = write_csv(&[text("a")]).expect_err("should fail");
    assert!(matches!(error, OutputError::NotAnArrayOfObjects));
    assert_eq!(
        error.to_string(),
        "expected results to be an array of objects"
    );

    let error =
        write_csv(&[object(vec![("a", text("b"))]), number("1")]).expect_err("should fail");
    assert!(matches!(error, OutputError::RowNotAnObject));
    assert_eq!(error.to_string(), "expected each result to be an object");
}

#[test]
fn write_json_writes_a_pretty_array() {
    let rows = vec![object(vec![
        ("language", text("Rust")),
        ("tags", JsonValue::Array(vec![])),
        ("year", number("2010")),
    ])];
    let bytes = write_json(&rows).expect("should be written");
    assert_eq!(
        String::from_utf8(bytes).expect("should be text"),
        "[\n  {\n    \"language\": \"Rust\",\n    \"tags\": [],\n    \"year\": 2010\n  }\n]"
    );
}

#[test]
fn write_results_names_the_file_and_fills_it() {
    let file = write_results(&languages(), "out/dir", &OutputFormat::Csv, &time())
        .expect("should be prepared");
    assert_eq!(file.directory, "out/dir");
    assert_eq!(file.file_name, "03-09-14-05-00.csv");
    assert_eq!(file.contents, write_csv(&languages()).expect("csv"));

    let file = write_results(&languages(), ".grafq", &OutputFormat::Json, &time())
        .expect("should be prepared");
    assert_eq!(file.directory, ".grafq");
    assert_eq!(file.file_name, "03-09-14-05-00.json");
    assert_eq!(file.contents, write_json(&languages()).expect("json"));

    let error = write_results(&[text("x")], ".grafq", &OutputFormat::Csv, &time())
        .expect_err("should fail");
    assert!(matches!(error, OutputError::NotAnArrayOfObjects));
}

#[test]
fn results_written_as_json_are_read_back_as_they_were() {
    let rows = vec![
        object(vec![
            ("active", JsonValue::Bool(true)),
            ("id", number("1")),
            ("name", text("a \"quoted\" name")),
            ("nested", object(vec![("k", JsonValue::Array(vec![number("1.5")]))])),
            ("nothing", JsonValue::Null),
        ]),
        object(vec![("id", number("-2")), ("name", text("é\n"))]),
    ];
    let bytes = write_json(&rows).expect("should be written");
    let back: serde_json::Value = serde_json::from_slice(&bytes).expect("should be JSON");
    let back = back.as_array().expect("should be an array");
    assert_eq!(back.len(), 2);

    let first = back[0].as_object().expect("should be an object");
    assert_eq!(first.len(), 5);
    assert_eq!(first["active"], serde_json::Value::Bool(true));
    assert_eq!(first["id"].as_i64(), Some(1));
    assert_eq!(first["name"].as_str(), Some("a \"quoted\" name"));
    assert_eq!(first["nested"]["k"][0].as_f64(), Some(1.5));
    assert!(first["nothing"].is_null());

    let second = back[1].as_object().expect("should be an object");
    assert_eq!(second.len(), 2);
    assert_eq!(second["id"].as_i64(), Some(-2));
    assert_eq!(second["name"].as_str(), Some("é\n"));
}

#[test]
fn results_written_as_csv_are_read_back_as_text() {
    let rows = vec![
        object(vec![
            ("active", JsonValue::Bool(true)),
            ("id", number("1")),
            ("name", text("a, \"quoted\" name")),
            ("nothing", JsonValue::Null),
        ]),
        object(vec![
            ("active", JsonValue::Bool(false)),
            ("extra", text("only here")),
            ("id", number("2.5")),
            ("name", text("two\nlines")),
        ]),
    ];
    let bytes = write_csv(&rows).expect("should be written");
    let mut reader = csv::Reader::from_reader(bytes.as_slice());
    let headers: Vec<String> = reader
        .headers()
        .expect("should have headers")
        .iter()
        .map(|h| h.to_string())
        .collect();
    assert_eq!(headers, vec!["active", "id", "name", "nothing", "extra"]);
    let records: Vec<Vec<String>> = reader
        .records()
        .map(|r| {
            r.expect("should be a record")
                .iter()
                .map(|f| f.to_string())
                .collect()
        })
        .collect();
    assert_eq!(
        records,
        vec![
            vec!["true", "1", "a, \"quoted\" name", "", ""],
            vec!["false", "2.5", "two\nlines", "", "only here"],
        ]
    );
}

#[test]
fn write_failure_names_the_step() {
    let failure = WriteFailure {
        step: WriteStep::CreateDirectory,
        target: "out".to_string(),
        cause: "Permission denied (os error 13)".to_string(),
    };
    assert_eq!(
        failure.to_string(),
        "failed to create results directory: out: Permission denied (os error 13)"
    );
    let failure = WriteFailure {
        step: WriteStep::CreateFile,
        target: "out/a.csv".to_string(),
        cause: "denied".to_string(),
    };
    assert_eq!(
        failure.to_string(),
        "couldn't open output file: out/a.csv: denied"
    );
    let failure = WriteFailure {
        step: WriteStep::WriteBytes,
        target: "out/a.csv".to_string(),
        cause: "disk full".to_string(),
    };
    assert_eq!(failure.to_string(), "couldn't write bytes to file: disk full");
}

#[test]
fn output_error_adds_its_cause() {
    assert_eq!(
        OutputError::Serialize("boom".to_string()).to_string(),
        "couldn't serialize results to JSON: boom"
    );
    assert_eq!(OutputError::Csv("boom".to_string()).to_string(), "boom");
}
