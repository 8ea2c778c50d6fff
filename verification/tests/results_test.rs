use grafq::domain::result::{
    check, check_names, check_numeral, member, JsonValue, NonEmptyResults, QueryResults,
};
use grafq::view::results::{get_results, render_rows, rows_of};

fn text(s: &str) -> JsonValue {
    JsonValue::String(s.to_string())
}

fn number(s: &str) -> JsonValue {
    JsonValue::Number(s.to_string())
}

fn object(members: Vec<(&str, JsonValue)>) -> JsonValue {
    JsonValue::Object(
        members
            .into_iter()
            .map(|(k, v)| (k.to_string(), v))
            .collect(),
    )
}

fn lines(table: &str) -> Vec<String> {
    table.trim_end().lines().map(|l| l.to_string()).collect()
}

#[test]
fn get_results_returns_correct_table_for_array_of_objects() {
    // GIVEN
    let value = JsonValue::Array(vec![
        object(vec![
            ("creator", text("Graydon Hoare")),
            ("language", text("Rust")),
            ("year", number("2010")),
        ]),
        object(vec![
            ("creator", text("Guido van Rossum")),
            ("language", text("Python")),
            ("year", number("1991")),
        ]),
        object(vec![
            ("creator", text("Rob Pike")),
            ("language", text("Go")),
            ("year", number("2009")),
        ]),
    ]);

    // WHEN
    let result = get_results(&value).expect("result should've been Some");

    // THEN
    assert_eq!(
        lines(&result),
        vec![
            " creator          | language | year ",
            "------------------+----------+------",
            " Graydon Hoare    | Rust     | 2010 ",
            " Guido van Rossum | Python   | 1991 ",
            " Rob Pike         | Go       | 2009",
        ]
    );
}

#[test]
fn get_results_handles_results_in_object() {
    // GIVEN
    let value = object(vec![(
        "results",
        JsonValue::Array(vec![
            object(vec![("language", text("Rust")), ("year", number("2010"))]),
            object(vec![("language", text("Python")), ("year", number("1991"))]),
        ]),
    )]);

    // WHEN
    let result = get_results(&value).expect("result should've been Some");

    // THEN
    assert_eq!(
        lines(&result),
        vec![
            " language | year ",
            "----------+------",
            " Rust     | 2010 ",
            " Python   | 1991",
        ]
    );
}

#[test]
fn get_results_formats_null_values_correctly() {
    // GIVEN
    let value = JsonValue::Array(vec![
        object(vec![("creator", JsonValue::Null), ("language", text("Rust"))]),
        object(vec![
            ("creator", text("Guido van Rossum")),
            ("language", text("Python")),
        ]),
    ]);

    // WHEN
    let result = get_results(&value).expect("result should've been Some");

    // THEN
    assert_eq!(
        lines(&result),
        vec![
            " creator          | language ",
            "------------------+----------",
            " null             | Rust     ",
            " Guido van Rossum | Python",
        ]
    );
}

#[test]
fn get_results_converts_non_string_values_to_string() {
    // GIVEN
    let value = JsonValue::Array(vec![
        object(vec![
            ("downloads", number("1000")),
            ("stable", JsonValue::Bool(true)),
            ("version", text("1.0")),
        ]),
        object(vec![
            ("downloads", number("5000")),
            ("stable", JsonValue::Bool(false)),
            ("version", text("2.0")),
        ]),
    ]);

    // WHEN
    let result = get_results(&value).expect("result should've been Some");

    // THEN
    assert_eq!(
        lines(&result),
        vec![
            " downloads | stable | version ",
            "-----------+--------+---------",
            " 1000      | true   | 1.0     ",
            " 5000      | false  | 2.0",
        ]
    );
}

#[test]
fn get_results_skips_non_object_array_elements() {
    // GIVEN
    let value = JsonValue::Array(vec![
        object(vec![
            ("creator", text("Graydon Hoare")),
            ("language", text("Rust")),
        ]),
        text("invalid"),
        object(vec![
            ("creator", text("Guido van Rossum")),
            ("language", text("Python")),
        ]),
    ]);

    // WHEN
    let result = get_results(&value).expect("result should've been Some");

    // THEN
    assert_eq!(
        lines(&result),
        vec![
            " creator          | language ",
            "------------------+----------",
            " Graydon Hoare    | Rust     ",
            " Guido van Rossum | Python",
        ]
    );
}

#[test]
fn get_results_shows_empty_string_for_missing_columns() {
    // GIVEN
    let value = JsonValue::Array(vec![
        object(vec![
            ("creator", text("Graydon Hoare")),
            ("language", text("Rust")),
            ("year", number("2010")),
        ]),
        object(vec![
            ("creator", text("Guido van Rossum")),
            ("language", text("Python")),
        ]),
        object(vec![("language", text("Go")), ("year", number("2009"))]),
    ]);

    // WHEN
    let result = get_results(&value).expect("result should've been Some");

    // THEN
    assert_eq!(
        lines(&result),
        vec![
            " creator          | language | year ",
            "------------------+----------+------",
            " Graydon Hoare    | Rust     | 2010 ",
            " Guido van Rossum | Python   |      ",
            "                  | Go       | 2009",
        ]
    );
}

#[test]
fn get_results_returns_none_for_non_array_non_object_input() {
    // GIVEN
    let value = text("just a string");

    // WHEN
    let result = get_results(&value);

    // THEN
    assert!(result.is_none());
}

#[test]
fn get_results_returns_none_for_empty_array() {
    // GIVEN
    let value = JsonValue::Array(vec![]);

    // WHEN
    let result = get_results(&value);

    // THEN
    assert!(result.is_none());
}

#[test]
fn get_results_returns_none_for_object_without_results() {
    let value = object(vec![("rows", JsonValue::Array(vec![text("a")]))]);
    assert!(get_results(&value).is_none());

    let value = object(vec![("results", text("not an array"))]);
    assert!(get_results(&value).is_none());
}

#[test]
fn get_results_shows_nested_values_as_compact_json() {
    let value = JsonValue::Array(vec![object(vec![
        (
            "labels",
            JsonValue::Array(vec![text("a"), number("1"), JsonValue::Null]),
        ),
        (
            "props",
            object(vec![("k", text("v")), ("n", number("2.5"))]),
        ),
    ])]);

    let result = get_results(&value).expect("result should've been Some");

    assert_eq!(
        lines(&result),
        vec![
            " labels       | props             ",
            "--------------+-------------------",
            " [\"a\",1,null] | {\"k\":\"v\",\"n\":2.5}",
        ]
    );
}

#[test]
fn render_rows_gives_an_empty_table_when_the_first_row_is_no_object() {
    let rows = vec![text("x"), object(vec![("a", text("b"))])];
    assert_eq!(render_rows(&rows), "");
}

#[test]
fn member_finds_the_first_member_of_a_name() {
    let members = vec![
        ("a".to_string(), number("1")),
        ("b".to_string(), number("2")),
        ("a".to_string(), number("3")),
    ];
    match member(&members, "a") {
        Some(JsonValue::Number(n)) => assert_eq!(n, "1"),
        other => panic!("unexpected: {:?}", other),
    }
    assert!(member(&members, "c").is_none());
}

#[test]
fn rows_of_gives_the_items_of_an_array() {
    let value = JsonValue::Array(vec![text("a"), text("b")]);
    assert_eq!(rows_of(&value).map(|r| r.len()), Some(2));
    assert!(rows_of(&JsonValue::Null).is_none());
}

#[test]
fn query_results_are_empty_exactly_without_rows() {
    assert!(matches!(QueryResults::new(vec![]), QueryResults::Empty));
    match QueryResults::new(vec![text("a"), text("b")]) {
        QueryResults::NonEmpty(results) => {
            let results: NonEmptyResults = results;
            assert_eq!(results.results().len(), 2);
        }
        QueryResults::Empty => panic!("expected rows"),
    }
}

#[test]
fn query_results_are_the_rows_that_a_value_stands_for() {
    match QueryResults::from_value(JsonValue::Array(vec![text("a"), text("b")])) {
        QueryResults::NonEmpty(results) => assert_eq!(results.results().len(), 2),
        QueryResults::Empty => panic!("expected rows"),
    }
    assert!(matches!(
        QueryResults::from_value(JsonValue::Array(vec![])),
        QueryResults::Empty
    ));
    assert!(matches!(
        QueryResults::from_value(JsonValue::Null),
        QueryResults::Empty
    ));
    match QueryResults::from_value(object(vec![("a", number("1"))])) {
        QueryResults::NonEmpty(results) => {
            assert_eq!(results.results().len(), 1);
            assert!(matches!(results.results()[0], JsonValue::Object(_)));
        }
        QueryResults::Empty => panic!("expected one row"),
    }
}

#[test]
fn numerals_are_numbers_as_json_writes_them() {
    for numeral in [
        "0", "-0", "7", "10", "1991", "-12", "0.5", "-0.25", "12.034", "1e5", "1E5", "1e+5",
        "2.5e-3", "0e0", "18446744073709551616", "1e999",
    ] {
        assert!(check_numeral(numeral), "{}", numeral);
    }
    for numeral in [
        "", "-", "+1", "01", "-01", "1.", ".5", "1.e5", "1e", "1e+", "1e5.0", " 1", "1 ", "0x10",
        "1,5", "NaN", "Infinity", "--1", "1e--5", "１",
    ] {
        assert!(!check_numeral(numeral), "{}", numeral);
    }
}

#[test]
fn numerals_that_serde_json_reads_are_well_formed() {
    for numeral in ["0", "-0", "10", "-12.5", "1e5", "2.5E-3", "", "01", "1.", "+1", "1e", "abc"] {
        let read = numeral.parse::<serde_json::Number>().is_ok();
        assert_eq!(check_numeral(numeral), read, "{}", numeral);
    }
}

#[test]
fn names_are_distinct_when_no_name_stands_twice() {
    let members = vec![
        ("a".to_string(), number("1")),
        ("b".to_string(), number("2")),
    ];
    assert!(check_names(&members));
    assert!(check_names(&vec![]));
    let members = vec![
        ("a".to_string(), number("1")),
        ("b".to_string(), number("2")),
        ("a".to_string(), number("3")),
    ];
    assert!(!check_names(&members));
}

#[test]
fn values_are_checked_through_and_through() {
    assert!(check(&JsonValue::Null));
    assert!(check(&JsonValue::Bool(true)));
    assert!(check(&text("anything \u{0}")));
    assert!(check(&number("-1.5e3")));
    assert!(!check(&number("1.5.3")));
    assert!(check(&JsonValue::Array(vec![
        number("1"),
        object(vec![("a", JsonValue::Array(vec![])), ("b", number("2"))]),
    ])));
    assert!(!check(&JsonValue::Array(vec![
        number("1"),
        object(vec![("a", JsonValue::Array(vec![number("x")])), ("b", number("2"))]),
    ])));
    assert!(!check(&object(vec![
        ("a", number("1")),
        ("b", object(vec![("c", number("1")), ("c", number("2"))])),
    ])));
    assert!(!check(&object(vec![("a", number("1")), ("a", number("1"))])));
}
