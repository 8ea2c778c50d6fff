use grafq::cmds::query::{
    benchmark_header, millis_text, run_label, statistics, warmup_header, BenchmarkStats,
};
use grafq::domain::benchmark::{BenchmarkNumRuns, NOT_A_NUMBER, NOT_POSITIVE};

#[test]
fn benchmark_num_runs_is_read_from_a_number() {
    let runs = BenchmarkNumRuns::from_str("5").expect("should be read");
    assert_eq!(runs.value(), 5);
    assert_eq!(runs.to_string(), "5");
    let runs = BenchmarkNumRuns::from_str("65535").expect("should be read");
    assert_eq!(runs.value(), 65535);
    assert_eq!(runs.to_string(), "65535");
}

#[test]
fn benchmark_num_runs_refuses_zero() {
    // GIVEN
    // WHEN
    let error = BenchmarkNumRuns::from_str("0").expect_err("result should've been an error");

    // THEN
    assert_eq!(error, "needs to be greater than 0");
}

#[test]
fn benchmark_num_runs_refuses_what_is_no_number() {
    for s in ["", "abc", "-1", "65536", "1.5", " 3"] {
        assert_eq!(
            BenchmarkNumRuns::from_str(s).expect_err("should fail"),
            "value is not a valid number"
        );
    }
    assert_eq!(NOT_A_NUMBER, "value is not a valid number");
    assert_eq!(NOT_POSITIVE, "needs to be greater than 0");
}

#[test]
fn statistics_are_the_shortest_the_longest_and_the_mean() {
    assert_eq!(
        statistics(&vec![12, 7, 30, 8]),
        Some(BenchmarkStats {
            min: 7,
            max: 30,
            mean: 14
        })
    );
    assert_eq!(
        statistics(&vec![5]),
        Some(BenchmarkStats {
            min: 5,
            max: 5,
            mean: 5
        })
    );
    assert_eq!(
        statistics(&vec![1, 2]),
        Some(BenchmarkStats {
            min: 1,
            max: 2,
            mean: 1
        })
    );
    assert_eq!(
        statistics(&vec![u64::MAX, u64::MAX, u64::MAX]),
        Some(BenchmarkStats {
            min: u64::MAX,
            max: u64::MAX,
            mean: u64::MAX
        })
    );
}

#[test]
fn statistics_of_no_runs_are_none() {
    assert_eq!(statistics(&vec![]), None);
}

#[test]
fn run_label_has_three_digits_at_least() {
    assert_eq!(run_label(1), "run 001:");
    assert_eq!(run_label(10), "run 010:");
    assert_eq!(run_label(99), "run 099:");
    assert_eq!(run_label(100), "run 100:");
    assert_eq!(run_label(65535), "run 65535:");
}

#[test]
fn benchmark_headers_name_the_number_of_runs() {
    assert_eq!(warmup_header(0), None);
    assert_eq!(warmup_header(3), Some("Warming up (3 runs) ...".to_string()));
    let runs = BenchmarkNumRuns::from_str("10").expect("should be read");
    assert_eq!(benchmark_header(&runs), "Benchmarking (10 runs) ...");
    assert_eq!(millis_text(0), "0ms");
    assert_eq!(millis_text(1234), "1234ms");
}

#[test]
fn fails_if_provided_with_incorrect_benchmark_num_runs() {
    // GIVEN
    let value = "0";

    // WHEN
    let error = BenchmarkNumRuns::from_str(value).expect_err("result should've been an error");

    // THEN
    assert_eq!(
        format!(
            "error: invalid value '{}' for '--bench-num-runs <NUMBER>': {}",
            value, error
        ),
        "error: invalid value '0' for '--bench-num-runs <NUMBER>': needs to be greater than 0"
    );
}
