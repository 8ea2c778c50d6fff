use grafq::domain::pager::{
    CommandError, CustomPager, Pager, PagerError, PagerInner, DEFAULT_PAGER_BINARY,
    DEFAULT_PAGER_FLAG,
};
use grafq::utils::{get_env_var, get_pager, EnvLookup, EnvVarError, PAGER_ENV_VAR};

//-------------//
//  SUCCESSES  //
//-------------//

#[test]
fn custom_pager_parses_pager_with_binary_only() {
    // GIVEN
    let pager_cmd = "bat";

    // WHEN
    let result = CustomPager::try_from(pager_cmd).expect("result should've been Ok");

    // THEN
    assert_eq!(result.binary, "bat");
    assert_eq!(result.args, Vec::<String>::new());
    assert_eq!(
        format!("{:#?}", result),
        "CustomPager {\n    binary: \"bat\",\n    args: [],\n}"
    );
}

#[test]
fn custom_pager_parses_pager_with_flags() {
    // GIVEN
    let pager_cmd = "bat -p --paging always";

    // WHEN
    let result = CustomPager::try_from(pager_cmd).expect("result should've been Ok");

    // THEN
    assert_eq!(result.binary, "bat");
    assert_eq!(result.args, vec!["-p", "--paging", "always"]);
    assert_eq!(
        format!("{:#?}", result),
        "CustomPager {\n    binary: \"bat\",\n    args: [\n        \"-p\",\n        \"--paging\",\n        \"always\",\n    ],\n}"
    );
}

//------------//
//  FAILURES  //
//------------//

#[test]
fn custom_pager_fails_to_parse_empty_pager_command() {
    // GIVEN
    // WHEN
    let result = CustomPager::try_from("  ").expect_err("result should've been an error");

    // THEN
    assert_eq!(result.to_string(), "command is empty");
}

#[test]
fn custom_pager_fails_to_parse_malformed_pager_command() {
    // GIVEN
    let pager_cmd = "bat --paging 'unterminated";

    // WHEN
    let result = CustomPager::try_from(pager_cmd).expect_err("result should've been an error");

    // THEN
    assert_eq!(result.to_string(), "couldn't parse command");
}

//----------//
//  OTHERS  //
//----------//

#[test]
fn custom_pager_fails_for_a_command_without_characters() {
    let result = CustomPager::try_from("").expect_err("result should've been an error");
    assert_eq!(result, CommandError::Empty);
}

#[test]
fn custom_pager_keeps_quoted_words_together() {
    let result = CustomPager::try_from("less -P 'a b' \"c d\"").expect("should parse");
    assert_eq!(result.binary, "less");
    assert_eq!(result.args, vec!["-P", "a b", "c d"]);
}

#[test]
fn custom_pager_from_words_takes_the_first_word_as_the_program() {
    let words = Some(vec!["more".to_string(), "-d".to_string()]);
    let result = CustomPager::from_words(words).expect("should be a command");
    assert_eq!(result.binary, "more");
    assert_eq!(result.args, vec!["-d"]);

    assert_eq!(
        CustomPager::from_words(Some(vec![])).expect_err("no word"),
        CommandError::Empty
    );
    assert_eq!(
        CustomPager::from_words(None).expect_err("no words"),
        CommandError::Malformed
    );
}

#[test]
fn default_pager_command_is_less_with_its_flag() {
    let command = PagerInner::Default.get_command();
    assert_eq!(command.program, "less");
    assert_eq!(command.args, vec!["-+F"]);
    assert_eq!(PagerInner::Default.binary(), DEFAULT_PAGER_BINARY);
    assert_eq!(DEFAULT_PAGER_FLAG, "-+F");
}

#[test]
fn custom_pager_command_is_the_program_with_its_arguments() {
    let custom = CustomPager::try_from("bat -p --paging always").expect("should parse");
    let inner = PagerInner::Custom(custom);
    assert_eq!(inner.binary(), "bat");
    let command = inner.get_command();
    assert_eq!(command.program, "bat");
    assert_eq!(command.args, vec!["-p", "--paging", "always"]);
}

#[test]
fn pager_from_lookup_reports_a_program_that_is_not_there() {
    let custom = CustomPager::try_from("bat -p").expect("should parse");
    let error = Pager::custom_from_lookup(custom, Err("cannot find binary path".to_string()))
        .expect_err("should fail");
    assert_eq!(
        error.to_string(),
        "couldn't find pager executable \"bat\": cannot find binary path"
    );

    let error = Pager::default_from_lookup(Err("cannot find binary path".to_string()))
        .expect_err("should fail");
    assert_eq!(
        error.to_string(),
        "couldn't find executable for grafq's default pager \"less\": cannot find binary path"
    );
}

#[test]
fn pager_from_lookup_gives_the_pager_that_was_found() {
    let custom = CustomPager::try_from("bat -p").expect("should parse");
    let pager = Pager::custom_from_lookup(custom, Ok(())).expect("should be a pager");
    let command = pager.get_command();
    assert_eq!(command.program, "bat");
    assert_eq!(command.args, vec!["-p"]);

    let pager = Pager::default_from_lookup(Ok(())).expect("should be a pager");
    assert_eq!(pager.get_command().program, "less");
}

#[test]
fn custom_pager_is_refused_when_its_program_is_missing() {
    let error = Pager::custom("grafq-no-such-pager-binary --flag").expect_err("should fail");
    match &error {
        PagerError::ExecutableNotFound { binary, .. } => {
            assert_eq!(binary, "grafq-no-such-pager-binary")
        }
        other => panic!("unexpected error: {:?}", other),
    }
    assert!(error
        .to_string()
        .starts_with("couldn't find pager executable \"grafq-no-such-pager-binary\": "));
}

#[test]
fn custom_pager_is_refused_for_a_malformed_command() {
    let error = Pager::custom("bat 'x").expect_err("should fail");
    assert_eq!(
        error.to_string(),
        "couldn't build a pager from the command \"bat 'x\": couldn't parse command"
    );
    let error = Pager::custom("").expect_err("should fail");
    assert_eq!(
        error.to_string(),
        "couldn't build a pager from the command \"\": command is empty"
    );
}

#[test]
fn default_pager_is_less_or_reported_missing() {
    match Pager::default() {
        Ok(pager) => assert_eq!(pager.get_command().program, "less"),
        Err(error) => assert!(error
            .to_string()
            .starts_with("couldn't find executable for grafq's default pager \"less\": ")),
    }
}

#[test]
fn get_pager_goes_by_the_pager_variable() {
    let error = get_pager(EnvLookup::Present("grafq-no-such-pager-binary".to_string()))
        .expect_err("should fail");
    assert!(matches!(error, PagerError::ExecutableNotFound { .. }));

    let error = get_pager(EnvLookup::NotUnicode).expect_err("should fail");
    assert_eq!(
        error.to_string(),
        "environment variable \"GRAFQ_PAGER\" is not valid unicode"
    );

    match get_pager(EnvLookup::NotPresent) {
        Ok(pager) => assert_eq!(pager.get_command().program, "less"),
        Err(error) => assert!(matches!(
            error,
            PagerError::DefaultExecutableNotFound { .. }
        )),
    }
    assert_eq!(PAGER_ENV_VAR, "GRAFQ_PAGER");
}

#[test]
fn get_env_var_tells_the_three_outcomes_apart() {
    assert_eq!(
        get_env_var("X", EnvLookup::Present("v".to_string())).expect("should be Ok"),
        Some("v".to_string())
    );
    assert_eq!(
        get_env_var("X", EnvLookup::NotPresent).expect("should be Ok"),
        None
    );
    let EnvVarError::EnvVarIsInvalid(name) =
        get_env_var("X", EnvLookup::NotUnicode).expect_err("should fail");
    assert_eq!(name, "X");
    assert_eq!(
        EnvVarError::EnvVarIsInvalid("X".to_string()).to_string(),
        "environment variable \"X\" is not valid unicode"
    );
}
