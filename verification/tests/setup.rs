use rust_web_test::config::{
    copy_token, ConfigError, RunConfig, Target, DEFAULT_BATCH_SIZE, DEFAULT_TOTAL_REQUESTS,
};
use rust_web_test::setup::{
    configure, exit_code, resolve_token, trim_end, SetupError, TokenSource,
};
use rust_web_test::summary::RunSummary;

fn literal() -> Target {
    Target::Literal { url: String::from("http://localhost:8080/") }
}

#[test]
fn defaults_of_a_run() {
    assert_eq!(DEFAULT_TOTAL_REQUESTS, 5000);
    assert_eq!(DEFAULT_BATCH_SIZE, 1000);
}

#[test]
fn configuration_keeps_what_it_is_given() {
    let config = RunConfig::new(10, 3, literal(), Some(String::from("secret"))).unwrap();
    assert_eq!(config.total_requests(), 10);
    assert_eq!(config.batch_size(), 3);
    assert_eq!(config.auth_token().as_deref(), Some("secret"));
    match config.target() {
        Target::Literal { url } => assert_eq!(url, "http://localhost:8080/"),
        Target::Templated { .. } => panic!("a literal target was configured"),
    }
}

#[test]
fn configuration_of_no_requests_is_accepted() {
    let config = RunConfig::new(0, 1, literal(), None).unwrap();
    assert_eq!(config.total_requests(), 0);
    assert_eq!(config.batch_size(), 1);
    assert_eq!(config.auth_token(), &None);
}

#[test]
fn batch_size_zero_is_refused() {
    assert_eq!(RunConfig::new(10, 0, literal(), None).err(), Some(ConfigError::ZeroBatchSize));
    assert_eq!(RunConfig::new(0, 0, literal(), None).err(), Some(ConfigError::ZeroBatchSize));
}

#[test]
fn token_copies_are_equal() {
    assert_eq!(copy_token(&None), None);
    assert_eq!(copy_token(&Some(String::from("abc"))), Some(String::from("abc")));
}

#[test]
fn token_from_its_source() {
    assert_eq!(resolve_token(TokenSource::Absent), Ok(None));
    assert_eq!(
        resolve_token(TokenSource::Given(String::from("abc"))),
        Ok(Some(String::from("abc")))
    );
    assert_eq!(
        resolve_token(TokenSource::File(Some(String::from("from-file")))),
        Ok(Some(String::from("from-file")))
    );
}

#[test]
fn token_of_a_file_ends_before_the_line_break() {
    assert_eq!(
        resolve_token(TokenSource::File(Some(String::from("from-file\n")))),
        Ok(Some(String::from("from-file")))
    );
    assert_eq!(
        resolve_token(TokenSource::File(Some(String::from("  a b \r\n\t \n")))),
        Ok(Some(String::from("  a b")))
    );
    assert_eq!(resolve_token(TokenSource::File(Some(String::new()))), Ok(Some(String::new())));
    assert_eq!(
        resolve_token(TokenSource::Given(String::from("given \n"))),
        Ok(Some(String::from("given \n")))
    );
}

#[test]
fn trimming_cuts_blanks_at_the_end_only() {
    assert_eq!(trim_end(""), "");
    assert_eq!(trim_end("abc"), "abc");
    assert_eq!(trim_end("abc\n"), "abc");
    assert_eq!(trim_end("abc\r\n"), "abc");
    assert_eq!(trim_end(" \t abc d \t\n "), " \t abc d");
    assert_eq!(trim_end(" \n\r\t"), "");
    assert_eq!(trim_end("t\u{e9}l\u{e9}\n"), "t\u{e9}l\u{e9}");
    assert_eq!(trim_end("abc\u{a0}"), "abc\u{a0}");
}

#[test]
fn missing_token_file_ends_the_program() {
    let token = resolve_token(TokenSource::File(None));
    assert_eq!(token, Err(SetupError::TokenUnavailable));
    let run: Result<RunSummary, SetupError> = token.map(|_| RunSummary::new());
    assert_ne!(exit_code(&run), 0);
    assert_eq!(exit_code(&run), 1);
}

#[test]
fn exit_code_tells_setup_failures_only() {
    let mut summary = RunSummary::new();
    assert_eq!(exit_code(&Ok(summary)), 0);
    summary.total_sent = 5;
    summary.total_failed = 5;
    assert_eq!(exit_code(&Ok(summary)), 0);
    assert_eq!(exit_code(&Err(SetupError::TokenUnavailable)), 1);
    assert_eq!(exit_code(&Err(SetupError::ClientConstruction)), 1);
    assert_eq!(exit_code(&Err(SetupError::InvalidConfig(ConfigError::ZeroBatchSize))), 1);
}

#[test]
fn configuration_from_a_token_source() {
    let config = configure(TokenSource::File(Some(String::from("abc\n"))), 10, 3, literal()).unwrap();
    assert_eq!(config.total_requests(), 10);
    assert_eq!(config.batch_size(), 3);
    assert_eq!(config.auth_token().as_deref(), Some("abc"));
    let config = configure(TokenSource::Absent, 0, 1, literal()).unwrap();
    assert_eq!(config.total_requests(), 0);
    assert_eq!(config.auth_token(), &None);
    let config = configure(TokenSource::Given(String::from("t")), 5000, 1000, literal()).unwrap();
    assert_eq!(config.auth_token().as_deref(), Some("t"));
}

#[test]
fn configuration_is_refused_for_a_batch_size_of_zero() {
    assert_eq!(
        configure(TokenSource::Absent, 10, 0, literal()).err(),
        Some(SetupError::InvalidConfig(ConfigError::ZeroBatchSize))
    );
    assert_eq!(
        configure(TokenSource::Given(String::from("t")), 0, 0, literal()).err(),
        Some(SetupError::InvalidConfig(ConfigError::ZeroBatchSize))
    );
}

#[test]
fn missing_token_file_comes_before_the_batch_size() {
    assert_eq!(
        configure(TokenSource::File(None), 10, 3, literal()).err(),
        Some(SetupError::TokenUnavailable)
    );
    assert_eq!(
        configure(TokenSource::File(None), 10, 0, literal()).err(),
        Some(SetupError::TokenUnavailable)
    );
}
