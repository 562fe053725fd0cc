use rust_web_test::config::{RunConfig, Target};
use rust_web_test::plan::Batch;
use rust_web_test::params::{
    batch_tasks, fresh_draws, make_task, next_task, synthesize, templated_url, url_with_query, Draws,
    Parameters, QueryParam,
};

fn config(target: Target, token: Option<&str>) -> RunConfig {
    RunConfig::new(10, 3, target, token.map(String::from)).unwrap()
}

#[test]
fn smallest_draws_give_the_lower_bounds() {
    let draws = Draws { initial: 0, contribution: 0, rate: 0, years: 0 };
    assert_eq!(
        synthesize(draws),
        Parameters { initial_amount: 500, contribution: 50, rate_hundredths: 10, years: 1 }
    );
}

#[test]
fn draws_reach_the_upper_bounds() {
    let draws = Draws { initial: 99_500, contribution: 4_950, rate: 19_990, years: 49 };
    assert_eq!(
        synthesize(draws),
        Parameters {
            initial_amount: 100_000,
            contribution: 5_000,
            rate_hundredths: 20_000,
            years: 50
        }
    );
}

#[test]
fn draws_wrap_around_past_the_upper_bounds() {
    let draws = Draws { initial: 99_501, contribution: 4_951, rate: 19_991, years: 50 };
    assert_eq!(
        synthesize(draws),
        Parameters { initial_amount: 500, contribution: 50, rate_hundredths: 10, years: 1 }
    );
    let draws = Draws { initial: 99_502, contribution: 4_953, rate: 19_995, years: 57 };
    assert_eq!(
        synthesize(draws),
        Parameters { initial_amount: 501, contribution: 52, rate_hundredths: 14, years: 8 }
    );
}

#[test]
fn any_draws_stay_in_range() {
    let raws = [0, 1, 49, 50, 4_950, 4_951, 99_500, 99_501, 1 << 40, u64::MAX - 1, u64::MAX];
    for &raw in raws.iter() {
        let made = synthesize(Draws { initial: raw, contribution: raw, rate: raw, years: raw });
        assert!((500..=100_000).contains(&made.initial_amount));
        assert!((50..=5_000).contains(&made.contribution));
        assert!((10..=20_000).contains(&made.rate_hundredths));
        assert!((1..=50).contains(&made.years));
        assert_eq!(made.initial_amount, 500 + raw % 99_501);
        assert_eq!(made.contribution, 50 + raw % 4_951);
        assert_eq!(made.rate_hundredths, 10 + raw % 19_991);
        assert_eq!(made.years, 1 + raw % 50);
    }
}

#[test]
fn url_without_parameters_is_the_base() {
    assert_eq!(url_with_query("http://localhost/calc", &Vec::new()), "http://localhost/calc");
}

#[test]
fn url_with_parameters_in_order() {
    let one = vec![QueryParam { key: String::from("a"), value: String::from("1") }];
    assert_eq!(url_with_query("http://h/p", &one), "http://h/p?a=1");
    let three = vec![
        QueryParam { key: String::from("b"), value: String::from("2") },
        QueryParam { key: String::from("a"), value: String::from("") },
        QueryParam { key: String::from("c"), value: String::from("x.y") },
    ];
    assert_eq!(url_with_query("http://h/p", &three), "http://h/p?b=2&a=&c=x.y");
}

#[test]
fn templated_url_carries_the_four_numbers() {
    let parameters =
        Parameters { initial_amount: 1500, contribution: 75, rate_hundredths: 705, years: 30 };
    assert_eq!(
        templated_url("https://example.test/api/calc", &parameters),
        "https://example.test/api/calc?initial=1500&contribution=75&rate=7.05&years=30"
    );
}

#[test]
fn literal_task_keeps_url_and_token() {
    let config =
        config(Target::Literal { url: String::from("https://example.test/x?y=1") }, Some("abc"));
    for id in [0usize, 4, 9] {
        let draws = Draws { initial: id as u64, contribution: 77, rate: 5, years: 1234 };
        let task = make_task(&config, id, draws);
        assert_eq!(task.sequence_id, id);
        assert_eq!(task.resolved_url, "https://example.test/x?y=1");
        assert_eq!(task.auth_token.as_deref(), Some("abc"));
    }
}

#[test]
fn templated_task_uses_the_draws() {
    let config = config(Target::Templated { base_url: String::from("http://h/calc") }, None);
    let task = make_task(&config, 3, Draws { initial: 0, contribution: 0, rate: 0, years: 0 });
    assert_eq!(task.sequence_id, 3);
    assert_eq!(task.resolved_url, "http://h/calc?initial=500&contribution=50&rate=0.10&years=1");
    assert_eq!(task.auth_token, None);
    let task = make_task(&config, 4, Draws { initial: 1, contribution: 2, rate: 140, years: 9 });
    assert_eq!(task.resolved_url, "http://h/calc?initial=501&contribution=52&rate=1.50&years=10");
}

#[test]
fn next_task_in_literal_mode_is_the_configured_request() {
    let config = config(Target::Literal { url: String::from("https://example.test/x") }, Some("t"));
    for id in 0..5usize {
        let task = next_task(&config, id);
        assert_eq!(task.sequence_id, id);
        assert_eq!(task.resolved_url, "https://example.test/x");
        assert_eq!(task.auth_token.as_deref(), Some("t"));
    }
}

#[test]
fn next_task_in_templated_mode_has_numbers_in_range() {
    let config = config(Target::Templated { base_url: String::from("http://h/calc") }, None);
    for id in 0..200usize {
        let task = next_task(&config, id);
        assert_eq!(task.sequence_id, id);
        assert_eq!(task.auth_token, None);
        let query = task.resolved_url.strip_prefix("http://h/calc?").unwrap();
        let pairs: Vec<(&str, &str)> =
            query.split('&').map(|pair| pair.split_once('=').unwrap()).collect();
        let keys: Vec<&str> = pairs.iter().map(|pair| pair.0).collect();
        assert_eq!(keys, vec!["initial", "contribution", "rate", "years"]);
        let initial: u64 = pairs[0].1.parse().unwrap();
        let contribution: u64 = pairs[1].1.parse().unwrap();
        let (whole, places) = pairs[2].1.split_once('.').unwrap();
        assert_eq!(places.len(), 2);
        let rate = whole.parse::<u64>().unwrap() * 100 + places.parse::<u64>().unwrap();
        let years: u64 = pairs[3].1.parse().unwrap();
        assert!((500..=100_000).contains(&initial));
        assert!((50..=5_000).contains(&contribution));
        assert!((10..=20_000).contains(&rate));
        assert!((1..=50).contains(&years));
    }
}

#[test]
fn fresh_draws_give_a_task_like_any_other() {
    let config = config(Target::Templated { base_url: String::from("http://h/calc") }, None);
    let draws = fresh_draws();
    let task = make_task(&config, 1, draws);
    assert_eq!(task.resolved_url, templated_url("http://h/calc", &synthesize(draws)));
}

#[test]
fn tasks_of_a_batch_follow_its_sequence_ids() {
    let config = config(Target::Literal { url: String::from("http://h/") }, Some("t"));
    let tasks = batch_tasks(&config, &Batch { index: 2, start_id: 6, count: 3 });
    let ids: Vec<usize> = tasks.iter().map(|task| task.sequence_id).collect();
    assert_eq!(ids, vec![6, 7, 8]);
    for task in &tasks {
        assert_eq!(task.resolved_url, "http://h/");
        assert_eq!(task.auth_token.as_deref(), Some("t"));
    }
    assert!(batch_tasks(&config, &Batch { index: 0, start_id: 0, count: 0 }).is_empty());
}
