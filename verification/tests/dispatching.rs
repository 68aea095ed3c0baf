use bendq::dispatch::{announce_line, is_query_command, parse_profile, plan_query, prepare_batch, Profile};
use bendq::endpoint::LocalConfig;
use bendq::error::QueryError;
use bendq::source::QuerySource;

fn one_config() -> Vec<LocalConfig> {
    vec![LocalConfig {
        host: "127.0.0.1".to_string(),
        port: 8081,
        tls_key: String::new(),
        tls_cert: String::new(),
    }]
}

#[test]
fn unsupported_profile_is_rejected_before_anything_runs() {
    let arg = "select 1".to_string();
    let r = plan_query("remote", &one_config(), Some(&arg), false);
    assert_eq!(r, Err(QueryError::UnsupportedProfile("remote".to_string())));
}

#[test]
fn cluster_profile_is_recognized_but_unbuilt() {
    assert_eq!(parse_profile("cluster"), Ok(Profile::Cluster));
    let r = plan_query("cluster", &one_config(), None, false);
    assert!(matches!(r, Err(QueryError::NotImplemented(_))));
}

#[test]
fn local_profile_parses() {
    assert_eq!(parse_profile("local"), Ok(Profile::Local));
    assert!(matches!(parse_profile("LOCAL"), Err(QueryError::UnsupportedProfile(_))));
}

#[test]
fn zero_local_configs_short_circuit_the_invocation() {
    let none: Vec<LocalConfig> = Vec::new();
    let arg = "select 1".to_string();
    let r = plan_query("local", &none, Some(&arg), false);
    assert_eq!(r, Err(QueryError::NoLocalConfig));
}

#[test]
fn planning_classifies_the_source() {
    let arg = "select 1".to_string();
    let r = plan_query("local", &one_config(), Some(&arg), false);
    assert_eq!(r, Ok(QuerySource::Literal("select 1".to_string())));
}

#[test]
fn batch_carries_statements_and_one_url() {
    let batch = prepare_batch("a;b;c", &one_config()).unwrap();
    assert_eq!(batch.url, "http://127.0.0.1:8081/v1/statement");
    assert_eq!(batch.statements, vec!["a;".to_string(), "b;".to_string(), "c;".to_string()]);
    assert_eq!(batch.next, 0);
}

#[test]
fn one_failure_does_not_stop_the_batch() {
    let mut batch = prepare_batch("a;b;c", &one_config()).unwrap();
    assert_eq!(batch.next_statement().unwrap(), "a;");
    batch.record_outcome(true);
    assert_eq!(batch.next_statement().unwrap(), "b;");
    batch.record_outcome(false);
    // The statement after the failed one is still submitted.
    assert_eq!(batch.next_statement().unwrap(), "c;");
    batch.record_outcome(true);
    assert!(batch.next_statement().is_none());
    assert_eq!(batch.ok_count, 2);
    assert_eq!(batch.err_count, 1);
}

#[test]
fn announce_line_names_statement_and_endpoint() {
    let line = announce_line("select 1;", "http://127.0.0.1:8081/v1/statement");
    assert_eq!(line, "Execute query select 1; on http://127.0.0.1:8081/v1/statement");
}

#[test]
fn error_messages_describe_each_failure() {
    assert_eq!(
        QueryError::NoLocalConfig.message(),
        "no local query service is configured"
    );
    assert_eq!(
        QueryError::SourceUnavailable("q.sql".to_string()).message(),
        "cannot read query source: q.sql"
    );
    assert_eq!(
        QueryError::EndpointBuildError("bad host".to_string()).message(),
        "cannot build query endpoint: bad host"
    );
    assert_eq!(
        QueryError::NetworkError("refused".to_string()).message(),
        "cannot execute query: refused"
    );
    assert_eq!(
        QueryError::DecodeError("bad json".to_string()).message(),
        "cannot decode query response: bad json"
    );
    assert_eq!(
        QueryError::UnsupportedProfile("remote".to_string()).message(),
        "unsupported profile: remote"
    );
    assert_eq!(
        QueryError::NotImplemented("cluster".to_string()).message(),
        "not implemented: cluster"
    );
}

#[test]
fn statement_error_line_names_statement_and_failure() {
    let line = bendq::dispatch::statement_error_line(
        "select 1;",
        &QueryError::NetworkError("connection refused".to_string()),
    );
    assert_eq!(
        line,
        "query select 1; execution error: cannot execute query: connection refused"
    );
}

#[test]
fn command_name_matching() {
    assert!(is_query_command("query select 1"));
    assert!(is_query_command("query"));
    assert!(is_query_command("run another query now"));
    assert!(!is_query_command("quer y"));
    assert!(!is_query_command(""));
    assert!(!is_query_command("cluster create"));
}
