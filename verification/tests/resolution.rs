use bendq::source::{classify_source, QuerySource};

#[test]
fn existing_file_wins_over_literal_text() {
    let arg = "select 1".to_string();
    let src = classify_source(Some(&arg), true);
    assert_eq!(src, QuerySource::File("select 1".to_string()));
}

#[test]
fn existing_file_wins_over_url_prefix() {
    let arg = "http://queries.sql".to_string();
    let src = classify_source(Some(&arg), true);
    assert_eq!(src, QuerySource::File("http://queries.sql".to_string()));
}

#[test]
fn url_prefix_makes_a_fetch() {
    let http = "http://example.com/q.sql".to_string();
    assert_eq!(classify_source(Some(&http), false), QuerySource::Url(http.clone()));
    let https = "https://example.com/q.sql".to_string();
    assert_eq!(classify_source(Some(&https), false), QuerySource::Url(https.clone()));
}

#[test]
fn plain_text_is_the_query_itself() {
    let arg = "select count(*) from t".to_string();
    assert_eq!(classify_source(Some(&arg), false), QuerySource::Literal(arg.clone()));
}

#[test]
fn absent_argument_reads_stdin() {
    assert_eq!(classify_source(None, false), QuerySource::Stdin);
    assert_eq!(classify_source(None, true), QuerySource::Stdin);
}

#[test]
fn stdin_text_keeps_embedded_separators() {
    // Resolution hands the stdin text over verbatim; the splitter then sees
    // every embedded separator.
    let text = "select 1;\nselect 2;\n";
    let stmts = bendq::split::split_statements(text);
    assert_eq!(stmts, vec!["select 1;".to_string(), "\nselect 2;".to_string()]);
}
