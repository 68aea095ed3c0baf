use bendq::split::split_statements;

#[test]
fn splits_two_statements_in_order() {
    let stmts = split_statements("select 1; select 2");
    assert_eq!(stmts, vec!["select 1;".to_string(), " select 2;".to_string()]);
}

#[test]
fn blank_segments_are_discarded() {
    let stmts = split_statements("a;;   ;b;");
    assert_eq!(stmts, vec!["a;".to_string(), "b;".to_string()]);
}

#[test]
fn each_statement_ends_in_exactly_one_separator() {
    let stmts = split_statements("insert into t values (1); select * from t ;\n delete from t");
    assert_eq!(stmts.len(), 3);
    for s in &stmts {
        assert!(s.ends_with(';'));
        assert_eq!(s.matches(';').count(), 1);
    }
    assert_eq!(stmts[0], "insert into t values (1);");
    assert_eq!(stmts[1], " select * from t ;");
    assert_eq!(stmts[2], "\n delete from t;");
}

#[test]
fn whitespace_only_text_yields_no_statements() {
    assert!(split_statements("").is_empty());
    assert!(split_statements("   \n\t  ").is_empty());
    assert!(split_statements(";;;").is_empty());
}

#[test]
fn segments_keep_their_inner_whitespace() {
    let stmts = split_statements("  select   1  ");
    assert_eq!(stmts, vec!["  select   1  ;".to_string()]);
}

#[test]
fn already_terminated_input_is_stable() {
    let once = split_statements("a; b; c;");
    let joined: String = once.concat();
    let twice = split_statements(&joined);
    assert_eq!(once, twice);
}

#[test]
fn non_ascii_text_splits_by_character() {
    let stmts = split_statements("sélect 'é';sélect 'ü'");
    assert_eq!(stmts, vec!["sélect 'é';".to_string(), "sélect 'ü';".to_string()]);
}
