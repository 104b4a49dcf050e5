use web_proc_macros::error::MacroError;
use web_proc_macros::statement::{
    classify, delete_statement, delete_stmt_macro, expand, flatten, insert_statement,
    insert_stmt_macro, select_statement, select_stmt_macro, synthesize, update_statement,
    update_stmt_macro, ArgToken, Argument, DeleteQueryInput, InsertQueryInput, Segment,
    SelectUpdateQueryInput, StatementVerb,
};

/// The tokens of an argument list in which a comma stands between each two
/// terms.
fn tokens(terms: &[&str]) -> Vec<ArgToken> {
    let mut out = Vec::new();
    for (i, term) in terms.iter().enumerate() {
        if i > 0 {
            out.push(ArgToken::Comma);
        }
        out.push(ArgToken::Term(term.to_string()));
    }
    out
}

fn lit(value: &str) -> Argument {
    Argument::Literal(value.to_string())
}

fn expr(source: &str) -> Argument {
    Argument::Expression(source.to_string())
}

fn text(piece: &str) -> Segment {
    Segment::Text(piece.to_string())
}

fn hole(source: &str) -> Segment {
    Segment::Expression(source.to_string())
}

#[test]
fn insert_statement_literal() {
    let text = insert_statement(&tokens(&["\"table\"", "\"col1\"", "\"col2\""]));
    assert_eq!(
        text,
        Ok("INSERT INTO table (col1, col2) VALUES (:col1, :col2)".to_string())
    );
}

#[test]
fn select_statement_with_filter() {
    let text = select_statement(&tokens(&[
        "\"table\"",
        "\"col1\"",
        "\"col2\"",
        "\"id = :id\"",
    ]));
    assert_eq!(
        text,
        Ok("SELECT col1, col2 FROM table WHERE id = :id".to_string())
    );
}

#[test]
fn select_statement_star_without_filter() {
    let text = select_statement(&tokens(&["\"table\"", "\"*\""]));
    assert_eq!(text, Ok("SELECT * FROM table".to_string()));
}

#[test]
fn select_statement_star_with_filter() {
    let text = select_statement(&tokens(&["\"table\"", "\"*\"", "\"id = :id\""]));
    assert_eq!(text, Ok("SELECT * FROM table WHERE id = :id".to_string()));
}

#[test]
fn update_statement_literal() {
    let text = update_statement(&tokens(&[
        "\"table\"",
        "\"col1\"",
        "\"col2\"",
        "\"id = :id\"",
    ]));
    assert_eq!(
        text,
        Ok("UPDATE table SET col1 = :col1, col2 = :col2 WHERE id = :id".to_string())
    );
}

#[test]
fn delete_statement_literal() {
    let text = delete_statement(&tokens(&["\"table\"", "\"id = :id\""]));
    assert_eq!(text, Ok("DELETE FROM table WHERE id = :id".to_string()));
}

#[test]
fn expressions_are_echoed_verbatim() {
    let text = select_statement(&tokens(&["Self::TABLE", "\"col1\"", "\"col2\"", "where_clause"]));
    assert_eq!(
        text,
        Ok("SELECT col1, col2 FROM Self::TABLE WHERE where_clause".to_string())
    );
}

#[test]
fn select_macro_leaves_expressions_to_be_evaluated() {
    let segments =
        select_stmt_macro(&tokens(&["\"table\"", "\"col1\"", "\"col2\"", "where_clause"])).unwrap();
    assert_eq!(
        segments,
        vec![text("SELECT col1, col2 FROM "), text("table"), text(" WHERE "), hole("where_clause")]
    );
    let segments = select_stmt_macro(&tokens(&["TABLE", "\"*\""])).unwrap();
    assert_eq!(segments, vec![text("SELECT * FROM "), hole("TABLE")]);
}

#[test]
fn insert_macro_gives_the_table_a_piece_of_its_own() {
    let segments = insert_stmt_macro(&tokens(&["Self::TABLE", "\"a\"", "\"b\""])).unwrap();
    assert_eq!(
        segments,
        vec![text("INSERT INTO "), hole("Self::TABLE"), text(" (a, b) VALUES (:a, :b)")]
    );
}

#[test]
fn update_macro_gives_table_and_filter_pieces_of_their_own() {
    let segments = update_stmt_macro(&tokens(&["\"t\"", "\"a\"", "\"b\"", "clause()"])).unwrap();
    assert_eq!(
        segments,
        vec![text("UPDATE "), text("t"), text(" SET a = :a, b = :b WHERE "), hole("clause()")]
    );
    assert_eq!(
        update_stmt_macro(&tokens(&["\"t\"", "\"a\""])),
        Err(MacroError::AmbiguousArgument)
    );
}

#[test]
fn delete_macro_gives_table_and_filter_pieces_of_their_own() {
    let segments = delete_stmt_macro(&tokens(&["table", "\"id = :id\""])).unwrap();
    assert_eq!(
        segments,
        vec![text("DELETE FROM "), hole("table"), text(" WHERE "), text("id = :id")]
    );
}

#[test]
fn flattened_pieces_are_the_statement() {
    for verb in
        [StatementVerb::Insert, StatementVerb::Select, StatementVerb::Update, StatementVerb::Delete]
    {
        for args in [
            vec![expr("T"), Argument::Separator, lit("a"), Argument::Separator, expr("f")],
            vec![lit("t"), Argument::Separator, lit("a"), Argument::Separator, lit("b")],
            vec![lit("t"), Argument::Separator, expr("f")],
            vec![lit("t"), Argument::Separator, lit("a")],
            vec![lit("t")],
        ] {
            let whole = synthesize(verb, &args);
            let pieces = expand(verb, &args).map(|segments| flatten(&segments));
            assert_eq!(whole, pieces);
        }
    }
}

#[test]
fn flatten_writes_pieces_in_order() {
    assert_eq!(flatten(&vec![]), "");
    assert_eq!(flatten(&vec![text("a"), hole("b"), text(""), text("c")]), "abc");
}

#[test]
fn classify_reads_literals_through_the_lexer() {
    let args = classify(&tokens(&["\"a\\tb\"", "r#\"raw \"x\"\"#", "1 + 2"]));
    assert_eq!(
        args,
        vec![
            lit("a\tb"),
            Argument::Separator,
            lit("raw \"x\""),
            Argument::Separator,
            expr("1 + 2"),
        ]
    );
}

#[test]
fn classify_keeps_what_is_no_string_literal() {
    let args = classify(&tokens(&["\"unterminated", "b\"bytes\"", "\"a\" \"b\""]));
    assert_eq!(
        args,
        vec![
            expr("\"unterminated"),
            Argument::Separator,
            expr("b\"bytes\""),
            Argument::Separator,
            expr("\"a\" \"b\""),
        ]
    );
}

#[test]
fn terms_that_open_otherwise_are_expressions_unread() {
    let args = classify(&tokens(&[
        "c\"abc\"",
        "cr\"x\"",
        "(/*ERROR*/)",
        " \"spaced\"",
        "",
        "'c'",
        "-1",
        "true",
    ]));
    let sources: Vec<&str> =
        args.iter().filter(|a| !matches!(a, Argument::Separator)).map(|a| a.text()).collect();
    assert_eq!(
        sources,
        vec!["c\"abc\"", "cr\"x\"", "(/*ERROR*/)", " \"spaced\"", "", "'c'", "-1", "true"]
    );
    assert!(args.iter().all(|a| !matches!(a, Argument::Literal(_))));
}

#[test]
fn terms_that_open_as_a_string_are_read_without_giving_up() {
    let args = classify(&tokens(&[
        "\"a\" c\"b\"",
        "\"a\" (/*ERROR*/)",
        "r",
        "return",
        "r#type",
        "r#\"open",
        "r'a'",
        "\"\\q\"",
        "\"",
        "\"ok\"suffix",
        "r\"raw\\n\"",
        "\"\\u{41}\\x42\\\n   c\"",
    ]));
    let read: Vec<Argument> =
        args.into_iter().filter(|a| !matches!(a, Argument::Separator)).collect();
    assert_eq!(
        read,
        vec![
            expr("\"a\" c\"b\""),
            expr("\"a\" (/*ERROR*/)"),
            expr("r"),
            expr("return"),
            expr("r#type"),
            expr("r#\"open"),
            expr("r'a'"),
            expr("\"\\q\""),
            expr("\""),
            lit("ok"),
            lit("raw\\n"),
            lit("ABc"),
        ]
    );
}

#[test]
fn zero_arguments_are_ambiguous() {
    let none: Vec<ArgToken> = Vec::new();
    assert_eq!(insert_statement(&none), Err(MacroError::AmbiguousArgument));
    assert_eq!(select_statement(&none), Err(MacroError::AmbiguousArgument));
    assert_eq!(update_statement(&none), Err(MacroError::AmbiguousArgument));
    assert_eq!(delete_statement(&none), Err(MacroError::AmbiguousArgument));
    assert_eq!(insert_stmt_macro(&none), Err(MacroError::AmbiguousArgument));
    assert_eq!(select_stmt_macro(&none), Err(MacroError::AmbiguousArgument));
    assert_eq!(update_stmt_macro(&none), Err(MacroError::AmbiguousArgument));
    assert_eq!(delete_stmt_macro(&none), Err(MacroError::AmbiguousArgument));
}

#[test]
fn table_alone_is_ambiguous() {
    let only = tokens(&["\"table\""]);
    assert_eq!(select_statement(&only), Err(MacroError::AmbiguousArgument));
    assert_eq!(insert_statement(&only), Err(MacroError::AmbiguousArgument));
}

#[test]
fn leading_comma_is_ambiguous() {
    let args = vec![Argument::Separator, lit("table"), Argument::Separator, lit("a")];
    assert_eq!(
        synthesize(StatementVerb::Select, &args),
        Err(MacroError::AmbiguousArgument)
    );
}

#[test]
fn first_argument_is_a_column_even_without_comma() {
    let args = vec![expr("t"), Argument::Separator, lit("only")];
    let input = SelectUpdateQueryInput::parse(&args).unwrap();
    assert_eq!(input.cols, vec!["only".to_string()]);
    assert_eq!(input.where_clause, None);
    assert_eq!(input.table_name, expr("t"));
}

#[test]
fn trailing_argument_after_a_column_is_the_filter() {
    let args = vec![
        expr("t"),
        Argument::Separator,
        lit("a"),
        Argument::Separator,
        lit("b"),
        Argument::Separator,
        expr("clause"),
    ];
    let input = SelectUpdateQueryInput::parse(&args).unwrap();
    assert_eq!(input.cols, vec!["a".to_string(), "b".to_string()]);
    assert_eq!(input.where_clause, Some(expr("clause")));
}

#[test]
fn trailing_comma_makes_the_last_argument_a_column() {
    let args = vec![
        expr("t"),
        Argument::Separator,
        lit("a"),
        Argument::Separator,
        lit("b"),
        Argument::Separator,
    ];
    let input = SelectUpdateQueryInput::parse(&args).unwrap();
    assert_eq!(input.cols, vec!["a".to_string(), "b".to_string()]);
    assert_eq!(input.where_clause, None);
}

#[test]
fn column_that_is_no_literal_is_rejected() {
    let args = vec![
        expr("t"),
        Argument::Separator,
        expr("not_a_literal"),
        Argument::Separator,
        lit("b"),
    ];
    assert!(matches!(
        SelectUpdateQueryInput::parse(&args),
        Err(MacroError::AmbiguousArgument)
    ));
    let first = vec![expr("t"), Argument::Separator, expr("clause")];
    assert!(matches!(
        SelectUpdateQueryInput::parse(&first),
        Err(MacroError::AmbiguousArgument)
    ));
}

#[test]
fn of_several_filters_the_last_stays() {
    let args = vec![
        expr("t"),
        Argument::Separator,
        lit("a"),
        Argument::Separator,
        expr("first"),
        expr("second"),
    ];
    let input = SelectUpdateQueryInput::parse(&args).unwrap();
    assert_eq!(input.cols, vec!["a".to_string()]);
    assert_eq!(input.where_clause, Some(expr("second")));
}

#[test]
fn repeated_commas_are_passed_over_in_select() {
    let args = vec![
        expr("t"),
        Argument::Separator,
        Argument::Separator,
        lit("a"),
        Argument::Separator,
        Argument::Separator,
        lit("b"),
        Argument::Separator,
    ];
    let input = SelectUpdateQueryInput::parse(&args).unwrap();
    assert_eq!(input.cols, vec!["a".to_string(), "b".to_string()]);
}

#[test]
fn duplicate_columns_are_kept_in_order() {
    let text = select_statement(&tokens(&["\"t\"", "\"b\"", "\"a\"", "\"b\"", "\"a\"", "f"]));
    assert_eq!(text, Ok("SELECT b, a, b, a FROM t WHERE f".to_string()));
    let text = insert_statement(&tokens(&["\"t\"", "\"b\"", "\"a\"", "\"b\""]));
    assert_eq!(
        text,
        Ok("INSERT INTO t (b, a, b) VALUES (:b, :a, :b)".to_string())
    );
    let text = update_statement(&tokens(&["\"t\"", "\"b\"", "\"b\"", "f"]));
    assert_eq!(text, Ok("UPDATE t SET b = :b, b = :b WHERE f".to_string()));
}

#[test]
fn update_without_filter_is_rejected() {
    let text = update_statement(&tokens(&["\"table\"", "\"col1\""]));
    assert_eq!(text, Err(MacroError::AmbiguousArgument));
    let input = SelectUpdateQueryInput {
        table_name: lit("t"),
        where_clause: None,
        cols: vec!["a".to_string()],
    };
    assert_eq!(input.render(StatementVerb::Update), Err(MacroError::AmbiguousArgument));
    assert_eq!(input.render(StatementVerb::Delete), Err(MacroError::AmbiguousArgument));
    assert_eq!(input.segments(StatementVerb::Update), Err(MacroError::AmbiguousArgument));
    assert_eq!(input.segments(StatementVerb::Delete), Err(MacroError::AmbiguousArgument));
    assert_eq!(input.render(StatementVerb::Select), Ok("SELECT a FROM t".to_string()));
    assert_eq!(
        input.render(StatementVerb::Insert),
        Ok("INSERT INTO t (a) VALUES (:a)".to_string())
    );
}

#[test]
fn request_renders_under_every_verb() {
    let input = SelectUpdateQueryInput {
        table_name: expr("t"),
        where_clause: Some(lit("id = :id")),
        cols: vec!["a".to_string(), "b".to_string()],
    };
    assert_eq!(
        input.render(StatementVerb::Update),
        Ok("UPDATE t SET a = :a, b = :b WHERE id = :id".to_string())
    );
    assert_eq!(
        input.render(StatementVerb::Delete),
        Ok("DELETE FROM t WHERE id = :id".to_string())
    );
    assert_eq!(
        input.render(StatementVerb::Select),
        Ok("SELECT a, b FROM t WHERE id = :id".to_string())
    );
    assert_eq!(
        input.segments(StatementVerb::Delete),
        Ok(vec![text("DELETE FROM "), hole("t"), text(" WHERE "), text("id = :id")])
    );
    assert_eq!(
        input.segments(StatementVerb::Insert),
        Ok(vec![text("INSERT INTO "), hole("t"), text(" (a, b) VALUES (:a, :b)")])
    );
}

#[test]
fn a_comma_in_place_of_the_table_contributes_nothing() {
    let input = SelectUpdateQueryInput {
        table_name: Argument::Separator,
        where_clause: None,
        cols: vec!["a".to_string()],
    };
    assert_eq!(input.render(StatementVerb::Select), Ok("SELECT a FROM ".to_string()));
    assert_eq!(
        input.segments(StatementVerb::Select),
        Ok(vec![text("SELECT a FROM "), text("")])
    );
}

#[test]
fn insert_takes_the_last_argument_as_a_column() {
    let args = vec![expr("t"), Argument::Separator, lit("a"), Argument::Separator, lit("b")];
    let input = InsertQueryInput::parse(&args).unwrap();
    assert_eq!(input.cols, vec!["a".to_string(), "b".to_string()]);
    assert_eq!(input.render(), "INSERT INTO t (a, b) VALUES (:a, :b)");
    assert_eq!(
        input.segments(),
        vec![text("INSERT INTO "), hole("t"), text(" (a, b) VALUES (:a, :b)")]
    );
}

#[test]
fn insert_accepts_a_trailing_comma_and_adjacent_literals() {
    let args = vec![expr("t"), Argument::Separator, lit("a"), lit("b"), Argument::Separator];
    let input = InsertQueryInput::parse(&args).unwrap();
    assert_eq!(input.cols, vec!["a".to_string(), "b".to_string()]);
}

#[test]
fn insert_rejects_expressions_and_doubled_commas() {
    let with_expr = vec![expr("t"), Argument::Separator, lit("a"), Argument::Separator, expr("x")];
    assert!(matches!(
        InsertQueryInput::parse(&with_expr),
        Err(MacroError::AmbiguousArgument)
    ));
    let doubled = vec![
        expr("t"),
        Argument::Separator,
        lit("a"),
        Argument::Separator,
        Argument::Separator,
        lit("b"),
    ];
    assert!(matches!(
        InsertQueryInput::parse(&doubled),
        Err(MacroError::AmbiguousArgument)
    ));
    let leading = vec![expr("t"), Argument::Separator, Argument::Separator, lit("a")];
    assert!(matches!(
        InsertQueryInput::parse(&leading),
        Err(MacroError::AmbiguousArgument)
    ));
}

#[test]
fn insert_without_columns_renders_empty_lists() {
    let args = vec![expr("t"), Argument::Separator];
    assert_eq!(
        synthesize(StatementVerb::Insert, &args),
        Ok("INSERT INTO t () VALUES ()".to_string())
    );
    assert_eq!(
        synthesize(StatementVerb::Select, &args),
        Ok("SELECT  FROM t".to_string())
    );
}

#[test]
fn delete_takes_exactly_table_and_filter() {
    let args = vec![lit("table"), Argument::Separator, expr("clause")];
    let input = DeleteQueryInput::parse(&args).unwrap();
    assert_eq!(input.table_name, lit("table"));
    assert_eq!(input.where_clause, expr("clause"));
    assert_eq!(input.render(), "DELETE FROM table WHERE clause");
    assert_eq!(
        input.segments(),
        vec![text("DELETE FROM "), text("table"), text(" WHERE "), hole("clause")]
    );
    let trailing = vec![lit("table"), Argument::Separator, expr("clause"), Argument::Separator];
    assert!(matches!(
        DeleteQueryInput::parse(&trailing),
        Err(MacroError::AmbiguousArgument)
    ));
    let short = vec![lit("table"), Argument::Separator];
    assert!(matches!(
        DeleteQueryInput::parse(&short),
        Err(MacroError::AmbiguousArgument)
    ));
    let comma = vec![lit("table"), Argument::Separator, Argument::Separator];
    assert!(matches!(
        DeleteQueryInput::parse(&comma),
        Err(MacroError::AmbiguousArgument)
    ));
}

#[test]
fn argument_text_is_value_or_source() {
    assert_eq!(lit("v").text(), "v");
    assert_eq!(expr("a + b").text(), "a + b");
    assert_eq!(Argument::Separator.text(), "");
    assert_eq!(lit("v").duplicate(), lit("v"));
}
