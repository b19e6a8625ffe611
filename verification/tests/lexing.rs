use coolc::lexer::patterns::{comment_pats, initial_pats, quote_pats, Pattern};
use coolc::lexer::process::{rank_of, LexErrorKind, PatName};
use coolc::lexer::{search_pats, tokenize, Match, PatternSets};

fn lex(lines: &[&str]) -> Result<Vec<String>, (LexErrorKind, i16, String)> {
    let sets = PatternSets::new().expect("patterns");
    let lines: Vec<String> = lines.iter().map(|l| l.to_string()).collect();
    match tokenize(&sets, &lines, "prog.cl") {
        Ok(tokens) => Ok(tokens.iter().map(|t| format!("{:?}", t)).collect()),
        Err(e) => {
            assert_eq!(e.file_name, "prog.cl");
            Err((e.kind, e.line_no, e.lexeme))
        }
    }
}

#[test]
fn pattern_reports_the_end_of_its_first_match() {
    let digits = Pattern::new("^[0-9]+").expect("pattern");
    assert_eq!(digits.find_end("123abc"), Some(3));
    assert_eq!(digits.find_end("abc"), None);
    let anywhere = Pattern::new("b+").expect("pattern");
    assert_eq!(anywhere.find_end("aabbbc"), Some(5));
}

#[test]
fn pattern_of_no_regular_expression_is_refused() {
    assert!(Pattern::new("(").is_none());
}

#[test]
fn pattern_lists_have_their_lengths() {
    assert_eq!(initial_pats().expect("patterns").len(), 47);
    assert_eq!(comment_pats().expect("patterns").len(), 3);
    assert_eq!(quote_pats().expect("patterns").len(), 11);
}

#[test]
fn names_are_ranked_in_their_order() {
    assert_eq!(rank_of(PatName::NormalAdd), 0);
    assert_eq!(rank_of(PatName::NormalClass), 17);
    assert_eq!(rank_of(PatName::NormalObjectID), 40);
    assert_eq!(rank_of(PatName::QuoteNewLine), 59);
}

#[test]
fn match_order_prefers_length_then_name() {
    let long = Match { pat_name: PatName::NormalObjectID, len: 7 };
    let short = Match { pat_name: PatName::NormalClass, len: 5 };
    let tie = Match { pat_name: PatName::NormalObjectID, len: 5 };
    assert!(long.precedes(&short));
    assert!(!short.precedes(&long));
    assert!(short.precedes(&tie));
    assert!(!tie.precedes(&short));
    assert!(tie.precedes(&tie));
}

#[test]
fn search_takes_the_longest_match() {
    let pats = initial_pats().expect("patterns");
    let m = search_pats(&pats, "classes are").expect("match");
    assert_eq!(m.pat_name, PatName::NormalObjectID);
    assert_eq!(m.len, 7);
    let m = search_pats(&pats, "<= 3").expect("match");
    assert_eq!(m.pat_name, PatName::NormalLE);
    assert_eq!(m.len, 2);
}

#[test]
fn search_settles_a_tie_by_the_earlier_name() {
    let pats = initial_pats().expect("patterns");
    let m = search_pats(&pats, "class Main").expect("match");
    assert_eq!(m.pat_name, PatName::NormalClass);
    assert_eq!(m.len, 5);
    let quote = quote_pats().expect("patterns");
    let m = search_pats(&quote, "\\n rest").expect("match");
    assert_eq!(m.pat_name, PatName::QuoteEscNewLine);
    assert_eq!(m.len, 2);
    let m = search_pats(&quote, "\\q rest").expect("match");
    assert_eq!(m.pat_name, PatName::QuoteEscChar);
    assert_eq!(m.len, 2);
}

#[test]
fn search_without_a_match_gives_nothing() {
    let comment = comment_pats().expect("patterns");
    assert!(search_pats(&comment, "").is_none());
    let none: Vec<(Pattern, PatName)> = Vec::new();
    assert!(search_pats(&none, "abc").is_none());
}

#[test]
fn tokenize_reads_a_small_class() {
    let tokens = lex(&["class Main {\n", "  x : Int <- 12;\n", "};\n"]).expect("tokens");
    assert_eq!(
        tokens,
        vec![
            "Class { line_no: 1 }",
            "TypeID { line_no: 1, name: \"Main\" }",
            "OpenBrace { line_no: 1 }",
            "ObjectID { line_no: 2, obj_name: \"x\" }",
            "Colon { line_no: 2 }",
            "TypeID { line_no: 2, name: \"Int\" }",
            "Assign { line_no: 2 }",
            "IntConst { line_no: 2, val: 12 }",
            "SemiColon { line_no: 2 }",
            "CloseBrace { line_no: 3 }",
            "SemiColon { line_no: 3 }",
            "End { line_no: 4 }",
        ]
    );
}

#[test]
fn tokenize_of_no_lines_gives_the_end_alone() {
    assert_eq!(lex(&[]).expect("tokens"), vec!["End { line_no: 1 }"]);
}

#[test]
fn tokenize_reads_keywords_in_any_case() {
    let tokens = lex(&["CLASS If tRUE True fALSE isvoid\n"]).expect("tokens");
    assert_eq!(
        tokens,
        vec![
            "Class { line_no: 1 }",
            "If { line_no: 1 }",
            "BoolConst { line_no: 1, val: true }",
            "TypeID { line_no: 1, name: \"True\" }",
            "BoolConst { line_no: 1, val: false }",
            "IsVoid { line_no: 1 }",
            "End { line_no: 2 }",
        ]
    );
}

#[test]
fn tokenize_skips_comments() {
    let tokens = lex(&["a -- b c\n", "(* d (* e *)\n", " f *) g\n"]).expect("tokens");
    assert_eq!(
        tokens,
        vec![
            "ObjectID { line_no: 1, obj_name: \"a\" }",
            "ObjectID { line_no: 3, obj_name: \"g\" }",
            "End { line_no: 4 }",
        ]
    );
}

#[test]
fn tokenize_builds_string_constants() {
    let tokens = lex(&["\"a\\nb\\tc\\qd\" x\n"]).expect("tokens");
    assert_eq!(
        tokens,
        vec![
            "StrConst { line_no: 1, val: \"a\\nb\\tcqd\" }",
            "ObjectID { line_no: 1, obj_name: \"x\" }",
            "End { line_no: 2 }",
        ]
    );
}

#[test]
fn tokenize_carries_a_string_over_an_escaped_line_end() {
    let tokens = lex(&["\"ab\\\n", "cd\"\n"]).expect("tokens");
    assert_eq!(tokens, vec!["StrConst { line_no: 2, val: \"ab\\ncd\" }", "End { line_no: 3 }"]);
}

#[test]
fn tokenize_refuses_a_character_outside_ascii() {
    assert_eq!(
        lex(&["x\n", "caf\u{e9}\n"]),
        Err((LexErrorKind::NonAscii, 2, String::new()))
    );
}

#[test]
fn tokenize_refuses_the_end_inside_a_comment() {
    assert_eq!(
        lex(&["(* never closed\n"]),
        Err((LexErrorKind::EofInComment, 2, String::new()))
    );
}

#[test]
fn tokenize_refuses_the_end_inside_a_string() {
    assert_eq!(lex(&["\"abc"]), Err((LexErrorKind::EofInString, 2, String::new())));
}

#[test]
fn tokenize_refuses_a_string_cut_by_its_line() {
    assert_eq!(
        lex(&["\"abc\n"]),
        Err((LexErrorKind::UnterminatedString, 1, String::from("\n")))
    );
}

#[test]
fn tokenize_refuses_a_null_in_a_string() {
    assert_eq!(
        lex(&["\"a\0b\"\n"]),
        Err((LexErrorKind::NullInString, 1, String::from("\0")))
    );
}

#[test]
fn tokenize_refuses_an_integer_over_32_bits() {
    assert_eq!(
        lex(&["x <- 4294967296;\n"]),
        Err((LexErrorKind::IntTooLarge, 1, String::from("4294967296")))
    );
    assert!(lex(&["x <- 4294967295;\n"]).is_ok());
}

#[test]
fn tokenize_refuses_a_stray_comment_end() {
    assert_eq!(
        lex(&["x *) y\n"]),
        Err((LexErrorKind::UnmatchedCloseComment, 1, String::from("*)")))
    );
}

#[test]
fn tokenize_refuses_a_character_of_no_token() {
    assert_eq!(
        lex(&["x\n", "y # z\n"]),
        Err((LexErrorKind::UnexpectedCharacter, 2, String::from("#")))
    );
}

#[test]
fn lexer_messages_name_file_and_line() {
    let sets = PatternSets::new().expect("patterns");
    let lines = vec![String::from("(*\n")];
    let e = tokenize(&sets, &lines, "prog.cl").expect_err("refusal");
    assert_eq!(e.message(), "prog.cl : 2 - EOF in comment");
    let lines = vec![String::from("\"abc")];
    let e = tokenize(&sets, &lines, "prog.cl").expect_err("refusal");
    assert_eq!(e.message(), "prog.cl : 2 - EOF in string constant");
    let lines = vec![String::from("\u{e9}\n")];
    let e = tokenize(&sets, &lines, "prog.cl").expect_err("refusal");
    assert_eq!(e.message(), "prog.cl : 1 - Non-ASCII character in source");
}
