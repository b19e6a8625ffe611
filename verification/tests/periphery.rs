use coolc::cgen::emit::{
    emit_add, emit_addiu, emit_addu, emit_align, emit_beq, emit_beqz, emit_bgei, emit_bleq, emit_blt,
    emit_blti, emit_bnez, emit_bool_const, emit_branch, emit_div, emit_fetch_int, emit_gc_tag,
    emit_global, emit_int_const, emit_jal, emit_jalr, emit_label_def, emit_load_address,
    emit_load_bool, emit_load_imm, emit_load_int, emit_load_string, emit_load_word, emit_method_end,
    emit_method_start, emit_move, emit_mul, emit_neg, emit_pop, emit_push, emit_return, emit_sll,
    emit_store_int, emit_store_word, emit_string_const, emit_sub, emit_word, AsWord, Register,
};
use coolc::cgen::{Label, MemLocation, DEFAULT_OBJFIELDS, LG_WORD_SIZE, WORD_SIZE};
use coolc::lexer::process::{process, process_parsed, LexErrorKind, PatName, State as LexState};
use coolc::parser::parse_table::{
    get_action, get_reduce_new_state_branch, get_reduce_new_state_branch_list,
    get_reduce_new_state_class, get_reduce_new_state_class_list, get_reduce_new_state_expression,
    get_reduce_new_state_expression_let, get_reduce_new_state_expression_list_c,
    get_reduce_new_state_expression_list_c_ne, get_reduce_new_state_expression_list_sc,
    get_reduce_new_state_feature, get_reduce_new_state_feature_list, get_reduce_new_state_formal,
    get_reduce_new_state_formal_list, get_reduce_new_state_formal_list_ne, Action, DispatchType,
    State,
};
use coolc::text::{bits_of, decimal, decimal_digits, digit, hex_fixed};
use coolc::token::Token;
use std::collections::VecDeque;

#[test]
fn digits_and_numbers_as_text() {
    assert_eq!(digit(0), "0");
    assert_eq!(digit(9), "9");
    assert_eq!(digit(10), "a");
    assert_eq!(digit(15), "f");
    assert_eq!(hex_fixed(0, 0), "");
    assert_eq!(hex_fixed(0x1f, 2), "1f");
    assert_eq!(hex_fixed(0x1f, 8), "0000001f");
    assert_eq!(hex_fixed(0xdeadbeef, 8), "deadbeef");
    assert_eq!(hex_fixed(0x1234, 2), "34");
    assert_eq!(decimal_digits(0), "0");
    assert_eq!(decimal_digits(7), "7");
    assert_eq!(decimal_digits(1203), "1203");
    assert_eq!(decimal(0), "0");
    assert_eq!(decimal(-1), "-1");
    assert_eq!(decimal(-32768), "-32768");
    assert_eq!(decimal(4294967295), "4294967295");
    assert_eq!(decimal(i64::MIN), "-9223372036854775808");
    assert_eq!(decimal(i64::MAX), "9223372036854775807");
    assert_eq!(bits_of(0), 0);
    assert_eq!(bits_of(-1), 0xffff);
    assert_eq!(bits_of(i16::MIN), 0x8000);
    assert_eq!(bits_of(i16::MAX), 0x7fff);
}

#[test]
fn register_names() {
    assert_eq!(Register::ZERO.name(), "$zero");
    assert_eq!(Register::ACC.name(), "$a0");
    assert_eq!(Register::A1.name(), "$a1");
    assert_eq!(Register::SELF.name(), "$s0");
    assert_eq!(Register::T1.name(), "$t1");
    assert_eq!(Register::T2.name(), "$t2");
    assert_eq!(Register::T3.name(), "$t3");
    assert_eq!(Register::SP.name(), "$sp");
    assert_eq!(Register::FP.name(), "$fp");
    assert_eq!(Register::RA.name(), "$ra");
}

#[test]
fn labels_and_words() {
    assert_eq!(Label(0).name(), "label_0000000000");
    assert_eq!(Label(0xabc).name(), "label_0000000abc");
    assert_eq!(Label(u32::MAX).name(), "label_00ffffffff");
    assert_eq!(5u32.as_word(), "0x00000005");
    assert_eq!(u32::MAX.as_word(), "0xffffffff");
    assert_eq!("sym".as_word(), "sym");
    assert_eq!("sym".to_string().as_word(), "sym");
    assert_eq!(emit_word(17u32), "\t.word 0x00000011\n");
    assert_eq!(emit_word("Main_dispTab"), "\t.word Main_dispTab\n");
    assert_eq!(emit_word("x".to_string()), "\t.word x\n");
    assert_eq!(WORD_SIZE, 4);
    assert_eq!(LG_WORD_SIZE, 2);
    assert_eq!(DEFAULT_OBJFIELDS, 3);
}

#[test]
fn directives() {
    assert_eq!(emit_global("Main_init"), "\t.globl Main_init\n");
    assert_eq!(emit_align(2), "\t.align 2\n");
    assert_eq!(emit_gc_tag(), "\t.word -1\n");
    assert_eq!(emit_label_def(Label(1)), "label_0000000001:\n");
}

#[test]
fn constants() {
    assert_eq!(
        emit_int_const(2, 0x2a),
        "\t.word -1\nint_const_0000002a:\n\t.word 0x00000002\n\t.word 0x00000004\n\t.word Int_dispTab\n\t.word 0x0000002a\n"
    );
    assert_eq!(
        emit_bool_const(3, true),
        "\t.word -1\nbool_const1:\n\t.word 0x00000003\n\t.word 0x00000004\n\t.word Bool_dispTab\n\t.word 0x00000001\n"
    );
    assert_eq!(
        emit_bool_const(3, false),
        "\t.word -1\nbool_const0:\n\t.word 0x00000003\n\t.word 0x00000004\n\t.word Bool_dispTab\n\t.word 0x00000000\n"
    );
    assert_eq!(
        emit_string_const("str_const", 4, "Hi!\n?", 0x10),
        "\t.word -1\nstr_const_00000010:\n\t.word 0x00000004\n\t.word 0x00000006\n\t.word String_dispTab\n\t.word int_const_00000005\n\t.byte 0x48 0x69 0x21 0x0a 0x3f 0x00\n\t.align 2\n"
    );
    assert_eq!(
        emit_string_const("s", 4, "", 0),
        "\t.word -1\ns_00000000:\n\t.word 0x00000004\n\t.word 0x00000005\n\t.word String_dispTab\n\t.word int_const_00000000\n\t.byte 0x00\n\t.align 2\n"
    );
}

#[test]
fn jumps() {
    assert_eq!(emit_jalr(Register::T1), "\tjalr $t1\n");
    assert_eq!(emit_jal("Object.copy"), "\tjal Object.copy\n");
    assert_eq!(emit_return(), "\tjr $ra\n");
    assert_eq!(emit_branch(Label(2)), "\tb label_0000000002\n");
    assert_eq!(emit_beqz(Register::ACC, Label(3)), "\tbeqz $a0 label_0000000003\n");
    assert_eq!(emit_bnez(Register::ACC, Label(3)), "\tbnez $a0 label_0000000003\n");
    assert_eq!(emit_beq(Register::T1, Register::T2, Label(4)), "\tbeq $t1 $t2 label_0000000004\n");
    assert_eq!(emit_bleq(Register::T1, Register::T2, Label(4)), "\tble $t1 $t2 label_0000000004\n");
    assert_eq!(emit_blt(Register::T1, Register::T2, Label(4)), "\tblt $t1 $t2 label_0000000004\n");
    assert_eq!(emit_blti(Register::T3, 12, Label(5)), "\tblt $t3 12 label_0000000005\n");
    assert_eq!(emit_bgei(Register::T3, 4000000000, Label(5)), "\tbge $t3 4000000000 label_0000000005\n");
}

#[test]
fn loads_and_stores() {
    let at = |reg: Register, offset: i16| MemLocation { reg, offset };
    assert_eq!(emit_store_word(Register::ACC, at(Register::SP, 0)), "\tsw $a0 0($sp)\n");
    assert_eq!(emit_store_word(Register::T1, at(Register::FP, -2)), "\tsw $t1 -8($fp)\n");
    assert_eq!(emit_load_word(Register::T1, at(Register::SELF, 3)), "\tlw $t1 12($s0)\n");
    assert_eq!(emit_load_word(Register::T1, at(Register::SELF, 8191)), "\tlw $t1 32764($s0)\n");
    assert_eq!(emit_load_imm(Register::T2, 5), "\tli $t2 0x0005\n");
    assert_eq!(emit_load_imm(Register::T2, -1), "\tli $t2 0xffff\n");
    assert_eq!(emit_load_imm(Register::T2, i16::MIN), "\tli $t2 0x8000\n");
    assert_eq!(emit_load_address(Register::ACC, "Main_protObj".to_string()), "\tla $a0 Main_protObj\n");
    assert_eq!(emit_load_bool(Register::ACC, true), "\tla $a0 bool_const1\n");
    assert_eq!(emit_load_bool(Register::ACC, false), "\tla $a0 bool_const0\n");
    assert_eq!(emit_load_int(Register::ACC, 255), "\tla $a0 int_const_000000ff\n");
    assert_eq!(emit_load_string(Register::ACC, "str_const", 1), "\tla $a0 str_const_00000001\n");
    assert_eq!(emit_fetch_int(Register::T1, Register::ACC), "\tlw $t1 12($a0)\n");
    assert_eq!(emit_store_int(Register::T1, Register::ACC), "\tsw $t1 12($a0)\n");
    assert_eq!(emit_push(Register::ACC), "\tsw $a0 0($sp)\n\taddiu $sp $sp -4\n");
    assert_eq!(emit_pop(Register::T1), "\taddiu $sp $sp 4\n\tlw $t1 0($sp)\n");
}

#[test]
fn arithmetic_instructions() {
    assert_eq!(emit_move(Register::SELF, Register::ACC), "\tmove $s0 $a0\n");
    assert_eq!(emit_neg(Register::T1, Register::T1), "\tneg $t1 $t1\n");
    assert_eq!(emit_add(Register::T1, Register::T2, Register::T3), "\tadd $t1 $t2 $t3\n");
    assert_eq!(emit_addu(Register::T1, Register::T2, Register::T3), "\taddu $t1 $t2 $t3\n");
    assert_eq!(emit_addiu(Register::SP, Register::SP, -12), "\taddiu $sp $sp -12\n");
    assert_eq!(emit_div(Register::T1, Register::T2, Register::T3), "\tdiv $t1 $t2 $t3\n");
    assert_eq!(emit_mul(Register::T1, Register::T2, Register::T3), "\tmul $t1 $t2 $t3\n");
    assert_eq!(emit_sub(Register::T1, Register::T2, Register::T3), "\tsub $t1 $t2 $t3\n");
    assert_eq!(emit_sll(Register::T1, Register::T1, 2), "\tsll $t1 $t1 2\n");
    assert_eq!(emit_sll(Register::T1, Register::ZERO, 255), "\tsll $t1 $zero 255\n");
}

#[test]
fn method_frames() {
    assert_eq!(
        emit_method_start(),
        "\taddiu $sp $sp -12\n\tsw $fp 12($sp)\n\tsw $s0 8($sp)\n\tsw $ra 4($sp)\n\taddiu $fp $sp 4\n\tmove $s0 $a0\n"
    );
    assert_eq!(
        emit_method_end(2),
        "\tlw $fp 12($sp)\n\tlw $s0 8($sp)\n\tlw $ra 4($sp)\n\taddiu $sp $sp 20\n\tjr $ra\n"
    );
    assert_eq!(
        emit_method_end(0),
        "\tlw $fp 12($sp)\n\tlw $s0 8($sp)\n\tlw $ra 4($sp)\n\taddiu $sp $sp 12\n\tjr $ra\n"
    );
}

#[test]
fn token_lines() {
    assert_eq!(Token::Add { line_no: 3 }.get_line_no(), 3);
    assert_eq!(Token::End { line_no: -1 }.get_line_no(), -1);
    assert_eq!(Token::BoolConst { line_no: 4, val: true }.get_line_no(), 4);
    assert_eq!(Token::IntConst { line_no: 5, val: 9 }.get_line_no(), 5);
    assert_eq!(Token::StrConst { line_no: 6, val: "s".to_string() }.get_line_no(), 6);
    assert_eq!(Token::TypeID { line_no: 7, name: "A".to_string() }.get_line_no(), 7);
    assert_eq!(Token::ObjectID { line_no: 8, obj_name: "a".to_string() }.get_line_no(), 8);
    assert_eq!(Token::IsVoid { line_no: 9 }.get_line_no(), 9);
}

#[test]
fn parser_actions() {
    assert_eq!(
        get_action(State::StateInitial, &Token::Class { line_no: 1 }),
        Ok(Action::Shift { new_state: State::State001 })
    );
    assert_eq!(get_action(State::StateInitial, &Token::Add { line_no: 7 }), Err(7));
    assert_eq!(
        get_action(State::State001, &Token::TypeID { line_no: 1, name: "A".to_string() }),
        Ok(Action::Shift { new_state: State::State004 })
    );
    assert_eq!(get_action(State::State002, &Token::End { line_no: 9 }), Ok(Action::Accept));
    assert_eq!(
        get_action(State::State002, &Token::Class { line_no: 9 }),
        Ok(Action::Shift { new_state: State::State001 })
    );
    assert_eq!(get_action(State::State002, &Token::Dot { line_no: 9 }), Err(9));
    assert_eq!(
        get_action(State::State004, &Token::Inherits { line_no: 2 }),
        Ok(Action::Shift { new_state: State::State007 })
    );
    assert_eq!(
        get_action(State::State006, &Token::Dot { line_no: 2 }),
        Ok(Action::ReduceClassList { is_empty: true })
    );
    assert_eq!(DispatchType::OnSelf, DispatchType::OnSelf);
    assert_ne!(DispatchType::OnExpr, DispatchType::Static);
}

#[test]
fn parser_states_after_reductions() {
    assert_eq!(get_reduce_new_state_class_list(State::StateInitial), State::State002);
    assert_eq!(get_reduce_new_state_class(State::StateInitial), State::State003);
    assert_eq!(get_reduce_new_state_class(State::State002), State::State005);
    assert_eq!(get_reduce_new_state_feature_list(State::State008), State::State011);
    assert_eq!(get_reduce_new_state_feature_list(State::State012), State::State016);
    assert_eq!(get_reduce_new_state_feature(State::State011), State::State015);
    assert_eq!(get_reduce_new_state_feature(State::State016), State::State015);
    assert_eq!(get_reduce_new_state_formal_list_ne(State::State017), State::State022);
    assert_eq!(get_reduce_new_state_formal_list(State::State017), State::State023);
    assert_eq!(get_reduce_new_state_formal(State::State017), State::State024);
    assert_eq!(get_reduce_new_state_formal(State::State027), State::State031);
    assert_eq!(get_reduce_new_state_branch_list(State::State076), State::State099);
    assert_eq!(get_reduce_new_state_branch(State::State076), State::State100);
    assert_eq!(get_reduce_new_state_branch(State::State099), State::State114);
    assert_eq!(get_reduce_new_state_expression_list_sc(State::State045), State::State060);
    assert_eq!(get_reduce_new_state_expression_list_c_ne(State::State105), State::State078);
    assert_eq!(get_reduce_new_state_expression_list_c(State::State057), State::State079);
    assert_eq!(get_reduce_new_state_expression_list_c(State::State125), State::State131);
    assert_eq!(get_reduce_new_state_expression_let(State::State034), State::State051);
    assert_eq!(get_reduce_new_state_expression_let(State::State129), State::State133);
    assert_eq!(get_reduce_new_state_expression(State::State029), State::State047);
    assert_eq!(get_reduce_new_state_expression(State::State105), State::State080);
    assert_eq!(get_reduce_new_state_expression(State::State130), State::State134);
}

struct Lexer {
    stack: Vec<LexState>,
    tokens: VecDeque<Token>,
    working: String,
}

fn lexer() -> Lexer {
    Lexer { stack: vec![LexState::Normal], tokens: VecDeque::new(), working: String::new() }
}

fn feed(lx: &mut Lexer, pat: PatName, lexeme: &str) -> Result<(), LexErrorKind> {
    process("f.cl", 4, pat, lexeme, &mut lx.stack, &mut lx.tokens, &mut lx.working).map_err(|e| {
        assert_eq!(e.file_name, "f.cl");
        assert_eq!(e.line_no, 4);
        assert_eq!(e.lexeme, lexeme);
        e.kind
    })
}

#[test]
fn lexer_makes_tokens() {
    let mut lx = lexer();
    assert_eq!(feed(&mut lx, PatName::NormalClass, "class"), Ok(()));
    assert_eq!(feed(&mut lx, PatName::NormalWhiteSpace, " "), Ok(()));
    assert_eq!(feed(&mut lx, PatName::NormalTypeID, "Main"), Ok(()));
    assert_eq!(feed(&mut lx, PatName::NormalObjectID, "main"), Ok(()));
    assert_eq!(feed(&mut lx, PatName::NormalIntConst, "0042"), Ok(()));
    assert_eq!(feed(&mut lx, PatName::NormalTrue, "tRUE"), Ok(()));
    assert_eq!(feed(&mut lx, PatName::NormalFalse, "false"), Ok(()));
    assert_eq!(feed(&mut lx, PatName::NormalLE, "<="), Ok(()));
    assert_eq!(feed(&mut lx, PatName::NormalDashComment, "-- x"), Ok(()));
    assert_eq!(lx.stack, vec![LexState::Normal]);
    assert_eq!(lx.tokens.len(), 7);
    assert!(matches!(lx.tokens[0], Token::Class { line_no: 4 }));
    assert!(matches!(&lx.tokens[1], Token::TypeID { line_no: 4, name } if name == "Main"));
    assert!(matches!(&lx.tokens[2], Token::ObjectID { line_no: 4, obj_name } if obj_name == "main"));
    assert!(matches!(lx.tokens[3], Token::IntConst { line_no: 4, val: 42 }));
    assert!(matches!(lx.tokens[4], Token::BoolConst { line_no: 4, val: true }));
    assert!(matches!(lx.tokens[5], Token::BoolConst { line_no: 4, val: false }));
    assert!(matches!(lx.tokens[6], Token::LEq { line_no: 4 }));
}

#[test]
fn lexer_refuses_bad_input() {
    let mut lx = lexer();
    assert_eq!(feed(&mut lx, PatName::NormalIntConst, "4294967296"), Err(LexErrorKind::IntTooLarge));
    assert_eq!(feed(&mut lx, PatName::NormalIntConst, "4294967295"), Ok(()));
    assert!(matches!(lx.tokens[0], Token::IntConst { val: 4294967295, .. }));
    assert_eq!(feed(&mut lx, PatName::NormalCloseComment, "*)"), Err(LexErrorKind::UnmatchedCloseComment));
    assert_eq!(feed(&mut lx, PatName::NormalBadChar, "#"), Err(LexErrorKind::UnexpectedCharacter));
    assert_eq!(feed(&mut lx, PatName::QuoteNull, "\0"), Err(LexErrorKind::NullInString));
    assert_eq!(feed(&mut lx, PatName::QuoteEscNull, "\\\0"), Err(LexErrorKind::NullInString));
    assert_eq!(lx.stack, vec![LexState::Normal]);
    assert_eq!(lx.tokens.len(), 1);
    let err = process("f.cl", 9, PatName::NormalBadChar, "#", &mut lx.stack, &mut lx.tokens, &mut lx.working)
        .unwrap_err();
    assert_eq!(err.message(), "f.cl : 9 -  Unexpected character : '#'");
    let err = process("f.cl", 9, PatName::NormalIntConst, "99999999999", &mut lx.stack, &mut lx.tokens, &mut lx.working)
        .unwrap_err();
    assert_eq!(err.message(), "f.cl : 9 - 99999999999 exceedes 32 bits");
}

#[test]
fn lexer_nests_comments() {
    let mut lx = lexer();
    assert_eq!(feed(&mut lx, PatName::NormalOpenComment, "(*"), Ok(()));
    assert_eq!(feed(&mut lx, PatName::CommentChar, "x"), Ok(()));
    assert_eq!(feed(&mut lx, PatName::CommentOpenComment, "(*"), Ok(()));
    assert_eq!(lx.stack, vec![LexState::Normal, LexState::Comment, LexState::Comment]);
    assert_eq!(feed(&mut lx, PatName::CommentCloseComment, "*)"), Ok(()));
    assert_eq!(feed(&mut lx, PatName::CommentCloseComment, "*)"), Ok(()));
    assert_eq!(lx.stack, vec![LexState::Normal]);
    assert!(lx.tokens.is_empty());
}

#[test]
fn lexer_builds_string_constants() {
    let mut lx = lexer();
    lx.working = "stale".to_string();
    assert_eq!(feed(&mut lx, PatName::NormalQuote, "\""), Ok(()));
    assert_eq!(lx.stack, vec![LexState::Normal, LexState::Quote]);
    assert_eq!(lx.working, "");
    assert_eq!(feed(&mut lx, PatName::QuoteChar, "a"), Ok(()));
    assert_eq!(feed(&mut lx, PatName::QuoteEscNewLine, "\\n"), Ok(()));
    assert_eq!(feed(&mut lx, PatName::QuoteBackSpace, "\\b"), Ok(()));
    assert_eq!(feed(&mut lx, PatName::QuoteTab, "\\t"), Ok(()));
    assert_eq!(feed(&mut lx, PatName::QuoteFormFeed, "\\f"), Ok(()));
    assert_eq!(feed(&mut lx, PatName::QuoteEscChar, "\\q"), Ok(()));
    assert_eq!(lx.working, "a\n\x08\t\x0cq");
    assert_eq!(feed(&mut lx, PatName::QuoteQuote, "\""), Ok(()));
    assert_eq!(lx.stack, vec![LexState::Normal]);
    assert!(matches!(&lx.tokens[0], Token::StrConst { line_no: 4, val } if val == "a\n\x08\t\x0cq"));
    assert_eq!(feed(&mut lx, PatName::NormalQuote, "\""), Ok(()));
    assert_eq!(feed(&mut lx, PatName::QuoteChar, "b"), Ok(()));
    assert_eq!(feed(&mut lx, PatName::QuoteNewLine, "\n"), Err(LexErrorKind::UnterminatedString));
    assert_eq!(lx.stack, vec![LexState::Normal]);
    assert_eq!(lx.tokens.len(), 1);
}

#[test]
fn lexer_takes_a_number_that_is_read_already() {
    let mut lx = lexer();
    let r = process_parsed("f.cl", 1, PatName::NormalIntConst, "x", Some(7), &mut lx.stack, &mut lx.tokens, &mut lx.working);
    assert!(r.is_ok());
    assert!(matches!(lx.tokens[0], Token::IntConst { line_no: 1, val: 7 }));
    let r = process_parsed("f.cl", 1, PatName::NormalIntConst, "12", None, &mut lx.stack, &mut lx.tokens, &mut lx.working);
    assert_eq!(r.unwrap_err().kind, LexErrorKind::IntTooLarge);
    let r = process_parsed("f.cl", 1, PatName::NormalAdd, "+", None, &mut lx.stack, &mut lx.tokens, &mut lx.working);
    assert!(r.is_ok());
    assert_eq!(lx.tokens.len(), 2);
}
