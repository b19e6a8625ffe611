//! The lexer's reaction to one match of a pattern: the tokens, the stack of
//! states and the string under construction after the match.

use crate::text::{decimal, decimal_text};
use crate::token::{Token, TokenView};
use std::collections::VecDeque;
use vstd::prelude::*;
use vstd::string::{StrSliceExecFns, StringExecFns};

verus! {

/// What the lexer is reading.
#[derive(Clone, Copy, Debug, PartialEq, Eq, Structural)]
pub enum State {
    /// Program text.
    Normal,
    /// A comment between `(*` and `*)`.
    Comment,
    /// A string constant.
    Quote,
}

/// The patterns that the lexer matches, by the state in which it tries
/// them.
#[derive(Clone, Copy, Debug, PartialEq, Eq, PartialOrd, Ord, Structural)]
pub enum PatName {
    NormalAdd,
    NormalDiv,
    NormalSub,
    NormalMul,
    NormalEq,
    NormalLT,
    NormalDot,
    NormalNeg,
    NormalComma,
    NormalSemiColon,
    NormalColon,
    NormalOpenParen,
    NormalCloseParen,
    NormalAt,
    NormalOpenBrace,
    NormalCloseBrace,
    NormalWhiteSpace,
    NormalClass,
    NormalElse,
    NormalFi,
    NormalIf,
    NormalIn,
    NormalInherits,
    NormalLet,
    NormalLoop,
    NormalPool,
    NormalThen,
    NormalWhile,
    NormalCase,
    NormalEsac,
    NormalOf,
    NormalNew,
    NormalIsVoid,
    NormalNot,
    NormalDArrow,
    NormalLE,
    NormalAssign,
    NormalTrue,
    NormalFalse,
    NormalTypeID,
    NormalObjectID,
    NormalIntConst,
    NormalDashComment,
    NormalOpenComment,
    NormalCloseComment,
    NormalQuote,
    NormalBadChar,
    CommentOpenComment,
    CommentCloseComment,
    CommentChar,
    QuoteNull,
    QuoteEscNull,
    QuoteQuote,
    QuoteChar,
    QuoteEscNewLine,
    QuoteBackSpace,
    QuoteTab,
    QuoteFormFeed,
    QuoteEscChar,
    QuoteNewLine,
}

/// The place of a name among the names: where two patterns match texts of
/// one length, the lexer follows the name that comes first.
pub open spec fn rank(name: PatName) -> u8 {
    match name {
        PatName::NormalAdd => 0,
        PatName::NormalDiv => 1,
        PatName::NormalSub => 2,
        PatName::NormalMul => 3,
        PatName::NormalEq => 4,
        PatName::NormalLT => 5,
        PatName::NormalDot => 6,
        PatName::NormalNeg => 7,
        PatName::NormalComma => 8,
        PatName::NormalSemiColon => 9,
        PatName::NormalColon => 10,
        PatName::NormalOpenParen => 11,
        PatName::NormalCloseParen => 12,
        PatName::NormalAt => 13,
        PatName::NormalOpenBrace => 14,
        PatName::NormalCloseBrace => 15,
        PatName::NormalWhiteSpace => 16,
        PatName::NormalClass => 17,
        PatName::NormalElse => 18,
        PatName::NormalFi => 19,
        PatName::NormalIf => 20,
        PatName::NormalIn => 21,
        PatName::NormalInherits => 22,
        PatName::NormalLet => 23,
        PatName::NormalLoop => 24,
        PatName::NormalPool => 25,
        PatName::NormalThen => 26,
        PatName::NormalWhile => 27,
        PatName::NormalCase => 28,
        PatName::NormalEsac => 29,
        PatName::NormalOf => 30,
        PatName::NormalNew => 31,
        PatName::NormalIsVoid => 32,
        PatName::NormalNot => 33,
        PatName::NormalDArrow => 34,
        PatName::NormalLE => 35,
        PatName::NormalAssign => 36,
        PatName::NormalTrue => 37,
        PatName::NormalFalse => 38,
        PatName::NormalTypeID => 39,
        PatName::NormalObjectID => 40,
        PatName::NormalIntConst => 41,
        PatName::NormalDashComment => 42,
        PatName::NormalOpenComment => 43,
        PatName::NormalCloseComment => 44,
        PatName::NormalQuote => 45,
        PatName::NormalBadChar => 46,
        PatName::CommentOpenComment => 47,
        PatName::CommentCloseComment => 48,
        PatName::CommentChar => 49,
        PatName::QuoteNull => 50,
        PatName::QuoteEscNull => 51,
        PatName::QuoteQuote => 52,
        PatName::QuoteChar => 53,
        PatName::QuoteEscNewLine => 54,
        PatName::QuoteBackSpace => 55,
        PatName::QuoteTab => 56,
        PatName::QuoteFormFeed => 57,
        PatName::QuoteEscChar => 58,
        PatName::QuoteNewLine => 59,
    }
}

/// The place of a name among the names.
pub fn rank_of(name: PatName) -> (r: u8)
    ensures
        r == rank(name),
{
    match name {
        PatName::NormalAdd => 0,
        PatName::NormalDiv => 1,
        PatName::NormalSub => 2,
        PatName::NormalMul => 3,
        PatName::NormalEq => 4,
        PatName::NormalLT => 5,
        PatName::NormalDot => 6,
        PatName::NormalNeg => 7,
        PatName::NormalComma => 8,
        PatName::NormalSemiColon => 9,
        PatName::NormalColon => 10,
        PatName::NormalOpenParen => 11,
        PatName::NormalCloseParen => 12,
        PatName::NormalAt => 13,
        PatName::NormalOpenBrace => 14,
        PatName::NormalCloseBrace => 15,
        PatName::NormalWhiteSpace => 16,
        PatName::NormalClass => 17,
        PatName::NormalElse => 18,
        PatName::NormalFi => 19,
        PatName::NormalIf => 20,
        PatName::NormalIn => 21,
        PatName::NormalInherits => 22,
        PatName::NormalLet => 23,
        PatName::NormalLoop => 24,
        PatName::NormalPool => 25,
        PatName::NormalThen => 26,
        PatName::NormalWhile => 27,
        PatName::NormalCase => 28,
        PatName::NormalEsac => 29,
        PatName::NormalOf => 30,
        PatName::NormalNew => 31,
        PatName::NormalIsVoid => 32,
        PatName::NormalNot => 33,
        PatName::NormalDArrow => 34,
        PatName::NormalLE => 35,
        PatName::NormalAssign => 36,
        PatName::NormalTrue => 37,
        PatName::NormalFalse => 38,
        PatName::NormalTypeID => 39,
        PatName::NormalObjectID => 40,
        PatName::NormalIntConst => 41,
        PatName::NormalDashComment => 42,
        PatName::NormalOpenComment => 43,
        PatName::NormalCloseComment => 44,
        PatName::NormalQuote => 45,
        PatName::NormalBadChar => 46,
        PatName::CommentOpenComment => 47,
        PatName::CommentCloseComment => 48,
        PatName::CommentChar => 49,
        PatName::QuoteNull => 50,
        PatName::QuoteEscNull => 51,
        PatName::QuoteQuote => 52,
        PatName::QuoteChar => 53,
        PatName::QuoteEscNewLine => 54,
        PatName::QuoteBackSpace => 55,
        PatName::QuoteTab => 56,
        PatName::QuoteFormFeed => 57,
        PatName::QuoteEscChar => 58,
        PatName::QuoteNewLine => 59,
    }
}

/// Why the lexer refuses its input.
#[derive(Clone, Copy, Debug, PartialEq, Eq, Structural)]
pub enum LexErrorKind {
    /// An integer constant does not fit 32 bits.
    IntTooLarge,
    /// `*)` outside a comment.
    UnmatchedCloseComment,
    /// A character that begins no token.
    UnexpectedCharacter,
    /// A string constant holds a null character.
    NullInString,
    /// A string constant runs over the end of its line.
    UnterminatedString,
    /// A line holds a character outside ASCII.
    NonAscii,
    /// The input ends inside a comment.
    EofInComment,
    /// The input ends inside a string constant.
    EofInString,
    /// No pattern takes the lexer further in its line.
    NoMatch,
}

/// A refusal of the lexer: why, where, and the text that it refuses.
#[derive(Debug)]
pub struct LexError {
    pub kind: LexErrorKind,
    pub file_name: String,
    pub line_no: i16,
    pub lexeme: String,
}

/// What a message says of a refusal itself.
pub open spec fn lex_description(kind: LexErrorKind, lexeme: Seq<char>) -> Seq<char> {
    match kind {
        LexErrorKind::IntTooLarge => lexeme + " exceedes 32 bits"@,
        LexErrorKind::UnmatchedCloseComment => "Unmatched *)"@,
        LexErrorKind::UnexpectedCharacter => " Unexpected character : '"@ + lexeme + "'"@,
        LexErrorKind::NullInString => "String contains null character."@,
        LexErrorKind::UnterminatedString => "Unterminated string constant"@,
        LexErrorKind::NonAscii => "Non-ASCII character in source"@,
        LexErrorKind::EofInComment => "EOF in comment"@,
        LexErrorKind::EofInString => "EOF in string constant"@,
        LexErrorKind::NoMatch => "No pattern matches"@,
    }
}

impl LexError {
    /// The message for the refusal: the file, the line and the
    /// description.
    pub open spec fn message_text(&self) -> Seq<char> {
        self.file_name@ + " : "@ + decimal_text(self.line_no as int) + " - "@ + lex_description(
            self.kind,
            self.lexeme@,
        )
    }

    /// The message for the refusal.
    pub fn message(&self) -> (text: String)
        ensures
            text@ == self.message_text(),
    {
        let mut text = self.file_name.clone();
        text.append(" : ");
        text.append(decimal(self.line_no as i64).as_str());
        text.append(" - ");
        let ghost head = text@;
        match self.kind {
            LexErrorKind::IntTooLarge => {
                text.append(self.lexeme.as_str());
                text.append(" exceedes 32 bits");
            },
            LexErrorKind::UnmatchedCloseComment => {
                text.append("Unmatched *)");
            },
            LexErrorKind::UnexpectedCharacter => {
                text.append(" Unexpected character : '");
                text.append(self.lexeme.as_str());
                text.append("'");
            },
            LexErrorKind::NullInString => {
                text.append("String contains null character.");
            },
            LexErrorKind::UnterminatedString => {
                text.append("Unterminated string constant");
            },
            LexErrorKind::NonAscii => {
                text.append("Non-ASCII character in source");
            },
            LexErrorKind::EofInComment => {
                text.append("EOF in comment");
            },
            LexErrorKind::EofInString => {
                text.append("EOF in string constant");
            },
            LexErrorKind::NoMatch => {
                text.append("No pattern matches");
            },
        }
        proof {
            assert(text@ =~= head + lex_description(self.kind, self.lexeme@));
        }
        text
    }
}

/// Whether a text holds decimal digits and nothing else, and at least one.
pub open spec fn is_digits(s: Seq<char>) -> bool {
    &&& s.len() > 0
    &&& forall|i: int| 0 <= i < s.len() ==> '0' <= #[trigger] s[i] <= '9'
}

/// The number that a text of decimal digits denotes.
pub open spec fn digits_value(s: Seq<char>) -> nat
    decreases s.len(),
{
    if s.len() == 0 {
        0
    } else {
        digits_value(s.drop_last()) * 10 + ((s.last() as u32 - '0' as u32) as nat)
    }
}

/// The number that a text denotes for `str::parse::<u32>`: the text is an
/// optional `+` and then decimal digits, and the number fits 32 bits.
pub open spec fn parsed_u32(text: Seq<char>) -> Option<u32> {
    let digits = if text.len() > 0 && text[0] == '+' {
        text.subrange(1, text.len() as int)
    } else {
        text
    };
    if is_digits(digits) && digits_value(digits) <= u32::MAX {
        Some(digits_value(digits) as u32)
    } else {
        None
    }
}

/// `str::parse::<u32>`: the number that the text denotes, where the text
/// is an optional `+` followed by decimal digits only and the number fits
/// 32 bits; nothing for any other text, the empty one too.
#[verifier::external_body]
fn parse_u32(text: &str) -> (r: Option<u32>)
    ensures
        r == parsed_u32(text@),
{
    text.parse::<u32>().ok()
}

/// The violation that a match gives rise to, if any.
pub open spec fn lex_fault(pat_name: PatName, parsed: Option<u32>) -> Option<LexErrorKind> {
    match pat_name {
        PatName::NormalIntConst => if parsed is None {
            Some(LexErrorKind::IntTooLarge)
        } else {
            None
        },
        PatName::NormalCloseComment => Some(LexErrorKind::UnmatchedCloseComment),
        PatName::NormalBadChar => Some(LexErrorKind::UnexpectedCharacter),
        PatName::QuoteNull => Some(LexErrorKind::NullInString),
        PatName::QuoteEscNull => Some(LexErrorKind::NullInString),
        PatName::QuoteNewLine => Some(LexErrorKind::UnterminatedString),
        _ => None,
    }
}

/// The stack of states after a match: a comment or a string that opens
/// is pushed, one that closes is popped, and so is a string that its line
/// cuts short.
pub open spec fn stack_after(pat_name: PatName, stack: Seq<State>) -> Seq<State> {
    match pat_name {
        PatName::NormalOpenComment => stack.push(State::Comment),
        PatName::CommentOpenComment => stack.push(State::Comment),
        PatName::NormalQuote => stack.push(State::Quote),
        PatName::CommentCloseComment => if stack.len() > 0 {
            stack.drop_last()
        } else {
            stack
        },
        PatName::QuoteQuote => if stack.len() > 0 {
            stack.drop_last()
        } else {
            stack
        },
        PatName::QuoteNewLine => if stack.len() > 0 {
            stack.drop_last()
        } else {
            stack
        },
        _ => stack,
    }
}

/// The string under construction after a match.
pub open spec fn working_after(pat_name: PatName, lexeme: Seq<char>, working: Seq<char>) -> Seq<
    char,
> {
    match pat_name {
        PatName::NormalQuote => Seq::empty(),
        PatName::QuoteChar => working + lexeme,
        PatName::QuoteEscNewLine => working.push('\n'),
        PatName::QuoteBackSpace => working.push('\x08'),
        PatName::QuoteTab => working.push('\t'),
        PatName::QuoteFormFeed => working.push('\x0c'),
        PatName::QuoteEscChar => working + lexeme.subrange(1, 2),
        _ => working,
    }
}

/// The token that a match makes, if it makes one.
pub open spec fn token_for(
    pat_name: PatName,
    line_no: i16,
    lexeme: Seq<char>,
    working: Seq<char>,
    parsed: Option<u32>,
) -> Option<TokenView> {
    match pat_name {
        PatName::NormalAdd => Some(TokenView::Add { line_no }),
        PatName::NormalDiv => Some(TokenView::Div { line_no }),
        PatName::NormalSub => Some(TokenView::Sub { line_no }),
        PatName::NormalMul => Some(TokenView::Mul { line_no }),
        PatName::NormalEq => Some(TokenView::Eq { line_no }),
        PatName::NormalLT => Some(TokenView::LT { line_no }),
        PatName::NormalDot => Some(TokenView::Dot { line_no }),
        PatName::NormalNeg => Some(TokenView::Neg { line_no }),
        PatName::NormalComma => Some(TokenView::Comma { line_no }),
        PatName::NormalSemiColon => Some(TokenView::SemiColon { line_no }),
        PatName::NormalColon => Some(TokenView::Colon { line_no }),
        PatName::NormalOpenParen => Some(TokenView::OpenParen { line_no }),
        PatName::NormalCloseParen => Some(TokenView::CloseParen { line_no }),
        PatName::NormalAt => Some(TokenView::At { line_no }),
        PatName::NormalOpenBrace => Some(TokenView::OpenBrace { line_no }),
        PatName::NormalCloseBrace => Some(TokenView::CloseBrace { line_no }),
        PatName::NormalClass => Some(TokenView::Class { line_no }),
        PatName::NormalElse => Some(TokenView::Else { line_no }),
        PatName::NormalFi => Some(TokenView::Fi { line_no }),
        PatName::NormalIf => Some(TokenView::If { line_no }),
        PatName::NormalIn => Some(TokenView::In { line_no }),
        PatName::NormalInherits => Some(TokenView::Inherits { line_no }),
        PatName::NormalLet => Some(TokenView::Let { line_no }),
        PatName::NormalLoop => Some(TokenView::Loop { line_no }),
        PatName::NormalPool => Some(TokenView::Pool { line_no }),
        PatName::NormalThen => Some(TokenView::Then { line_no }),
        PatName::NormalWhile => Some(TokenView::While { line_no }),
        PatName::NormalCase => Some(TokenView::Case { line_no }),
        PatName::NormalEsac => Some(TokenView::Esac { line_no }),
        PatName::NormalOf => Some(TokenView::Of { line_no }),
        PatName::NormalNew => Some(TokenView::New { line_no }),
        PatName::NormalIsVoid => Some(TokenView::IsVoid { line_no }),
        PatName::NormalNot => Some(TokenView::Not { line_no }),
        PatName::NormalDArrow => Some(TokenView::DArrow { line_no }),
        PatName::NormalLE => Some(TokenView::LEq { line_no }),
        PatName::NormalAssign => Some(TokenView::Assign { line_no }),
        PatName::NormalTrue => Some(TokenView::BoolConst { line_no, val: true }),
        PatName::NormalFalse => Some(TokenView::BoolConst { line_no, val: false }),
        PatName::NormalTypeID => Some(TokenView::TypeID { line_no, name: lexeme }),
        PatName::NormalObjectID => Some(TokenView::ObjectID { line_no, obj_name: lexeme }),
        PatName::NormalIntConst => match parsed {
            Some(val) => Some(TokenView::IntConst { line_no, val }),
            None => None,
        },
        PatName::QuoteQuote => Some(TokenView::StrConst { line_no, val: working }),
        _ => None,
    }
}

/// Whether `token` is the token that a match makes.
pub open spec fn token_made(
    pat_name: PatName,
    line_no: i16,
    lexeme: Seq<char>,
    working: Seq<char>,
    parsed: Option<u32>,
    token: Token,
) -> bool {
    token_for(pat_name, line_no, lexeme, working, parsed) == Some(token@)
}

/// Whether a match makes a token.
pub open spec fn makes_token(pat_name: PatName) -> bool {
    match pat_name {
        PatName::NormalAdd => true,
        PatName::NormalDiv => true,
        PatName::NormalSub => true,
        PatName::NormalMul => true,
        PatName::NormalEq => true,
        PatName::NormalLT => true,
        PatName::NormalDot => true,
        PatName::NormalNeg => true,
        PatName::NormalComma => true,
        PatName::NormalSemiColon => true,
        PatName::NormalColon => true,
        PatName::NormalOpenParen => true,
        PatName::NormalCloseParen => true,
        PatName::NormalAt => true,
        PatName::NormalOpenBrace => true,
        PatName::NormalCloseBrace => true,
        PatName::NormalClass => true,
        PatName::NormalElse => true,
        PatName::NormalFi => true,
        PatName::NormalIf => true,
        PatName::NormalIn => true,
        PatName::NormalInherits => true,
        PatName::NormalLet => true,
        PatName::NormalLoop => true,
        PatName::NormalPool => true,
        PatName::NormalThen => true,
        PatName::NormalWhile => true,
        PatName::NormalCase => true,
        PatName::NormalEsac => true,
        PatName::NormalOf => true,
        PatName::NormalNew => true,
        PatName::NormalIsVoid => true,
        PatName::NormalNot => true,
        PatName::NormalDArrow => true,
        PatName::NormalLE => true,
        PatName::NormalAssign => true,
        PatName::NormalTrue => true,
        PatName::NormalFalse => true,
        PatName::NormalTypeID => true,
        PatName::NormalObjectID => true,
        PatName::NormalIntConst => true,
        PatName::QuoteQuote => true,
        _ => false,
    }
}

/// The lexer's reaction to a match of `pat_name` on the text `lexeme`,
/// where `parsed` is the number that the text denotes, if it denotes one.
/// The match may make a token, which joins `tokens`; open or close a
/// comment or a string constant, which changes `state_stack`; add to the
/// string constant under construction in `working_str`; or be a
/// violation.
pub fn process_parsed(
    in_file_name: &str,
    line_no: i16,
    pat_name: PatName,
    lexeme: &str,
    parsed: Option<u32>,
    state_stack: &mut Vec<State>,
    tokens: &mut VecDeque<Token>,
    working_str: &mut String,
) -> (r: Result<(), LexError>)
    requires
        pat_name == PatName::QuoteEscChar ==> lexeme.is_ascii() && lexeme@.len() >= 2,
    ensures
        final(state_stack)@ == stack_after(pat_name, old(state_stack)@),
        match r {
            Ok(_) => {
                &&& lex_fault(pat_name, parsed) is None
                &&& final(working_str)@ == working_after(pat_name, lexeme@, old(working_str)@)
                &&& if makes_token(pat_name) {
                    &&& final(tokens)@.len() == old(tokens)@.len() + 1
                    &&& final(tokens)@.drop_last() == old(tokens)@
                    &&& token_made(
                        pat_name,
                        line_no,
                        lexeme@,
                        old(working_str)@,
                        parsed,
                        final(tokens)@.last(),
                    )
                } else {
                    final(tokens)@ == old(tokens)@
                }
            },
            Err(e) => {
                &&& lex_fault(pat_name, parsed) == Some(e.kind)
                &&& e.file_name@ == in_file_name@
                &&& e.line_no == line_no
                &&& e.lexeme@ == lexeme@
                &&& final(tokens)@ == old(tokens)@
                &&& final(working_str)@ == old(working_str)@
            },
        },
{
    let ghost tokens0 = tokens@;
    match pat_name {
        PatName::NormalAdd => tokens.push_back(Token::Add { line_no }),
        PatName::NormalDiv => tokens.push_back(Token::Div { line_no }),
        PatName::NormalSub => tokens.push_back(Token::Sub { line_no }),
        PatName::NormalMul => tokens.push_back(Token::Mul { line_no }),
        PatName::NormalEq => tokens.push_back(Token::Eq { line_no }),
        PatName::NormalLT => tokens.push_back(Token::LT { line_no }),
        PatName::NormalDot => tokens.push_back(Token::Dot { line_no }),
        PatName::NormalNeg => tokens.push_back(Token::Neg { line_no }),
        PatName::NormalComma => tokens.push_back(Token::Comma { line_no }),
        PatName::NormalSemiColon => tokens.push_back(Token::SemiColon { line_no }),
        PatName::NormalColon => tokens.push_back(Token::Colon { line_no }),
        PatName::NormalOpenParen => tokens.push_back(Token::OpenParen { line_no }),
        PatName::NormalCloseParen => tokens.push_back(Token::CloseParen { line_no }),
        PatName::NormalAt => tokens.push_back(Token::At { line_no }),
        PatName::NormalOpenBrace => tokens.push_back(Token::OpenBrace { line_no }),
        PatName::NormalCloseBrace => tokens.push_back(Token::CloseBrace { line_no }),
        PatName::NormalClass => tokens.push_back(Token::Class { line_no }),
        PatName::NormalElse => tokens.push_back(Token::Else { line_no }),
        PatName::NormalFi => tokens.push_back(Token::Fi { line_no }),
        PatName::NormalIf => tokens.push_back(Token::If { line_no }),
        PatName::NormalIn => tokens.push_back(Token::In { line_no }),
        PatName::NormalInherits => tokens.push_back(Token::Inherits { line_no }),
        PatName::NormalLet => tokens.push_back(Token::Let { line_no }),
        PatName::NormalLoop => tokens.push_back(Token::Loop { line_no }),
        PatName::NormalPool => tokens.push_back(Token::Pool { line_no }),
        PatName::NormalThen => tokens.push_back(Token::Then { line_no }),
        PatName::NormalWhile => tokens.push_back(Token::While { line_no }),
        PatName::NormalCase => tokens.push_back(Token::Case { line_no }),
        PatName::NormalEsac => tokens.push_back(Token::Esac { line_no }),
        PatName::NormalOf => tokens.push_back(Token::Of { line_no }),
        PatName::NormalNew => tokens.push_back(Token::New { line_no }),
        PatName::NormalIsVoid => tokens.push_back(Token::IsVoid { line_no }),
        PatName::NormalNot => tokens.push_back(Token::Not { line_no }),
        PatName::NormalDArrow => tokens.push_back(Token::DArrow { line_no }),
        PatName::NormalLE => tokens.push_back(Token::LEq { line_no }),
        PatName::NormalAssign => tokens.push_back(Token::Assign { line_no }),
        PatName::NormalWhiteSpace => {},
        PatName::NormalTrue => tokens.push_back(Token::BoolConst { line_no, val: true }),
        PatName::NormalFalse => tokens.push_back(Token::BoolConst { line_no, val: false }),
        PatName::NormalTypeID => tokens.push_back(
            Token::TypeID { line_no, name: String::from_str(lexeme) },
        ),
        PatName::NormalObjectID => tokens.push_back(
            Token::ObjectID { line_no, obj_name: String::from_str(lexeme) },
        ),
        PatName::NormalIntConst => match parsed {
            Some(val) => tokens.push_back(Token::IntConst { line_no, val }),
            None => {
            return Err(
                LexError {
                    kind: LexErrorKind::IntTooLarge,
                    file_name: String::from_str(in_file_name),
                    line_no,
                    lexeme: String::from_str(lexeme),
                },
            );
        },
        },
        PatName::NormalDashComment => {},
        PatName::NormalOpenComment => state_stack.push(State::Comment),
        PatName::NormalCloseComment => {
            return Err(
                LexError {
                    kind: LexErrorKind::UnmatchedCloseComment,
                    file_name: String::from_str(in_file_name),
                    line_no,
                    lexeme: String::from_str(lexeme),
                },
            );
        },
        PatName::NormalQuote => {
            state_stack.push(State::Quote);
            *working_str = String::new();
        },
        PatName::NormalBadChar => {
            return Err(
                LexError {
                    kind: LexErrorKind::UnexpectedCharacter,
                    file_name: String::from_str(in_file_name),
                    line_no,
                    lexeme: String::from_str(lexeme),
                },
            );
        },
        PatName::CommentOpenComment => state_stack.push(State::Comment),
        PatName::CommentCloseComment => {
            state_stack.pop();
        },
        PatName::CommentChar => {},
        PatName::QuoteNull => {
            return Err(
                LexError {
                    kind: LexErrorKind::NullInString,
                    file_name: String::from_str(in_file_name),
                    line_no,
                    lexeme: String::from_str(lexeme),
                },
            );
        },
        PatName::QuoteEscNull => {
            return Err(
                LexError {
                    kind: LexErrorKind::NullInString,
                    file_name: String::from_str(in_file_name),
                    line_no,
                    lexeme: String::from_str(lexeme),
                },
            );
        },
        PatName::QuoteQuote => {
            state_stack.pop();
            tokens.push_back(Token::StrConst { line_no, val: working_str.clone() });
        },
        PatName::QuoteChar => working_str.append(lexeme),
        PatName::QuoteEscNewLine => {
            proof {
                reveal_strlit("\n");
                assert(working_str@ + "\n"@ =~= working_str@.push('\n'));
            }
            working_str.append("\n");
        },
        PatName::QuoteBackSpace => {
            proof {
                reveal_strlit("\x08");
                assert(working_str@ + "\x08"@ =~= working_str@.push('\x08'));
            }
            working_str.append("\x08");
        },
        PatName::QuoteTab => {
            proof {
                reveal_strlit("\t");
                assert(working_str@ + "\t"@ =~= working_str@.push('\t'));
            }
            working_str.append("\t");
        },
        PatName::QuoteFormFeed => {
            proof {
                reveal_strlit("\x0c");
                assert(working_str@ + "\x0c"@ =~= working_str@.push('\x0c'));
            }
            working_str.append("\x0c");
        },
        PatName::QuoteEscChar => working_str.append(lexeme.substring_ascii(1, 2)),
        PatName::QuoteNewLine => {
            state_stack.pop();
            return Err(
                LexError {
                    kind: LexErrorKind::UnterminatedString,
                    file_name: String::from_str(in_file_name),
                    line_no,
                    lexeme: String::from_str(lexeme),
                },
            );
        },
    }
    proof {
        if makes_token(pat_name) {
            assert(tokens@.drop_last() =~= tokens0);
        }
    }
    Ok(())
}

/// The lexer's reaction to a match of `pat_name` on the text `lexeme`:
/// that of `process_parsed`, with the number that `str::parse::<u32>`
/// reads from the text.
pub fn process(
    in_file_name: &str,
    line_no: i16,
    pat_name: PatName,
    lexeme: &str,
    state_stack: &mut Vec<State>,
    tokens: &mut VecDeque<Token>,
    working_str: &mut String,
) -> (r: Result<(), LexError>)
    requires
        pat_name == PatName::QuoteEscChar ==> lexeme.is_ascii() && lexeme@.len() >= 2,
    ensures
        final(state_stack)@ == stack_after(pat_name, old(state_stack)@),
        match r {
            Ok(_) => {
                &&& lex_fault(pat_name, parsed_u32(lexeme@)) is None
                &&& final(working_str)@ == working_after(pat_name, lexeme@, old(working_str)@)
                &&& if makes_token(pat_name) {
                    &&& final(tokens)@.len() == old(tokens)@.len() + 1
                    &&& final(tokens)@.drop_last() == old(tokens)@
                    &&& token_made(
                        pat_name,
                        line_no,
                        lexeme@,
                        old(working_str)@,
                        parsed_u32(lexeme@),
                        final(tokens)@.last(),
                    )
                } else {
                    final(tokens)@ == old(tokens)@
                }
            },
            Err(e) => {
                &&& lex_fault(pat_name, parsed_u32(lexeme@)) == Some(e.kind)
                &&& e.file_name@ == in_file_name@
                &&& e.line_no == line_no
                &&& e.lexeme@ == lexeme@
                &&& final(tokens)@ == old(tokens)@
                &&& final(working_str)@ == old(working_str)@
            },
        },
{
    let parsed = parse_u32(lexeme);
    process_parsed(
        in_file_name,
        line_no,
        pat_name,
        lexeme,
        parsed,
        state_stack,
        tokens,
        working_str,
    )
}

} // verus!
