//! The lexer: lines of source text in, tokens out.
//!
//! At each place of a line the lexer tries the patterns of its state and
//! follows the one that takes the longest text; `process` then makes the
//! token, or moves into or out of a comment or a string constant.

pub mod patterns;
pub mod process;

use crate::lexer::patterns::{
    all_accepted, comment_pats, comment_table, initial_pats, initial_table, lemma_comment_names,
    lemma_initial_names, lemma_quote_names, match_end, quote_pats, quote_table,
    state_of, table_of, Pattern,
};
use crate::lexer::process::{
    lex_fault, parsed_u32, process, rank, rank_of, stack_after, token_for, working_after,
    LexError, LexErrorKind, PatName, State,
};
use crate::semant::constants::texts_of;
use crate::token::{Token, TokenView};
use std::collections::VecDeque;
use vstd::prelude::*;
use vstd::string::*;
use vstd::utf8::is_ascii_chars;

verus! {

/// A match of a pattern: the pattern's name and the length of the text
/// that it takes.
#[derive(Clone, Copy, Debug)]
pub struct Match {
    pub pat_name: PatName,
    pub len: usize,
}

/// The order in which the lexer prefers matches: the longer text first,
/// and of two texts of one length the one whose name comes first.
pub open spec fn precedes(a: Match, b: Match) -> bool {
    a.len > b.len || (a.len == b.len && rank(a.pat_name) <= rank(b.pat_name))
}

impl Match {
    /// Whether the lexer prefers this match to `other`, or as much.
    pub fn precedes(&self, other: &Match) -> (r: bool)
        ensures
            r == precedes(*self, *other),
    {
        self.len > other.len || (self.len == other.len && rank_of(self.pat_name) <= rank_of(
            other.pat_name,
        ))
    }
}

/// The match that the lexer prefers among those of the first `n` patterns
/// of a table on `text`.
pub open spec fn best_upto(table: Seq<(Seq<char>, PatName)>, text: Seq<char>, n: int) -> Option<
    Match,
>
    decreases n,
{
    if n <= 0 {
        None
    } else {
        let rest = best_upto(table, text, n - 1);
        match match_end(table[n - 1].0, text) {
            None => rest,
            Some(len) => {
                let m = Match { pat_name: table[n - 1].1, len };
                if rest is Some && precedes(rest.unwrap(), m) {
                    rest
                } else {
                    Some(m)
                }
            },
        }
    }
}

/// The match that the lexer prefers among those of a table's patterns on
/// `text`.
pub open spec fn best_match(table: Seq<(Seq<char>, PatName)>, text: Seq<char>) -> Option<Match> {
    best_upto(table, text, table.len() as int)
}

/// The preferred match is a match of one of the patterns, and the lexer
/// prefers it to the match of every pattern; where there is none, no
/// pattern matches.
pub proof fn lemma_best_upto(table: Seq<(Seq<char>, PatName)>, text: Seq<char>, n: int)
    requires
        0 <= n <= table.len(),
    ensures
        match best_upto(table, text, n) {
            None => forall|i: int| 0 <= i < n ==> match_end(#[trigger] table[i].0, text) is None,
            Some(m) => {
                &&& exists|i: int|
                    0 <= i < n && (#[trigger] table[i]).1 == m.pat_name && match_end(
                        table[i].0,
                        text,
                    ) == Some(m.len)
                &&& forall|i: int|
                    0 <= i < n && match_end((#[trigger] table[i]).0, text) is Some ==> precedes(
                        m,
                        Match { pat_name: table[i].1, len: match_end(table[i].0, text).unwrap() },
                    )
            },
        },
    decreases n,
{
    if n > 0 {
        lemma_best_upto(table, text, n - 1);
        let rest = best_upto(table, text, n - 1);
        match match_end(table[n - 1].0, text) {
            None => {
                if rest is Some {
                    let i = choose|i: int|
                        0 <= i < n - 1 && (#[trigger] table[i]).1 == rest.unwrap().pat_name
                            && match_end(table[i].0, text) == Some(rest.unwrap().len);
                    assert(0 <= i < n && table[i].1 == rest.unwrap().pat_name);
                }
            },
            Some(len) => {
                let m = Match { pat_name: table[n - 1].1, len };
                if rest is Some && precedes(rest.unwrap(), m) {
                    let i = choose|i: int|
                        0 <= i < n - 1 && (#[trigger] table[i]).1 == rest.unwrap().pat_name
                            && match_end(table[i].0, text) == Some(rest.unwrap().len);
                    assert(0 <= i < n && table[i].1 == rest.unwrap().pat_name);
                } else {
                    assert(table[n - 1].1 == m.pat_name);
                }
            },
        }
    }
}

/// The match that the lexer prefers among those of the patterns on
/// `remain`: the one that takes the longest text and, among those, the one
/// whose name comes first.
pub fn search_pats(pats: &Vec<(Pattern, PatName)>, remain: &str) -> (r: Option<Match>)
    ensures
        r == best_match(table_of(pats@), remain@),
        r is Some && remain.is_ascii() ==> r.unwrap().len <= remain@.len(),
{
    let mut best: Option<Match> = None;
    let mut i: usize = 0;
    while i < pats.len()
        invariant
            i <= pats.len(),
            best == best_upto(table_of(pats@), remain@, i as int),
            best is Some && remain.is_ascii() ==> best.unwrap().len <= remain@.len(),
        decreases pats.len() - i,
    {
        let entry = &pats[i];
        match entry.0.find_end(remain) {
            Some(len) => {
                let m = Match { pat_name: entry.1, len };
                let keep = match best {
                    Some(b) => b.precedes(&m),
                    None => false,
                };
                if !keep {
                    best = Some(m);
                }
            },
            None => {},
        }
        i += 1;
    }
    best
}

/// The patterns of the lexer's three states.
pub struct PatternSets {
    normal: Vec<(Pattern, PatName)>,
    comment: Vec<(Pattern, PatName)>,
    quote: Vec<(Pattern, PatName)>,
}

/// The texts and names of the patterns that the lexer tries in a state.
pub open spec fn table_in(state: State) -> Seq<(Seq<char>, PatName)> {
    match state {
        State::Normal => initial_table(),
        State::Comment => comment_table(),
        State::Quote => quote_table(),
    }
}

impl PatternSets {
    /// Whether the sets hold the lexer's patterns.
    pub closed spec fn wf(&self) -> bool {
        &&& table_of(self.normal@) == initial_table()
        &&& table_of(self.comment@) == comment_table()
        &&& table_of(self.quote@) == quote_table()
    }

    /// The lexer's patterns, or nothing where the `regex` crate refuses
    /// the text of one of them.
    pub fn new() -> (r: Option<PatternSets>)
        ensures
            r is Some <==> all_accepted(initial_table()) && all_accepted(comment_table())
                && all_accepted(quote_table()),
            r matches Some(sets) ==> sets.wf(),
    {
        let normal = match initial_pats() {
            Some(pats) => pats,
            None => { return None; },
        };
        let comment = match comment_pats() {
            Some(pats) => pats,
            None => { return None; },
        };
        let quote = match quote_pats() {
            Some(pats) => pats,
            None => { return None; },
        };
        Some(PatternSets { normal, comment, quote })
    }

    /// The patterns that the lexer tries in a state.
    pub fn for_state(&self, state: State) -> (pats: &Vec<(Pattern, PatName)>)
        requires
            self.wf(),
        ensures
            table_of(pats@) == table_in(state),
    {
        match state {
            State::Normal => &self.normal,
            State::Comment => &self.comment,
            State::Quote => &self.quote,
        }
    }
}

/// What the lexer has read so far: the states that it is in, innermost
/// last, the tokens, and the string constant under construction.
pub struct LexView {
    pub stack: Seq<State>,
    pub tokens: Seq<TokenView>,
    pub working: Seq<char>,
}

/// A refusal of the lexer, without the file's name.
pub struct FaultView {
    pub kind: LexErrorKind,
    pub line_no: i16,
    pub lexeme: Seq<char>,
}

/// What a refusal says, without the file's name.
pub open spec fn fault_of(e: LexError) -> FaultView {
    FaultView { kind: e.kind, line_no: e.line_no, lexeme: e.lexeme@ }
}

/// What each of a list of tokens holds.
pub open spec fn views_of(tokens: Seq<Token>) -> Seq<TokenView> {
    Seq::new(tokens.len(), |i: int| tokens[i]@)
}

/// The state that decides which patterns the lexer tries.
pub open spec fn top_state(stack: Seq<State>) -> State {
    if stack.len() > 0 {
        stack.last()
    } else {
        State::Normal
    }
}

/// What the lexer has read after the match of a pattern on `lexeme`.
pub open spec fn after_match(st: LexView, pat_name: PatName, line_no: i16, lexeme: Seq<char>) -> LexView {
    LexView {
        stack: stack_after(pat_name, st.stack),
        tokens: match token_for(pat_name, line_no, lexeme, st.working, parsed_u32(lexeme)) {
            Some(token) => st.tokens.push(token),
            None => st.tokens,
        },
        working: working_after(pat_name, lexeme, st.working),
    }
}

/// Whether a match takes the lexer no further: it takes no text, or it is
/// an escape without the character that it escapes.
pub open spec fn stalls(m: Match) -> bool {
    m.len == 0 || (m.pat_name == PatName::QuoteEscChar && m.len < 2)
}

/// What the lexer has read at the end of a line that it began to read at
/// the place `start`, or its refusal.
pub open spec fn lex_line(line_no: i16, line: Seq<char>, start: int, st: LexView) -> Result<
    LexView,
    FaultView,
>
    decreases
            if start < line.len() {
                line.len() - start
            } else {
                0
            },
{
    if start < 0 || start >= line.len() {
        Ok(st)
    } else {
        let remain = line.subrange(start, line.len() as int);
        match best_match(table_in(top_state(st.stack)), remain) {
            None => Err(FaultView { kind: LexErrorKind::NoMatch, line_no, lexeme: remain }),
            Some(m) => if stalls(m) {
                Err(FaultView { kind: LexErrorKind::NoMatch, line_no, lexeme: remain })
            } else {
                let lexeme = remain.subrange(0, m.len as int);
                match lex_fault(m.pat_name, parsed_u32(lexeme)) {
                    Some(kind) => Err(FaultView { kind, line_no, lexeme }),
                    None => lex_line(
                        line_no,
                        line,
                        start + m.len,
                        after_match(st, m.pat_name, line_no, lexeme),
                    ),
                }
            },
        }
    }
}

/// What the lexer has read at the end of the lines, from line `k` on, or
/// its refusal. Lines count from one.
pub open spec fn lex_lines(lines: Seq<Seq<char>>, k: int, st: LexView) -> Result<
    LexView,
    FaultView,
>
    decreases lines.len() - k,
{
    if k < 0 || k >= lines.len() {
        Ok(st)
    } else if !is_ascii_chars(lines[k]) {
        Err(FaultView { kind: LexErrorKind::NonAscii, line_no: (k + 1) as i16, lexeme: Seq::empty() })
    } else {
        match lex_line((k + 1) as i16, lines[k], 0, st) {
            Err(fault) => Err(fault),
            Ok(next) => lex_lines(lines, k + 1, next),
        }
    }
}

/// The lexer before it reads.
pub open spec fn lex_start() -> LexView {
    LexView { stack: seq![State::Normal], tokens: Seq::empty(), working: Seq::empty() }
}

/// The tokens of the lines of a source file, or the refusal of the lexer.
/// The last token marks the end of the input, on the line after the last.
pub open spec fn lexed(lines: Seq<Seq<char>>) -> Result<Seq<TokenView>, FaultView> {
    let end_line = (lines.len() + 1) as i16;
    match lex_lines(lines, 0, lex_start()) {
        Err(fault) => Err(fault),
        Ok(st) => match top_state(st.stack) {
            State::Normal => Ok(st.tokens.push(TokenView::End { line_no: end_line })),
            State::Comment => Err(
                FaultView { kind: LexErrorKind::EofInComment, line_no: end_line, lexeme: Seq::empty() },
            ),
            State::Quote => Err(
                FaultView { kind: LexErrorKind::EofInString, line_no: end_line, lexeme: Seq::empty() },
            ),
        },
    }
}

/// A refusal of the lexer.
fn refusal(kind: LexErrorKind, in_file_name: &str, line_no: i16, lexeme: &str) -> (e: LexError)
    ensures
        fault_of(e) == (FaultView { kind, line_no, lexeme: lexeme@ }),
        e.file_name@ == in_file_name@,
{
    LexError { kind, file_name: in_file_name.to_owned(), line_no, lexeme: lexeme.to_owned() }
}

/// Every name that the lexer follows in a state is one of that state.
proof fn lemma_best_name(state: State, text: Seq<char>)
    ensures
        best_match(table_in(state), text) matches Some(m) ==> state_of(m.pat_name) == state,
{
    lemma_initial_names();
    lemma_comment_names();
    lemma_quote_names();
    lemma_best_upto(table_in(state), text, table_in(state).len() as int);
}

/// Reads one line.
fn tokenize_line(
    sets: &PatternSets,
    line: &str,
    line_no: i16,
    in_file_name: &str,
    state_stack: &mut Vec<State>,
    tokens: &mut VecDeque<Token>,
    working_str: &mut String,
) -> (r: Result<(), LexError>)
    requires
        sets.wf(),
        line.is_ascii(),
        old(state_stack)@.len() > 0,
        old(state_stack)@[0] == State::Normal,
    ensures
        final(state_stack)@.len() > 0,
        final(state_stack)@[0] == State::Normal,
        match r {
            Ok(_) => lex_line(
                line_no,
                line@,
                0,
                LexView {
                    stack: old(state_stack)@,
                    tokens: views_of(old(tokens)@),
                    working: old(working_str)@,
                },
            ) == Ok::<LexView, FaultView>(
                LexView {
                    stack: final(state_stack)@,
                    tokens: views_of(final(tokens)@),
                    working: final(working_str)@,
                },
            ),
            Err(e) => lex_line(
                line_no,
                line@,
                0,
                LexView {
                    stack: old(state_stack)@,
                    tokens: views_of(old(tokens)@),
                    working: old(working_str)@,
                },
            ) == Err::<LexView, FaultView>(fault_of(e)) && e.file_name@ == in_file_name@,
        },
{
    let line_len = line.unicode_len();
    let mut start: usize = 0;
    let ghost first = LexView {
        stack: state_stack@,
        tokens: views_of(tokens@),
        working: working_str@,
    };
    while start < line_len
        invariant
            sets.wf(),
            line.is_ascii(),
            line_len == line@.len(),
            start <= line_len,
            state_stack@.len() > 0,
            state_stack@[0] == State::Normal,
            first == (LexView {
                stack: old(state_stack)@,
                tokens: views_of(old(tokens)@),
                working: old(working_str)@,
            }),
            lex_line(line_no, line@, 0, first) == lex_line(
                line_no,
                line@,
                start as int,
                LexView { stack: state_stack@, tokens: views_of(tokens@), working: working_str@ },
            ),
        decreases line_len - start,
    {
        let ghost here = LexView {
            stack: state_stack@,
            tokens: views_of(tokens@),
            working: working_str@,
        };
        let ghost before = tokens@;
        let remain = line.substring_ascii(start, line_len);
        let top = state_stack[state_stack.len() - 1];
        proof {
            lemma_best_name(top, remain@);
        }
        let m = match search_pats(sets.for_state(top), remain) {
            Some(m) => m,
            None => {
                return Err(refusal(LexErrorKind::NoMatch, in_file_name, line_no, remain));
            },
        };
        let escape = match m.pat_name {
            PatName::QuoteEscChar => true,
            _ => false,
        };
        if m.len == 0 || (escape && m.len < 2) {
            return Err(refusal(LexErrorKind::NoMatch, in_file_name, line_no, remain));
        }
        let lexeme = remain.substring_ascii(0, m.len);
        match process(
            in_file_name,
            line_no,
            m.pat_name,
            lexeme,
            state_stack,
            tokens,
            working_str,
        ) {
            Err(e) => {
                return Err(e);
            },
            Ok(_) => {},
        }
        proof {
            let made = token_for(m.pat_name, line_no, lexeme@, here.working, parsed_u32(lexeme@));
            if made is Some {
                assert(views_of(tokens@) =~= views_of(before).push(made.unwrap()));
            }
            assert(LexView {
                stack: state_stack@,
                tokens: views_of(tokens@),
                working: working_str@,
            } == after_match(here, m.pat_name, line_no, lexeme@));
        }
        start += m.len;
    }
    Ok(())
}

/// The tokens of a source file, whose lines come with their line ends.
/// The lexer refuses a line with a character outside ASCII, what `process`
/// refuses, a place at which no pattern takes it further, and a file that
/// ends inside a comment or a string constant.
pub fn tokenize(sets: &PatternSets, lines: &Vec<String>, in_file_name: &str) -> (r: Result<
    VecDeque<Token>,
    LexError,
>)
    requires
        sets.wf(),
        lines.len() < i16::MAX,
    ensures
        match r {
            Ok(tokens) => lexed(texts_of(lines@)) == Ok::<Seq<TokenView>, FaultView>(
                views_of(tokens@),
            ),
            Err(e) => lexed(texts_of(lines@)) == Err::<Seq<TokenView>, FaultView>(fault_of(e))
                && e.file_name@ == in_file_name@,
        },
{
    let mut tokens: VecDeque<Token> = VecDeque::new();
    let mut state_stack: Vec<State> = Vec::new();
    state_stack.push(State::Normal);
    let mut working_str = String::new();
    let ghost all = texts_of(lines@);
    proof {
        assert(views_of(tokens@) =~= Seq::empty());
        assert(state_stack@ =~= seq![State::Normal]);
    }
    proof {
        reveal_strlit("");
    }
    let mut k: usize = 0;
    while k < lines.len()
        invariant
            sets.wf(),
            lines.len() < i16::MAX,
            k <= lines.len(),
            all == texts_of(lines@),
            ""@ == Seq::<char>::empty(),
            state_stack@.len() > 0,
            state_stack@[0] == State::Normal,
            lex_lines(all, 0, lex_start()) == lex_lines(
                all,
                k as int,
                LexView { stack: state_stack@, tokens: views_of(tokens@), working: working_str@ },
            ),
        decreases lines.len() - k,
    {
        let line = lines[k].as_str();
        let line_no: i16 = (k + 1) as i16;
        assert(all[k as int] == line@);
        if !line.is_ascii() {
            return Err(refusal(LexErrorKind::NonAscii, in_file_name, line_no, ""));
        }
        match tokenize_line(
            sets,
            line,
            line_no,
            in_file_name,
            &mut state_stack,
            &mut tokens,
            &mut working_str,
        ) {
            Err(e) => {
                return Err(e);
            },
            Ok(_) => {},
        }
        k += 1;
    }
    let end_line: i16 = (lines.len() + 1) as i16;
    let top = state_stack[state_stack.len() - 1];
    match top {
        State::Normal => {
            let ghost before = tokens@;
            tokens.push_back(Token::End { line_no: end_line });
            proof {
                assert(views_of(tokens@) =~= views_of(before).push(
                    TokenView::End { line_no: end_line },
                ));
            }
            Ok(tokens)
        },
        State::Comment => Err(refusal(LexErrorKind::EofInComment, in_file_name, end_line, "")),
        State::Quote => Err(refusal(LexErrorKind::EofInString, in_file_name, end_line, "")),
    }
}

} // verus!
