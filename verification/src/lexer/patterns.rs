//! The patterns that the lexer tries: regular expressions of the `regex`
//! crate, each with the name under which the lexer reacts to its match.

use crate::lexer::process::{PatName, State};
use regex::Regex;
use vstd::prelude::*;

verus! {

/// `regex::Regex`, a compiled regular expression. Nothing is said of what
/// it holds.
#[verifier::external_type_specification]
#[verifier::external_body]
pub struct ExRegex(Regex);

/// A regular expression with the text that it was compiled from. A pattern
/// is made by `Pattern::new` alone, so the expression always is the one
/// that `Regex::new` compiles from the text.
pub struct Pattern {
    source: String,
    regex: Regex,
}

/// The place behind the first match of the regular expression `pattern` in
/// `text`, as `Regex::find` reports it, or nothing where it finds no match.
pub uninterp spec fn match_end(pattern: Seq<char>, text: Seq<char>) -> Option<usize>;

/// Whether `Regex::new` takes `source`: the text is a regular expression
/// in the syntax of the `regex` crate, and what it compiles to is within
/// the size that the crate allows by default.
pub uninterp spec fn regex_accepts(source: Seq<char>) -> bool;

/// `Regex::new`: the compiled expression, kept with its text, or nothing
/// where the crate refuses the text. Whether it refuses is a matter of the
/// text alone.
#[verifier::external_body]
fn compile(source: &str) -> (r: Option<Pattern>)
    ensures
        r is Some <==> regex_accepts(source@),
        r matches Some(p) ==> p.source@ == source@,
{
    match Regex::new(source) {
        Ok(regex) => Some(Pattern { source: source.to_string(), regex }),
        Err(_) => None,
    }
}

/// `Regex::find` and `Match::end`: the offset behind the first match in
/// `text`, which is a function of the expression's text and of `text`, or
/// nothing without a match. The offset is one at which `text` can be
/// sliced, so in a text of ASCII characters it counts characters and does
/// not pass the end.
#[verifier::external_body]
fn find_end(pattern: &Pattern, text: &str) -> (r: Option<usize>)
    ensures
        r == match_end(pattern.source@, text@),
        r is Some && text.is_ascii() ==> r.unwrap() <= text@.len(),
{
    match pattern.regex.find(text) {
        Some(found) => Some(found.end()),
        None => None,
    }
}

impl Pattern {
    /// The text of the regular expression.
    pub closed spec fn text(&self) -> Seq<char> {
        self.source@
    }

    /// The pattern for `source`, where the `regex` crate takes the text as
    /// a regular expression, and nothing where it does not.
    pub fn new(source: &str) -> (r: Option<Pattern>)
        ensures
            r is Some <==> regex_accepts(source@),
            r matches Some(p) ==> p.text() == source@,
    {
        compile(source)
    }

    /// The offset behind the first match of the pattern in `text`.
    pub fn find_end(&self, text: &str) -> (r: Option<usize>)
        ensures
            r == match_end(self.text(), text@),
            r is Some && text.is_ascii() ==> r.unwrap() <= text@.len(),
    {
        find_end(self, text)
    }
}

/// The texts and names of a list of patterns.
pub open spec fn table_of(pats: Seq<(Pattern, PatName)>) -> Seq<(Seq<char>, PatName)> {
    Seq::new(pats.len(), |i: int| (pats[i].0.text(), pats[i].1))
}

/// The state in which the lexer tries the pattern of a name.
pub open spec fn state_of(name: PatName) -> State {
    match name {
        PatName::CommentOpenComment => State::Comment,
        PatName::CommentCloseComment => State::Comment,
        PatName::CommentChar => State::Comment,
        PatName::QuoteNull => State::Quote,
        PatName::QuoteEscNull => State::Quote,
        PatName::QuoteQuote => State::Quote,
        PatName::QuoteChar => State::Quote,
        PatName::QuoteEscNewLine => State::Quote,
        PatName::QuoteBackSpace => State::Quote,
        PatName::QuoteTab => State::Quote,
        PatName::QuoteFormFeed => State::Quote,
        PatName::QuoteEscChar => State::Quote,
        PatName::QuoteNewLine => State::Quote,
        _ => State::Normal,
    }
}

/// Whether every name of a table is tried in `state`.
pub open spec fn names_of(table: Seq<(Seq<char>, PatName)>, state: State) -> bool {
    forall|i: int| 0 <= i < table.len() ==> state_of((#[trigger] table[i]).1) == state
}

/// Whether the `regex` crate takes every text of a table as a regular
/// expression.
pub open spec fn all_accepted(table: Seq<(Seq<char>, PatName)>) -> bool {
    forall|i: int| 0 <= i < table.len() ==> regex_accepts((#[trigger] table[i]).0)
}

/// Adds the pattern for `source` to a list, under `name`, where the
/// `regex` crate takes the text as a regular expression. Where it does not,
/// the list stays as it is and the answer is `false`.
fn add_pattern(pats: &mut Vec<(Pattern, PatName)>, source: &str, name: PatName) -> (added: bool)
    ensures
        added == regex_accepts(source@),
        added ==> table_of(final(pats)@) == table_of(old(pats)@).push((source@, name)),
        added && all_accepted(table_of(old(pats)@)) ==> all_accepted(table_of(final(pats)@)),
        !added ==> *final(pats) == *old(pats),
{
    match Pattern::new(source) {
        Some(pattern) => {
            pats.push((pattern, name));
            proof {
                let before = table_of(old(pats)@);
                assert(table_of(pats@) =~= before.push((source@, name)));
                if all_accepted(before) {
                    assert forall|i: int| 0 <= i < table_of(pats@).len() implies regex_accepts(
                        (#[trigger] table_of(pats@)[i]).0,
                    ) by {
                        if i < before.len() {
                            assert(table_of(pats@)[i] == before[i]);
                        }
                    }
                }
            }
            true
        },
        None => false,
    }
}

/// The patterns tried on program text, texts and names.
pub open spec fn initial_table() -> Seq<(Seq<char>, PatName)> {
    seq![
        (r"^\+"@, PatName::NormalAdd),
        (r"^/"@, PatName::NormalDiv),
        (r"^\-"@, PatName::NormalSub),
        (r"^\*"@, PatName::NormalMul),
        (r"^="@, PatName::NormalEq),
        (r"^<"@, PatName::NormalLT),
        (r"^\."@, PatName::NormalDot),
        (r"^\~"@, PatName::NormalNeg),
        (r"^,"@, PatName::NormalComma),
        (r"^;"@, PatName::NormalSemiColon),
        (r"^:"@, PatName::NormalColon),
        (r"^\("@, PatName::NormalOpenParen),
        (r"^\)"@, PatName::NormalCloseParen),
        (r"^@"@, PatName::NormalAt),
        (r"^\{"@, PatName::NormalOpenBrace),
        (r"^\}"@, PatName::NormalCloseBrace),
        (r"^[ \t\f\r\v\n]"@, PatName::NormalWhiteSpace),
        (r"^(?i:CLASS)"@, PatName::NormalClass),
        (r"^(?i:ELSE)"@, PatName::NormalElse),
        (r"^(?i:FI)"@, PatName::NormalFi),
        (r"^(?i:IF)"@, PatName::NormalIf),
        (r"^(?i:IN)"@, PatName::NormalIn),
        (r"^(?i:INHERITS)"@, PatName::NormalInherits),
        (r"^(?i:LET)"@, PatName::NormalLet),
        (r"^(?i:LOOP)"@, PatName::NormalLoop),
        (r"^(?i:POOL)"@, PatName::NormalPool),
        (r"^(?i:THEN)"@, PatName::NormalThen),
        (r"^(?i:WHILE)"@, PatName::NormalWhile),
        (r"^(?i:CASE)"@, PatName::NormalCase),
        (r"^(?i:ESAC)"@, PatName::NormalEsac),
        (r"^(?i:OF)"@, PatName::NormalOf),
        (r"^(?i:NEW)"@, PatName::NormalNew),
        (r"^(?i:ISVOID)"@, PatName::NormalIsVoid),
        (r"^(?i:NOT)"@, PatName::NormalNot),
        (r"^=>"@, PatName::NormalDArrow),
        (r"^<="@, PatName::NormalLE),
        (r"^<-"@, PatName::NormalAssign),
        (r"^t(?i:rue)"@, PatName::NormalTrue),
        (r"^f(?i:alse)"@, PatName::NormalFalse),
        (r"^[A-Z][A-Za-z0-9_]*"@, PatName::NormalTypeID),
        (r"^[a-z][A-Za-z0-9_]*"@, PatName::NormalObjectID),
        (r"^[0-9]+"@, PatName::NormalIntConst),
        (r"^\-\-.*"@, PatName::NormalDashComment),
        (r"^\(\*"@, PatName::NormalOpenComment),
        (r"^\*\)"@, PatName::NormalCloseComment),
        (r#"^""#@, PatName::NormalQuote),
        (r"^."@, PatName::NormalBadChar),
    ]
}

/// The patterns tried on program text, in the order in which ties between
/// them are settled, or nothing where the `regex` crate refuses one of
/// their texts.
pub fn initial_pats() -> (r: Option<Vec<(Pattern, PatName)>>)
    ensures
        r is Some <==> all_accepted(initial_table()),
        r matches Some(pats) ==> table_of(pats@) == initial_table(),
{
    let mut pats: Vec<(Pattern, PatName)> = Vec::new();
    assert(table_of(pats@) =~= Seq::empty());
    if !add_pattern(&mut pats, r"^\+", PatName::NormalAdd) {
        assert(!regex_accepts(initial_table()[0].0));
        return None;
    }
    if !add_pattern(&mut pats, r"^/", PatName::NormalDiv) {
        assert(!regex_accepts(initial_table()[1].0));
        return None;
    }
    if !add_pattern(&mut pats, r"^\-", PatName::NormalSub) {
        assert(!regex_accepts(initial_table()[2].0));
        return None;
    }
    if !add_pattern(&mut pats, r"^\*", PatName::NormalMul) {
        assert(!regex_accepts(initial_table()[3].0));
        return None;
    }
    if !add_pattern(&mut pats, r"^=", PatName::NormalEq) {
        assert(!regex_accepts(initial_table()[4].0));
        return None;
    }
    if !add_pattern(&mut pats, r"^<", PatName::NormalLT) {
        assert(!regex_accepts(initial_table()[5].0));
        return None;
    }
    if !add_pattern(&mut pats, r"^\.", PatName::NormalDot) {
        assert(!regex_accepts(initial_table()[6].0));
        return None;
    }
    if !add_pattern(&mut pats, r"^\~", PatName::NormalNeg) {
        assert(!regex_accepts(initial_table()[7].0));
        return None;
    }
    if !add_pattern(&mut pats, r"^,", PatName::NormalComma) {
        assert(!regex_accepts(initial_table()[8].0));
        return None;
    }
    if !add_pattern(&mut pats, r"^;", PatName::NormalSemiColon) {
        assert(!regex_accepts(initial_table()[9].0));
        return None;
    }
    if !add_pattern(&mut pats, r"^:", PatName::NormalColon) {
        assert(!regex_accepts(initial_table()[10].0));
        return None;
    }
    if !add_pattern(&mut pats, r"^\(", PatName::NormalOpenParen) {
        assert(!regex_accepts(initial_table()[11].0));
        return None;
    }
    if !add_pattern(&mut pats, r"^\)", PatName::NormalCloseParen) {
        assert(!regex_accepts(initial_table()[12].0));
        return None;
    }
    if !add_pattern(&mut pats, r"^@", PatName::NormalAt) {
        assert(!regex_accepts(initial_table()[13].0));
        return None;
    }
    if !add_pattern(&mut pats, r"^\{", PatName::NormalOpenBrace) {
        assert(!regex_accepts(initial_table()[14].0));
        return None;
    }
    if !add_pattern(&mut pats, r"^\}", PatName::NormalCloseBrace) {
        assert(!regex_accepts(initial_table()[15].0));
        return None;
    }
    if !add_pattern(&mut pats, r"^[ \t\f\r\v\n]", PatName::NormalWhiteSpace) {
        assert(!regex_accepts(initial_table()[16].0));
        return None;
    }
    if !add_pattern(&mut pats, r"^(?i:CLASS)", PatName::NormalClass) {
        assert(!regex_accepts(initial_table()[17].0));
        return None;
    }
    if !add_pattern(&mut pats, r"^(?i:ELSE)", PatName::NormalElse) {
        assert(!regex_accepts(initial_table()[18].0));
        return None;
    }
    if !add_pattern(&mut pats, r"^(?i:FI)", PatName::NormalFi) {
        assert(!regex_accepts(initial_table()[19].0));
        return None;
    }
    if !add_pattern(&mut pats, r"^(?i:IF)", PatName::NormalIf) {
        assert(!regex_accepts(initial_table()[20].0));
        return None;
    }
    if !add_pattern(&mut pats, r"^(?i:IN)", PatName::NormalIn) {
        assert(!regex_accepts(initial_table()[21].0));
        return None;
    }
    if !add_pattern(&mut pats, r"^(?i:INHERITS)", PatName::NormalInherits) {
        assert(!regex_accepts(initial_table()[22].0));
        return None;
    }
    if !add_pattern(&mut pats, r"^(?i:LET)", PatName::NormalLet) {
        assert(!regex_accepts(initial_table()[23].0));
        return None;
    }
    if !add_pattern(&mut pats, r"^(?i:LOOP)", PatName::NormalLoop) {
        assert(!regex_accepts(initial_table()[24].0));
        return None;
    }
    if !add_pattern(&mut pats, r"^(?i:POOL)", PatName::NormalPool) {
        assert(!regex_accepts(initial_table()[25].0));
        return None;
    }
    if !add_pattern(&mut pats, r"^(?i:THEN)", PatName::NormalThen) {
        assert(!regex_accepts(initial_table()[26].0));
        return None;
    }
    if !add_pattern(&mut pats, r"^(?i:WHILE)", PatName::NormalWhile) {
        assert(!regex_accepts(initial_table()[27].0));
        return None;
    }
    if !add_pattern(&mut pats, r"^(?i:CASE)", PatName::NormalCase) {
        assert(!regex_accepts(initial_table()[28].0));
        return None;
    }
    if !add_pattern(&mut pats, r"^(?i:ESAC)", PatName::NormalEsac) {
        assert(!regex_accepts(initial_table()[29].0));
        return None;
    }
    if !add_pattern(&mut pats, r"^(?i:OF)", PatName::NormalOf) {
        assert(!regex_accepts(initial_table()[30].0));
        return None;
    }
    if !add_pattern(&mut pats, r"^(?i:NEW)", PatName::NormalNew) {
        assert(!regex_accepts(initial_table()[31].0));
        return None;
    }
    if !add_pattern(&mut pats, r"^(?i:ISVOID)", PatName::NormalIsVoid) {
        assert(!regex_accepts(initial_table()[32].0));
        return None;
    }
    if !add_pattern(&mut pats, r"^(?i:NOT)", PatName::NormalNot) {
        assert(!regex_accepts(initial_table()[33].0));
        return None;
    }
    if !add_pattern(&mut pats, r"^=>", PatName::NormalDArrow) {
        assert(!regex_accepts(initial_table()[34].0));
        return None;
    }
    if !add_pattern(&mut pats, r"^<=", PatName::NormalLE) {
        assert(!regex_accepts(initial_table()[35].0));
        return None;
    }
    if !add_pattern(&mut pats, r"^<-", PatName::NormalAssign) {
        assert(!regex_accepts(initial_table()[36].0));
        return None;
    }
    if !add_pattern(&mut pats, r"^t(?i:rue)", PatName::NormalTrue) {
        assert(!regex_accepts(initial_table()[37].0));
        return None;
    }
    if !add_pattern(&mut pats, r"^f(?i:alse)", PatName::NormalFalse) {
        assert(!regex_accepts(initial_table()[38].0));
        return None;
    }
    if !add_pattern(&mut pats, r"^[A-Z][A-Za-z0-9_]*", PatName::NormalTypeID) {
        assert(!regex_accepts(initial_table()[39].0));
        return None;
    }
    if !add_pattern(&mut pats, r"^[a-z][A-Za-z0-9_]*", PatName::NormalObjectID) {
        assert(!regex_accepts(initial_table()[40].0));
        return None;
    }
    if !add_pattern(&mut pats, r"^[0-9]+", PatName::NormalIntConst) {
        assert(!regex_accepts(initial_table()[41].0));
        return None;
    }
    if !add_pattern(&mut pats, r"^\-\-.*", PatName::NormalDashComment) {
        assert(!regex_accepts(initial_table()[42].0));
        return None;
    }
    if !add_pattern(&mut pats, r"^\(\*", PatName::NormalOpenComment) {
        assert(!regex_accepts(initial_table()[43].0));
        return None;
    }
    if !add_pattern(&mut pats, r"^\*\)", PatName::NormalCloseComment) {
        assert(!regex_accepts(initial_table()[44].0));
        return None;
    }
    if !add_pattern(&mut pats, r#"^""#, PatName::NormalQuote) {
        assert(!regex_accepts(initial_table()[45].0));
        return None;
    }
    if !add_pattern(&mut pats, r"^.", PatName::NormalBadChar) {
        assert(!regex_accepts(initial_table()[46].0));
        return None;
    }
    Some(pats)
}

/// Every name of the table for program text is tried in that state.
pub proof fn lemma_initial_names()
    ensures
        names_of(initial_table(), State::Normal),
{
}

/// The patterns tried on a comment, texts and names.
pub open spec fn comment_table() -> Seq<(Seq<char>, PatName)> {
    seq![
        (r"^\(\*"@, PatName::CommentOpenComment),
        (r"^\*\)"@, PatName::CommentCloseComment),
        (r"^(.|\n)"@, PatName::CommentChar),
    ]
}

/// The patterns tried on a comment, in the order in which ties between
/// them are settled, or nothing where the `regex` crate refuses one of
/// their texts.
pub fn comment_pats() -> (r: Option<Vec<(Pattern, PatName)>>)
    ensures
        r is Some <==> all_accepted(comment_table()),
        r matches Some(pats) ==> table_of(pats@) == comment_table(),
{
    let mut pats: Vec<(Pattern, PatName)> = Vec::new();
    assert(table_of(pats@) =~= Seq::empty());
    if !add_pattern(&mut pats, r"^\(\*", PatName::CommentOpenComment) {
        assert(!regex_accepts(comment_table()[0].0));
        return None;
    }
    if !add_pattern(&mut pats, r"^\*\)", PatName::CommentCloseComment) {
        assert(!regex_accepts(comment_table()[1].0));
        return None;
    }
    if !add_pattern(&mut pats, r"^(.|\n)", PatName::CommentChar) {
        assert(!regex_accepts(comment_table()[2].0));
        return None;
    }
    Some(pats)
}

/// Every name of the table for a comment is tried in that state.
pub proof fn lemma_comment_names()
    ensures
        names_of(comment_table(), State::Comment),
{
}

/// The patterns tried on a string constant, texts and names.
pub open spec fn quote_table() -> Seq<(Seq<char>, PatName)> {
    seq![
        ("^\0"@, PatName::QuoteNull),
        ("^\\\\\0"@, PatName::QuoteEscNull),
        (r#"^""#@, PatName::QuoteQuote),
        (r#"^[^"\n]"#@, PatName::QuoteChar),
        (r"^\\\n"@, PatName::QuoteEscNewLine),
        (r"^\\b"@, PatName::QuoteBackSpace),
        (r"^\\t"@, PatName::QuoteTab),
        (r"^\\n"@, PatName::QuoteEscNewLine),
        (r"^\\f"@, PatName::QuoteFormFeed),
        (r"^\\."@, PatName::QuoteEscChar),
        (r"^\n"@, PatName::QuoteNewLine),
    ]
}

/// The patterns tried on a string constant, in the order in which ties between
/// them are settled, or nothing where the `regex` crate refuses one of
/// their texts.
pub fn quote_pats() -> (r: Option<Vec<(Pattern, PatName)>>)
    ensures
        r is Some <==> all_accepted(quote_table()),
        r matches Some(pats) ==> table_of(pats@) == quote_table(),
{
    let mut pats: Vec<(Pattern, PatName)> = Vec::new();
    assert(table_of(pats@) =~= Seq::empty());
    if !add_pattern(&mut pats, "^\0", PatName::QuoteNull) {
        assert(!regex_accepts(quote_table()[0].0));
        return None;
    }
    if !add_pattern(&mut pats, "^\\\\\0", PatName::QuoteEscNull) {
        assert(!regex_accepts(quote_table()[1].0));
        return None;
    }
    if !add_pattern(&mut pats, r#"^""#, PatName::QuoteQuote) {
        assert(!regex_accepts(quote_table()[2].0));
        return None;
    }
    if !add_pattern(&mut pats, r#"^[^"\n]"#, PatName::QuoteChar) {
        assert(!regex_accepts(quote_table()[3].0));
        return None;
    }
    if !add_pattern(&mut pats, r"^\\\n", PatName::QuoteEscNewLine) {
        assert(!regex_accepts(quote_table()[4].0));
        return None;
    }
    if !add_pattern(&mut pats, r"^\\b", PatName::QuoteBackSpace) {
        assert(!regex_accepts(quote_table()[5].0));
        return None;
    }
    if !add_pattern(&mut pats, r"^\\t", PatName::QuoteTab) {
        assert(!regex_accepts(quote_table()[6].0));
        return None;
    }
    if !add_pattern(&mut pats, r"^\\n", PatName::QuoteEscNewLine) {
        assert(!regex_accepts(quote_table()[7].0));
        return None;
    }
    if !add_pattern(&mut pats, r"^\\f", PatName::QuoteFormFeed) {
        assert(!regex_accepts(quote_table()[8].0));
        return None;
    }
    if !add_pattern(&mut pats, r"^\\.", PatName::QuoteEscChar) {
        assert(!regex_accepts(quote_table()[9].0));
        return None;
    }
    if !add_pattern(&mut pats, r"^\n", PatName::QuoteNewLine) {
        assert(!regex_accepts(quote_table()[10].0));
        return None;
    }
    Some(pats)
}

/// Every name of the table for a string constant is tried in that state.
pub proof fn lemma_quote_names()
    ensures
        names_of(quote_table(), State::Quote),
{
}

} // verus!
