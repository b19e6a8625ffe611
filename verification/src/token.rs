//! The tokens of the language.

use vstd::prelude::*;

verus! {

/// A token, with the line on which it stands.
#[derive(Debug)]
#[allow(inconsistent_fields)]
pub enum Token {
    /// `+`.
    Add { line_no: i16 },
    /// `/`.
    Div { line_no: i16 },
    /// `-`.
    Sub { line_no: i16 },
    /// `*`.
    Mul { line_no: i16 },
    /// `=`.
    Eq { line_no: i16 },
    /// `<`.
    LT { line_no: i16 },
    /// `.`.
    Dot { line_no: i16 },
    /// `~`.
    Neg { line_no: i16 },
    /// `,`.
    Comma { line_no: i16 },
    /// `;`.
    SemiColon { line_no: i16 },
    /// `:`.
    Colon { line_no: i16 },
    /// `(`.
    OpenParen { line_no: i16 },
    /// `)`.
    CloseParen { line_no: i16 },
    /// `@`.
    At { line_no: i16 },
    /// `{`.
    OpenBrace { line_no: i16 },
    /// `}`.
    CloseBrace { line_no: i16 },
    Class { line_no: i16 },
    Else { line_no: i16 },
    Fi { line_no: i16 },
    If { line_no: i16 },
    In { line_no: i16 },
    Inherits { line_no: i16 },
    Let { line_no: i16 },
    Loop { line_no: i16 },
    Pool { line_no: i16 },
    Then { line_no: i16 },
    While { line_no: i16 },
    Case { line_no: i16 },
    Esac { line_no: i16 },
    Of { line_no: i16 },
    New { line_no: i16 },
    IsVoid { line_no: i16 },
    Not { line_no: i16 },
    /// `=>`.
    DArrow { line_no: i16 },
    /// `<=`.
    LEq { line_no: i16 },
    /// `<-`.
    Assign { line_no: i16 },
    BoolConst { line_no: i16, val: bool },
    IntConst { line_no: i16, val: u32 },
    StrConst { line_no: i16, val: String },
    TypeID { line_no: i16, name: String },
    ObjectID { line_no: i16, obj_name: String },
    /// The end of the input.
    End { line_no: i16 },
}

/// What a token holds: the token itself, with each text as a sequence of
/// characters.
#[allow(inconsistent_fields)]
pub enum TokenView {
    Add { line_no: i16 },
    Div { line_no: i16 },
    Sub { line_no: i16 },
    Mul { line_no: i16 },
    Eq { line_no: i16 },
    LT { line_no: i16 },
    Dot { line_no: i16 },
    Neg { line_no: i16 },
    Comma { line_no: i16 },
    SemiColon { line_no: i16 },
    Colon { line_no: i16 },
    OpenParen { line_no: i16 },
    CloseParen { line_no: i16 },
    At { line_no: i16 },
    OpenBrace { line_no: i16 },
    CloseBrace { line_no: i16 },
    Class { line_no: i16 },
    Else { line_no: i16 },
    Fi { line_no: i16 },
    If { line_no: i16 },
    In { line_no: i16 },
    Inherits { line_no: i16 },
    Let { line_no: i16 },
    Loop { line_no: i16 },
    Pool { line_no: i16 },
    Then { line_no: i16 },
    While { line_no: i16 },
    Case { line_no: i16 },
    Esac { line_no: i16 },
    Of { line_no: i16 },
    New { line_no: i16 },
    IsVoid { line_no: i16 },
    Not { line_no: i16 },
    DArrow { line_no: i16 },
    LEq { line_no: i16 },
    Assign { line_no: i16 },
    BoolConst { line_no: i16, val: bool },
    IntConst { line_no: i16, val: u32 },
    StrConst { line_no: i16, val: Seq<char> },
    TypeID { line_no: i16, name: Seq<char> },
    ObjectID { line_no: i16, obj_name: Seq<char> },
    End { line_no: i16 },
}

impl View for Token {
    type V = TokenView;

    open spec fn view(&self) -> TokenView {
        match self {
            Token::Add { line_no } => TokenView::Add { line_no: *line_no },
            Token::Div { line_no } => TokenView::Div { line_no: *line_no },
            Token::Sub { line_no } => TokenView::Sub { line_no: *line_no },
            Token::Mul { line_no } => TokenView::Mul { line_no: *line_no },
            Token::Eq { line_no } => TokenView::Eq { line_no: *line_no },
            Token::LT { line_no } => TokenView::LT { line_no: *line_no },
            Token::Dot { line_no } => TokenView::Dot { line_no: *line_no },
            Token::Neg { line_no } => TokenView::Neg { line_no: *line_no },
            Token::Comma { line_no } => TokenView::Comma { line_no: *line_no },
            Token::SemiColon { line_no } => TokenView::SemiColon { line_no: *line_no },
            Token::Colon { line_no } => TokenView::Colon { line_no: *line_no },
            Token::OpenParen { line_no } => TokenView::OpenParen { line_no: *line_no },
            Token::CloseParen { line_no } => TokenView::CloseParen { line_no: *line_no },
            Token::At { line_no } => TokenView::At { line_no: *line_no },
            Token::OpenBrace { line_no } => TokenView::OpenBrace { line_no: *line_no },
            Token::CloseBrace { line_no } => TokenView::CloseBrace { line_no: *line_no },
            Token::Class { line_no } => TokenView::Class { line_no: *line_no },
            Token::Else { line_no } => TokenView::Else { line_no: *line_no },
            Token::Fi { line_no } => TokenView::Fi { line_no: *line_no },
            Token::If { line_no } => TokenView::If { line_no: *line_no },
            Token::In { line_no } => TokenView::In { line_no: *line_no },
            Token::Inherits { line_no } => TokenView::Inherits { line_no: *line_no },
            Token::Let { line_no } => TokenView::Let { line_no: *line_no },
            Token::Loop { line_no } => TokenView::Loop { line_no: *line_no },
            Token::Pool { line_no } => TokenView::Pool { line_no: *line_no },
            Token::Then { line_no } => TokenView::Then { line_no: *line_no },
            Token::While { line_no } => TokenView::While { line_no: *line_no },
            Token::Case { line_no } => TokenView::Case { line_no: *line_no },
            Token::Esac { line_no } => TokenView::Esac { line_no: *line_no },
            Token::Of { line_no } => TokenView::Of { line_no: *line_no },
            Token::New { line_no } => TokenView::New { line_no: *line_no },
            Token::IsVoid { line_no } => TokenView::IsVoid { line_no: *line_no },
            Token::Not { line_no } => TokenView::Not { line_no: *line_no },
            Token::DArrow { line_no } => TokenView::DArrow { line_no: *line_no },
            Token::LEq { line_no } => TokenView::LEq { line_no: *line_no },
            Token::Assign { line_no } => TokenView::Assign { line_no: *line_no },
            Token::BoolConst { line_no, val } => TokenView::BoolConst { line_no: *line_no, val: *val },
            Token::IntConst { line_no, val } => TokenView::IntConst { line_no: *line_no, val: *val },
            Token::StrConst { line_no, val } => TokenView::StrConst { line_no: *line_no, val: val@ },
            Token::TypeID { line_no, name } => TokenView::TypeID { line_no: *line_no, name: name@ },
            Token::ObjectID { line_no, obj_name } => TokenView::ObjectID { line_no: *line_no, obj_name: obj_name@ },
            Token::End { line_no } => TokenView::End { line_no: *line_no },
        }
    }
}

impl Token {
    /// The line on which the token stands.
    pub open spec fn spec_line_no(&self) -> i16 {
        match self {
            Token::Add { line_no, .. } => *line_no,
            Token::Div { line_no, .. } => *line_no,
            Token::Sub { line_no, .. } => *line_no,
            Token::Mul { line_no, .. } => *line_no,
            Token::Eq { line_no, .. } => *line_no,
            Token::LT { line_no, .. } => *line_no,
            Token::Dot { line_no, .. } => *line_no,
            Token::Neg { line_no, .. } => *line_no,
            Token::Comma { line_no, .. } => *line_no,
            Token::SemiColon { line_no, .. } => *line_no,
            Token::Colon { line_no, .. } => *line_no,
            Token::OpenParen { line_no, .. } => *line_no,
            Token::CloseParen { line_no, .. } => *line_no,
            Token::At { line_no, .. } => *line_no,
            Token::OpenBrace { line_no, .. } => *line_no,
            Token::CloseBrace { line_no, .. } => *line_no,
            Token::Class { line_no, .. } => *line_no,
            Token::Else { line_no, .. } => *line_no,
            Token::Fi { line_no, .. } => *line_no,
            Token::If { line_no, .. } => *line_no,
            Token::In { line_no, .. } => *line_no,
            Token::Inherits { line_no, .. } => *line_no,
            Token::Let { line_no, .. } => *line_no,
            Token::Loop { line_no, .. } => *line_no,
            Token::Pool { line_no, .. } => *line_no,
            Token::Then { line_no, .. } => *line_no,
            Token::While { line_no, .. } => *line_no,
            Token::Case { line_no, .. } => *line_no,
            Token::Esac { line_no, .. } => *line_no,
            Token::Of { line_no, .. } => *line_no,
            Token::New { line_no, .. } => *line_no,
            Token::IsVoid { line_no, .. } => *line_no,
            Token::Not { line_no, .. } => *line_no,
            Token::DArrow { line_no, .. } => *line_no,
            Token::LEq { line_no, .. } => *line_no,
            Token::Assign { line_no, .. } => *line_no,
            Token::BoolConst { line_no, .. } => *line_no,
            Token::IntConst { line_no, .. } => *line_no,
            Token::StrConst { line_no, .. } => *line_no,
            Token::TypeID { line_no, .. } => *line_no,
            Token::ObjectID { line_no, .. } => *line_no,
            Token::End { line_no, .. } => *line_no,
        }
    }

    /// The line on which the token stands.
    pub fn get_line_no(&self) -> (r: i16)
        ensures
            r == self.spec_line_no(),
    {
        match self {
            Token::Add { line_no, .. } => *line_no,
            Token::Div { line_no, .. } => *line_no,
            Token::Sub { line_no, .. } => *line_no,
            Token::Mul { line_no, .. } => *line_no,
            Token::Eq { line_no, .. } => *line_no,
            Token::LT { line_no, .. } => *line_no,
            Token::Dot { line_no, .. } => *line_no,
            Token::Neg { line_no, .. } => *line_no,
            Token::Comma { line_no, .. } => *line_no,
            Token::SemiColon { line_no, .. } => *line_no,
            Token::Colon { line_no, .. } => *line_no,
            Token::OpenParen { line_no, .. } => *line_no,
            Token::CloseParen { line_no, .. } => *line_no,
            Token::At { line_no, .. } => *line_no,
            Token::OpenBrace { line_no, .. } => *line_no,
            Token::CloseBrace { line_no, .. } => *line_no,
            Token::Class { line_no, .. } => *line_no,
            Token::Else { line_no, .. } => *line_no,
            Token::Fi { line_no, .. } => *line_no,
            Token::If { line_no, .. } => *line_no,
            Token::In { line_no, .. } => *line_no,
            Token::Inherits { line_no, .. } => *line_no,
            Token::Let { line_no, .. } => *line_no,
            Token::Loop { line_no, .. } => *line_no,
            Token::Pool { line_no, .. } => *line_no,
            Token::Then { line_no, .. } => *line_no,
            Token::While { line_no, .. } => *line_no,
            Token::Case { line_no, .. } => *line_no,
            Token::Esac { line_no, .. } => *line_no,
            Token::Of { line_no, .. } => *line_no,
            Token::New { line_no, .. } => *line_no,
            Token::IsVoid { line_no, .. } => *line_no,
            Token::Not { line_no, .. } => *line_no,
            Token::DArrow { line_no, .. } => *line_no,
            Token::LEq { line_no, .. } => *line_no,
            Token::Assign { line_no, .. } => *line_no,
            Token::BoolConst { line_no, .. } => *line_no,
            Token::IntConst { line_no, .. } => *line_no,
            Token::StrConst { line_no, .. } => *line_no,
            Token::TypeID { line_no, .. } => *line_no,
            Token::ObjectID { line_no, .. } => *line_no,
            Token::End { line_no, .. } => *line_no,
        }
    }
}

} // verus!
