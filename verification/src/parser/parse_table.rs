//! The tables of the shift-reduce parser: the states, the actions, and
//! the state that follows a reduction.

use crate::token::Token;
use vstd::prelude::*;

verus! {

/// A state of the parser.
#[derive(Clone, Copy, Debug, PartialEq, Eq, Structural)]
pub enum State {
    /// The state in which the parser starts.
    StateInitial,
    State001,
    State002,
    State003,
    State004,
    State005,
    State006,
    State007,
    State008,
    State009,
    State010,
    State011,
    State012,
    State013,
    State014,
    State015,
    State016,
    State017,
    State018,
    State019,
    State020,
    State021,
    State022,
    State023,
    State024,
    State025,
    State026,
    State027,
    State028,
    State029,
    State030,
    State031,
    State032,
    State033,
    State034,
    State035,
    State036,
    State037,
    State038,
    State039,
    State040,
    State041,
    State042,
    State043,
    State044,
    State045,
    State046,
    State047,
    State048,
    State049,
    State050,
    State051,
    State052,
    State053,
    State054,
    State055,
    State056,
    State057,
    State058,
    State059,
    State060,
    State061,
    State062,
    State063,
    State064,
    State065,
    State066,
    State067,
    State068,
    State069,
    State070,
    State071,
    State072,
    State073,
    State074,
    State075,
    State076,
    State077,
    State078,
    State079,
    State080,
    State081,
    State082,
    State083,
    State084,
    State085,
    State086,
    State087,
    State088,
    State089,
    State090,
    State091,
    State092,
    State093,
    State094,
    State095,
    State096,
    State097,
    State098,
    State099,
    State100,
    State101,
    State102,
    State103,
    State104,
    State105,
    State106,
    State107,
    State108,
    State109,
    State110,
    State111,
    State112,
    State113,
    State114,
    State115,
    State116,
    State117,
    State118,
    State119,
    State120,
    State121,
    State122,
    State123,
    State124,
    State125,
    State126,
    State127,
    State128,
    State129,
    State130,
    State131,
    State132,
    State133,
    State134,
    State135,
}

/// The three forms of a dispatch.
#[derive(Clone, Copy, Debug, PartialEq, Eq, Structural)]
pub enum DispatchType {
    OnSelf,
    OnExpr,
    Static,
}

/// What the parser does next.
#[derive(Clone, Copy, Debug, PartialEq, Eq, Structural)]
pub enum Action {
    Shift { new_state: State },
    ReduceClassList { is_empty: bool },
    ReduceClass { has_parent: bool },
    ReduceFeatureList { is_empty: bool },
    ReduceMethod,
    ReduceAttr { has_init: bool },
    ReduceFormalListNE { is_empty: bool },
    ReduceFormalList { is_empty: bool },
    ReduceFormal,
    ReduceBranchList { is_empty: bool },
    ReduceBranch,
    ReduceExprListSC { is_empty: bool },
    ReduceExprListCNE { is_empty: bool },
    ReduceExprListC { is_empty: bool },
    ReduceExprLet { has_init: bool },
    ReduceAssign,
    ReduceDispatch { dispatch_type: DispatchType },
    ReduceCond,
    ReduceWhile,
    ReduceBlock,
    ReduceLet,
    ReduceTypeCase,
    ReduceNew,
    ReduceIsVoid,
    ReduceArith,
    ReduceNeg,
    ReduceComp,
    ReduceEq,
    ReduceNot,
    ReduceParen,
    ReduceVarByName,
    ReduceIntConst,
    ReduceStrConst,
    ReduceBoolConst,
    Accept,
}

/// What the parser does in a state when it meets a token: a shift, a
/// reduction, or the end; or the line of the token, where the token cannot
/// follow.
pub open spec fn action_for(top_state: State, next_token: &Token) -> Result<Action, i16> {
    let next_line_no = next_token.spec_line_no();
    match top_state {
        State::StateInitial => match next_token {
            Token::Class { .. } => Ok(Action::Shift {
                new_state: State::State001,
            }),
            _ => Err(next_line_no)
        },
        State::State001 => match next_token {
            Token::TypeID { .. } => Ok(Action::Shift {
                new_state: State::State004,
            }),
            _ => Err(next_line_no)
        },
        State::State002 => match next_token {
            Token::Class { .. } => Ok(Action::Shift {
                new_state: State::State001,
            }),
            Token::End { .. } => Ok(Action::Accept),
            _ => Err(next_line_no)
        },
        State::State003 => match next_token {
            Token::SemiColon { .. } => Ok(Action::Shift {
                new_state: State::State006,
            }),
            _ => Err(next_line_no)
        },
        State::State004 => match next_token {
            Token::Inherits { .. } => Ok(Action::Shift {
                new_state: State::State007,
            }),
            Token::OpenBrace { .. } => Ok(Action::Shift {
                new_state: State::State008,
            }),
            _ => Err(next_line_no)
        },
        State::State005 => match next_token {
            Token::SemiColon { .. } => Ok(Action::Shift {
                new_state: State::State009,
            }),
            _ => Err(next_line_no)
        },
        State::State006 => Ok(Action::ReduceClassList { is_empty: true }),
        State::State007 => match next_token {
            Token::TypeID { .. } => Ok(Action::Shift {
                new_state: State::State010,
            }),
            _ => Err(next_line_no)
        },
        State::State008 => match next_token {
            Token::ObjectID { .. } => Ok(Action::ReduceFeatureList { is_empty: true }),
            Token::CloseBrace { .. } => Ok(Action::ReduceFeatureList { is_empty: true }),
            _ => Err(next_line_no)
        },
        State::State009 => Ok(Action::ReduceClassList { is_empty: false }),
        State::State010 => match next_token {
            Token::OpenBrace { .. } => Ok(Action::Shift {
                new_state: State::State012,
            }),
            _ => Err(next_line_no)
        },
        State::State011 => match next_token {
            Token::ObjectID { .. } => Ok(Action::Shift {
                new_state: State::State013,
            }),
            Token::CloseBrace { .. } => Ok(Action::Shift {
                new_state: State::State014,
            }),
            _ => Err(next_line_no)
        },
        State::State012 => match next_token {
            Token::ObjectID { .. } => Ok(Action::ReduceFeatureList { is_empty: true }),
            Token::CloseBrace { .. } => Ok(Action::ReduceFeatureList { is_empty: true }),
            _ => Err(next_line_no)
        },
        State::State013 => match next_token {
            Token::OpenParen { .. } => Ok(Action::Shift {
                new_state: State::State017,
            }),
            Token::Colon { .. } => Ok(Action::Shift {
                new_state: State::State018,
            }),
            _ => Err(next_line_no)
        },
        State::State014 => Ok(Action::ReduceClass { has_parent: false }),
        State::State015 => match next_token {
            Token::SemiColon { .. } => Ok(Action::Shift {
                new_state: State::State019,
            }),
            _ => Err(next_line_no)
        },
        State::State016 => match next_token {
            Token::ObjectID { .. } => Ok(Action::Shift {
                new_state: State::State013,
            }),
            Token::CloseBrace { .. } => Ok(Action::Shift {
                new_state: State::State020,
            }),
            _ => Err(next_line_no)
        },
        State::State017 => match next_token {
            Token::ObjectID { .. } => Ok(Action::Shift {
                new_state: State::State021,
            }),
            _ => Ok(Action::ReduceFormalList { is_empty: true }),
        },
        State::State018 => match next_token {
            Token::TypeID { .. } => Ok(Action::Shift {
                new_state: State::State025,
            }),
            _ => Err(next_line_no)
        },
        State::State019 => Ok(Action::ReduceFeatureList { is_empty: false }),
        State::State020 => Ok(Action::ReduceClass { has_parent: true }),
        State::State021 => match next_token {
            Token::Colon { .. } => Ok(Action::Shift {
                new_state: State::State026,
            }),
            _ => Err(next_line_no)
        },
        State::State022 => match next_token {
            Token::Comma { .. } => Ok(Action::Shift {
                new_state: State::State027,
            }),
            _ => Ok(Action::ReduceFormalList { is_empty: false }),
        },
        State::State023 => match next_token {
            Token::CloseParen { .. } => Ok(Action::Shift {
                new_state: State::State028,
            }),
            _ => Err(next_line_no)
        },
        State::State024 => Ok(Action::ReduceFormalListNE { is_empty: true }),
        State::State025 => match next_token {
            Token::Assign { .. } => Ok(Action::Shift {
                new_state: State::State029,
            }),
            _ => Ok(Action::ReduceAttr { has_init: false }),
        },
        State::State026 => match next_token {
            Token::TypeID { .. } => Ok(Action::Shift {
                new_state: State::State030,
            }),
            _ => Err(next_line_no)
        },
        State::State027 => match next_token {
            Token::ObjectID { .. } => Ok(Action::Shift {
                new_state: State::State021,
            }),
            _ => Err(next_line_no)
        },
        State::State028 => match next_token {
            Token::Colon { .. } => Ok(Action::Shift {
                new_state: State::State032,
            }),
            _ => Err(next_line_no)
        },
        State::State029 => match next_token {
            Token::If { .. } => Ok(Action::Shift {
                new_state: State::State033,
            }),
            Token::Let { .. } => Ok(Action::Shift {
                new_state: State::State034,
            }),
            Token::While { .. } => Ok(Action::Shift {
                new_state: State::State035,
            }),
            Token::Case { .. } => Ok(Action::Shift {
                new_state: State::State036,
            }),
            Token::New { .. } => Ok(Action::Shift {
                new_state: State::State037,
            }),
            Token::IsVoid { .. } => Ok(Action::Shift {
                new_state: State::State038,
            }),
            Token::StrConst { .. } => Ok(Action::Shift {
                new_state: State::State039,
            }),
            Token::IntConst { .. } => Ok(Action::Shift {
                new_state: State::State040,
            }),
            Token::BoolConst { .. } => Ok(Action::Shift {
                new_state: State::State041,
            }),
            Token::ObjectID { .. } => Ok(Action::Shift {
                new_state: State::State042,
            }),
            Token::Not { .. } => Ok(Action::Shift {
                new_state: State::State043,
            }),
            Token::Neg { .. } => Ok(Action::Shift {
                new_state: State::State044,
            }),
            Token::OpenBrace { .. } => Ok(Action::Shift {
                new_state: State::State045,
            }),
            Token::OpenParen { .. } => Ok(Action::Shift {
                new_state: State::State046,
            }),
            _ => Err(next_line_no)
        },
        State::State030 => Ok(Action::ReduceFormal),
        State::State031 => Ok(Action::ReduceFormalListNE { is_empty: false }),
        State::State032 => match next_token {
            Token::TypeID { .. } => Ok(Action::Shift {
                new_state: State::State048,
            }),
            _ => Err(next_line_no)
        },
        State::State033 => match next_token {
            Token::If { .. } => Ok(Action::Shift {
                new_state: State::State033,
            }),
            Token::Let { .. } => Ok(Action::Shift {
                new_state: State::State034,
            }),
            Token::While { .. } => Ok(Action::Shift {
                new_state: State::State035,
            }),
            Token::Case { .. } => Ok(Action::Shift {
                new_state: State::State036,
            }),
            Token::New { .. } => Ok(Action::Shift {
                new_state: State::State037,
            }),
            Token::IsVoid { .. } => Ok(Action::Shift {
                new_state: State::State038,
            }),
            Token::StrConst { .. } => Ok(Action::Shift {
                new_state: State::State039,
            }),
            Token::IntConst { .. } => Ok(Action::Shift {
                new_state: State::State040,
            }),
            Token::BoolConst { .. } => Ok(Action::Shift {
                new_state: State::State041,
            }),
            Token::ObjectID { .. } => Ok(Action::Shift {
                new_state: State::State042,
            }),
            Token::Not { .. } => Ok(Action::Shift {
                new_state: State::State043,
            }),
            Token::Neg { .. } => Ok(Action::Shift {
                new_state: State::State044,
            }),
            Token::OpenBrace { .. } => Ok(Action::Shift {
                new_state: State::State045,
            }),
            Token::OpenParen { .. } => Ok(Action::Shift {
                new_state: State::State046,
            }),
            _ => Err(next_line_no)
        },
        State::State034 => match next_token {
            Token::ObjectID { .. } => Ok(Action::Shift {
                new_state: State::State050,
            }),
            _ => Err(next_line_no)
        },
        State::State035 => match next_token {
            Token::If { .. } => Ok(Action::Shift {
                new_state: State::State033,
            }),
            Token::Let { .. } => Ok(Action::Shift {
                new_state: State::State034,
            }),
            Token::While { .. } => Ok(Action::Shift {
                new_state: State::State035,
            }),
            Token::Case { .. } => Ok(Action::Shift {
                new_state: State::State036,
            }),
            Token::New { .. } => Ok(Action::Shift {
                new_state: State::State037,
            }),
            Token::IsVoid { .. } => Ok(Action::Shift {
                new_state: State::State038,
            }),
            Token::StrConst { .. } => Ok(Action::Shift {
                new_state: State::State039,
            }),
            Token::IntConst { .. } => Ok(Action::Shift {
                new_state: State::State040,
            }),
            Token::BoolConst { .. } => Ok(Action::Shift {
                new_state: State::State041,
            }),
            Token::ObjectID { .. } => Ok(Action::Shift {
                new_state: State::State042,
            }),
            Token::Not { .. } => Ok(Action::Shift {
                new_state: State::State043,
            }),
            Token::Neg { .. } => Ok(Action::Shift {
                new_state: State::State044,
            }),
            Token::OpenBrace { .. } => Ok(Action::Shift {
                new_state: State::State045,
            }),
            Token::OpenParen { .. } => Ok(Action::Shift {
                new_state: State::State046,
            }),
            _ => Err(next_line_no)
        },
        State::State036 => match next_token {
            Token::If { .. } => Ok(Action::Shift {
                new_state: State::State033,
            }),
            Token::Let { .. } => Ok(Action::Shift {
                new_state: State::State034,
            }),
            Token::While { .. } => Ok(Action::Shift {
                new_state: State::State035,
            }),
            Token::Case { .. } => Ok(Action::Shift {
                new_state: State::State036,
            }),
            Token::New { .. } => Ok(Action::Shift {
                new_state: State::State037,
            }),
            Token::IsVoid { .. } => Ok(Action::Shift {
                new_state: State::State038,
            }),
            Token::StrConst { .. } => Ok(Action::Shift {
                new_state: State::State039,
            }),
            Token::IntConst { .. } => Ok(Action::Shift {
                new_state: State::State040,
            }),
            Token::BoolConst { .. } => Ok(Action::Shift {
                new_state: State::State041,
            }),
            Token::ObjectID { .. } => Ok(Action::Shift {
                new_state: State::State042,
            }),
            Token::Not { .. } => Ok(Action::Shift {
                new_state: State::State043,
            }),
            Token::Neg { .. } => Ok(Action::Shift {
                new_state: State::State044,
            }),
            Token::OpenBrace { .. } => Ok(Action::Shift {
                new_state: State::State045,
            }),
            Token::OpenParen { .. } => Ok(Action::Shift {
                new_state: State::State046,
            }),
            _ => Err(next_line_no)
        },
        State::State037 => match next_token {
            Token::TypeID { .. } => Ok(Action::Shift {
                new_state: State::State054,
            }),
            _ => Err(next_line_no)
        },
        State::State038 => match next_token {
            Token::If { .. } => Ok(Action::Shift {
                new_state: State::State033,
            }),
            Token::Let { .. } => Ok(Action::Shift {
                new_state: State::State034,
            }),
            Token::While { .. } => Ok(Action::Shift {
                new_state: State::State035,
            }),
            Token::Case { .. } => Ok(Action::Shift {
                new_state: State::State036,
            }),
            Token::New { .. } => Ok(Action::Shift {
                new_state: State::State037,
            }),
            Token::IsVoid { .. } => Ok(Action::Shift {
                new_state: State::State038,
            }),
            Token::StrConst { .. } => Ok(Action::Shift {
                new_state: State::State039,
            }),
            Token::IntConst { .. } => Ok(Action::Shift {
                new_state: State::State040,
            }),
            Token::BoolConst { .. } => Ok(Action::Shift {
                new_state: State::State041,
            }),
            Token::ObjectID { .. } => Ok(Action::Shift {
                new_state: State::State042,
            }),
            Token::Not { .. } => Ok(Action::Shift {
                new_state: State::State043,
            }),
            Token::Neg { .. } => Ok(Action::Shift {
                new_state: State::State044,
            }),
            Token::OpenBrace { .. } => Ok(Action::Shift {
                new_state: State::State045,
            }),
            Token::OpenParen { .. } => Ok(Action::Shift {
                new_state: State::State046,
            }),
            _ => Err(next_line_no)
        },
        State::State039 => Ok(Action::ReduceStrConst),
        State::State040 => Ok(Action::ReduceIntConst),
        State::State041 => Ok(Action::ReduceBoolConst),
        State::State042 => match next_token {
            Token::Assign { .. } => Ok(Action::Shift {
                new_state: State::State056,
            }),
            Token::OpenParen { .. } => Ok(Action::Shift {
                new_state: State::State057,
            }),
            _ => Ok(Action::ReduceVarByName),
        },
        State::State043 => match next_token {
            Token::If { .. } => Ok(Action::Shift {
                new_state: State::State033,
            }),
            Token::Let { .. } => Ok(Action::Shift {
                new_state: State::State034,
            }),
            Token::While { .. } => Ok(Action::Shift {
                new_state: State::State035,
            }),
            Token::Case { .. } => Ok(Action::Shift {
                new_state: State::State036,
            }),
            Token::New { .. } => Ok(Action::Shift {
                new_state: State::State037,
            }),
            Token::IsVoid { .. } => Ok(Action::Shift {
                new_state: State::State038,
            }),
            Token::StrConst { .. } => Ok(Action::Shift {
                new_state: State::State039,
            }),
            Token::IntConst { .. } => Ok(Action::Shift {
                new_state: State::State040,
            }),
            Token::BoolConst { .. } => Ok(Action::Shift {
                new_state: State::State041,
            }),
            Token::ObjectID { .. } => Ok(Action::Shift {
                new_state: State::State042,
            }),
            Token::Not { .. } => Ok(Action::Shift {
                new_state: State::State043,
            }),
            Token::Neg { .. } => Ok(Action::Shift {
                new_state: State::State044,
            }),
            Token::OpenBrace { .. } => Ok(Action::Shift {
                new_state: State::State045,
            }),
            Token::OpenParen { .. } => Ok(Action::Shift {
                new_state: State::State046,
            }),
            _ => Err(next_line_no)
        },
        State::State044 => match next_token {
            Token::If { .. } => Ok(Action::Shift {
                new_state: State::State033,
            }),
            Token::Let { .. } => Ok(Action::Shift {
                new_state: State::State034,
            }),
            Token::While { .. } => Ok(Action::Shift {
                new_state: State::State035,
            }),
            Token::Case { .. } => Ok(Action::Shift {
                new_state: State::State036,
            }),
            Token::New { .. } => Ok(Action::Shift {
                new_state: State::State037,
            }),
            Token::IsVoid { .. } => Ok(Action::Shift {
                new_state: State::State038,
            }),
            Token::StrConst { .. } => Ok(Action::Shift {
                new_state: State::State039,
            }),
            Token::IntConst { .. } => Ok(Action::Shift {
                new_state: State::State040,
            }),
            Token::BoolConst { .. } => Ok(Action::Shift {
                new_state: State::State041,
            }),
            Token::ObjectID { .. } => Ok(Action::Shift {
                new_state: State::State042,
            }),
            Token::Not { .. } => Ok(Action::Shift {
                new_state: State::State043,
            }),
            Token::Neg { .. } => Ok(Action::Shift {
                new_state: State::State044,
            }),
            Token::OpenBrace { .. } => Ok(Action::Shift {
                new_state: State::State045,
            }),
            Token::OpenParen { .. } => Ok(Action::Shift {
                new_state: State::State046,
            }),
            _ => Err(next_line_no)
        },
        State::State045 => match next_token {
            Token::If { .. } => Ok(Action::Shift {
                new_state: State::State033,
            }),
            Token::Let { .. } => Ok(Action::Shift {
                new_state: State::State034,
            }),
            Token::While { .. } => Ok(Action::Shift {
                new_state: State::State035,
            }),
            Token::Case { .. } => Ok(Action::Shift {
                new_state: State::State036,
            }),
            Token::New { .. } => Ok(Action::Shift {
                new_state: State::State037,
            }),
            Token::IsVoid { .. } => Ok(Action::Shift {
                new_state: State::State038,
            }),
            Token::StrConst { .. } => Ok(Action::Shift {
                new_state: State::State039,
            }),
            Token::IntConst { .. } => Ok(Action::Shift {
                new_state: State::State040,
            }),
            Token::BoolConst { .. } => Ok(Action::Shift {
                new_state: State::State041,
            }),
            Token::ObjectID { .. } => Ok(Action::Shift {
                new_state: State::State042,
            }),
            Token::Not { .. } => Ok(Action::Shift {
                new_state: State::State043,
            }),
            Token::Neg { .. } => Ok(Action::Shift {
                new_state: State::State044,
            }),
            Token::OpenBrace { .. } => Ok(Action::Shift {
                new_state: State::State045,
            }),
            Token::OpenParen { .. } => Ok(Action::Shift {
                new_state: State::State046,
            }),
            _ => Err(next_line_no)
        },
        State::State046 => match next_token {
            Token::If { .. } => Ok(Action::Shift {
                new_state: State::State033,
            }),
            Token::Let { .. } => Ok(Action::Shift {
                new_state: State::State034,
            }),
            Token::While { .. } => Ok(Action::Shift {
                new_state: State::State035,
            }),
            Token::Case { .. } => Ok(Action::Shift {
                new_state: State::State036,
            }),
            Token::New { .. } => Ok(Action::Shift {
                new_state: State::State037,
            }),
            Token::IsVoid { .. } => Ok(Action::Shift {
                new_state: State::State038,
            }),
            Token::StrConst { .. } => Ok(Action::Shift {
                new_state: State::State039,
            }),
            Token::IntConst { .. } => Ok(Action::Shift {
                new_state: State::State040,
            }),
            Token::BoolConst { .. } => Ok(Action::Shift {
                new_state: State::State041,
            }),
            Token::ObjectID { .. } => Ok(Action::Shift {
                new_state: State::State042,
            }),
            Token::Not { .. } => Ok(Action::Shift {
                new_state: State::State043,
            }),
            Token::Neg { .. } => Ok(Action::Shift {
                new_state: State::State044,
            }),
            Token::OpenBrace { .. } => Ok(Action::Shift {
                new_state: State::State045,
            }),
            Token::OpenParen { .. } => Ok(Action::Shift {
                new_state: State::State046,
            }),
            _ => Err(next_line_no)
        },
        State::State047 => match next_token {
            Token::LEq { .. } => Ok(Action::Shift {
                new_state: State::State063,
            }),
            Token::LT { .. } => Ok(Action::Shift {
                new_state: State::State064,
            }),
            Token::Eq { .. } => Ok(Action::Shift {
                new_state: State::State065,
            }),
            Token::Add { .. } => Ok(Action::Shift {
                new_state: State::State066,
            }),
            Token::Sub { .. } => Ok(Action::Shift {
                new_state: State::State067,
            }),
            Token::Mul { .. } => Ok(Action::Shift {
                new_state: State::State068,
            }),
            Token::Div { .. } => Ok(Action::Shift {
                new_state: State::State069,
            }),
            Token::At { .. } => Ok(Action::Shift {
                new_state: State::State070,
            }),
            Token::Dot { .. } => Ok(Action::Shift {
                new_state: State::State071,
            }),
            _ => Ok(Action::ReduceAttr { has_init: true }),
        },
        State::State048 => match next_token {
            Token::OpenBrace { .. } => Ok(Action::Shift {
                new_state: State::State072,
            }),
            _ => Err(next_line_no)
        },
        State::State049 => match next_token {
            Token::Then { .. } => Ok(Action::Shift {
                new_state: State::State073,
            }),
            Token::LEq { .. } => Ok(Action::Shift {
                new_state: State::State063,
            }),
            Token::LT { .. } => Ok(Action::Shift {
                new_state: State::State064,
            }),
            Token::Eq { .. } => Ok(Action::Shift {
                new_state: State::State065,
            }),
            Token::Add { .. } => Ok(Action::Shift {
                new_state: State::State066,
            }),
            Token::Sub { .. } => Ok(Action::Shift {
                new_state: State::State067,
            }),
            Token::Mul { .. } => Ok(Action::Shift {
                new_state: State::State068,
            }),
            Token::Div { .. } => Ok(Action::Shift {
                new_state: State::State069,
            }),
            Token::At { .. } => Ok(Action::Shift {
                new_state: State::State070,
            }),
            Token::Dot { .. } => Ok(Action::Shift {
                new_state: State::State071,
            }),
            _ => Err(next_line_no)
        },
        State::State050 => match next_token {
            Token::Colon { .. } => Ok(Action::Shift {
                new_state: State::State074,
            }),
            _ => Err(next_line_no)
        },
        State::State051 => Ok(Action::ReduceLet),
        State::State052 => match next_token {
            Token::Loop { .. } => Ok(Action::Shift {
                new_state: State::State075,
            }),
            Token::LEq { .. } => Ok(Action::Shift {
                new_state: State::State063,
            }),
            Token::LT { .. } => Ok(Action::Shift {
                new_state: State::State064,
            }),
            Token::Eq { .. } => Ok(Action::Shift {
                new_state: State::State065,
            }),
            Token::Add { .. } => Ok(Action::Shift {
                new_state: State::State066,
            }),
            Token::Sub { .. } => Ok(Action::Shift {
                new_state: State::State067,
            }),
            Token::Mul { .. } => Ok(Action::Shift {
                new_state: State::State068,
            }),
            Token::Div { .. } => Ok(Action::Shift {
                new_state: State::State069,
            }),
            Token::At { .. } => Ok(Action::Shift {
                new_state: State::State070,
            }),
            Token::Dot { .. } => Ok(Action::Shift {
                new_state: State::State071,
            }),
            _ => Err(next_line_no)
        },
        State::State053 => match next_token {
            Token::Of { .. } => Ok(Action::Shift {
                new_state: State::State076,
            }),
            Token::LEq { .. } => Ok(Action::Shift {
                new_state: State::State063,
            }),
            Token::LT { .. } => Ok(Action::Shift {
                new_state: State::State064,
            }),
            Token::Eq { .. } => Ok(Action::Shift {
                new_state: State::State065,
            }),
            Token::Add { .. } => Ok(Action::Shift {
                new_state: State::State066,
            }),
            Token::Sub { .. } => Ok(Action::Shift {
                new_state: State::State067,
            }),
            Token::Mul { .. } => Ok(Action::Shift {
                new_state: State::State068,
            }),
            Token::Div { .. } => Ok(Action::Shift {
                new_state: State::State069,
            }),
            Token::At { .. } => Ok(Action::Shift {
                new_state: State::State070,
            }),
            Token::Dot { .. } => Ok(Action::Shift {
                new_state: State::State071,
            }),
            _ => Err(next_line_no)
        },
        State::State054 => Ok(Action::ReduceNew),
        State::State055 => match next_token {
            Token::At { .. } => Ok(Action::Shift {
                new_state: State::State070,
            }),
            Token::Dot { .. } => Ok(Action::Shift {
                new_state: State::State071,
            }),
            _ => Ok(Action::ReduceIsVoid),
        },
        State::State056 => match next_token {
            Token::If { .. } => Ok(Action::Shift {
                new_state: State::State033,
            }),
            Token::Let { .. } => Ok(Action::Shift {
                new_state: State::State034,
            }),
            Token::While { .. } => Ok(Action::Shift {
                new_state: State::State035,
            }),
            Token::Case { .. } => Ok(Action::Shift {
                new_state: State::State036,
            }),
            Token::New { .. } => Ok(Action::Shift {
                new_state: State::State037,
            }),
            Token::IsVoid { .. } => Ok(Action::Shift {
                new_state: State::State038,
            }),
            Token::StrConst { .. } => Ok(Action::Shift {
                new_state: State::State039,
            }),
            Token::IntConst { .. } => Ok(Action::Shift {
                new_state: State::State040,
            }),
            Token::BoolConst { .. } => Ok(Action::Shift {
                new_state: State::State041,
            }),
            Token::ObjectID { .. } => Ok(Action::Shift {
                new_state: State::State042,
            }),
            Token::Not { .. } => Ok(Action::Shift {
                new_state: State::State043,
            }),
            Token::Neg { .. } => Ok(Action::Shift {
                new_state: State::State044,
            }),
            Token::OpenBrace { .. } => Ok(Action::Shift {
                new_state: State::State045,
            }),
            Token::OpenParen { .. } => Ok(Action::Shift {
                new_state: State::State046,
            }),
            _ => Err(next_line_no)
        },
        State::State057 => match next_token {
            Token::If { .. } => Ok(Action::Shift {
                new_state: State::State033,
            }),
            Token::Let { .. } => Ok(Action::Shift {
                new_state: State::State034,
            }),
            Token::While { .. } => Ok(Action::Shift {
                new_state: State::State035,
            }),
            Token::Case { .. } => Ok(Action::Shift {
                new_state: State::State036,
            }),
            Token::New { .. } => Ok(Action::Shift {
                new_state: State::State037,
            }),
            Token::IsVoid { .. } => Ok(Action::Shift {
                new_state: State::State038,
            }),
            Token::StrConst { .. } => Ok(Action::Shift {
                new_state: State::State039,
            }),
            Token::IntConst { .. } => Ok(Action::Shift {
                new_state: State::State040,
            }),
            Token::BoolConst { .. } => Ok(Action::Shift {
                new_state: State::State041,
            }),
            Token::ObjectID { .. } => Ok(Action::Shift {
                new_state: State::State042,
            }),
            Token::Not { .. } => Ok(Action::Shift {
                new_state: State::State043,
            }),
            Token::Neg { .. } => Ok(Action::Shift {
                new_state: State::State044,
            }),
            Token::OpenBrace { .. } => Ok(Action::Shift {
                new_state: State::State045,
            }),
            Token::OpenParen { .. } => Ok(Action::Shift {
                new_state: State::State046,
            }),
            _ => Ok(Action::ReduceExprListC { is_empty: true }),
        },
        State::State058 => match next_token {
            Token::LEq { .. } => Ok(Action::Shift {
                new_state: State::State063,
            }),
            Token::LT { .. } => Ok(Action::Shift {
                new_state: State::State064,
            }),
            Token::Eq { .. } => Ok(Action::Shift {
                new_state: State::State065,
            }),
            Token::Add { .. } => Ok(Action::Shift {
                new_state: State::State066,
            }),
            Token::Sub { .. } => Ok(Action::Shift {
                new_state: State::State067,
            }),
            Token::Mul { .. } => Ok(Action::Shift {
                new_state: State::State068,
            }),
            Token::Div { .. } => Ok(Action::Shift {
                new_state: State::State069,
            }),
            Token::At { .. } => Ok(Action::Shift {
                new_state: State::State070,
            }),
            Token::Dot { .. } => Ok(Action::Shift {
                new_state: State::State071,
            }),
            _ => Ok(Action::ReduceNot),
        },
        State::State059 => match next_token {
            Token::At { .. } => Ok(Action::Shift {
                new_state: State::State070,
            }),
            Token::Dot { .. } => Ok(Action::Shift {
                new_state: State::State071,
            }),
            _ => Ok(Action::ReduceNeg),
        },
        State::State060 => match next_token {
            Token::If { .. } => Ok(Action::Shift {
                new_state: State::State033,
            }),
            Token::Let { .. } => Ok(Action::Shift {
                new_state: State::State034,
            }),
            Token::While { .. } => Ok(Action::Shift {
                new_state: State::State035,
            }),
            Token::Case { .. } => Ok(Action::Shift {
                new_state: State::State036,
            }),
            Token::New { .. } => Ok(Action::Shift {
                new_state: State::State037,
            }),
            Token::IsVoid { .. } => Ok(Action::Shift {
                new_state: State::State038,
            }),
            Token::StrConst { .. } => Ok(Action::Shift {
                new_state: State::State039,
            }),
            Token::IntConst { .. } => Ok(Action::Shift {
                new_state: State::State040,
            }),
            Token::BoolConst { .. } => Ok(Action::Shift {
                new_state: State::State041,
            }),
            Token::ObjectID { .. } => Ok(Action::Shift {
                new_state: State::State042,
            }),
            Token::Not { .. } => Ok(Action::Shift {
                new_state: State::State043,
            }),
            Token::Neg { .. } => Ok(Action::Shift {
                new_state: State::State044,
            }),
            Token::OpenBrace { .. } => Ok(Action::Shift {
                new_state: State::State045,
            }),
            Token::CloseBrace { .. } => Ok(Action::Shift {
                new_state: State::State081,
            }),
            Token::OpenParen { .. } => Ok(Action::Shift {
                new_state: State::State046,
            }),
            _ => Err(next_line_no)
        },
        State::State061 => match next_token {
            Token::LEq { .. } => Ok(Action::Shift {
                new_state: State::State063,
            }),
            Token::LT { .. } => Ok(Action::Shift {
                new_state: State::State064,
            }),
            Token::Eq { .. } => Ok(Action::Shift {
                new_state: State::State065,
            }),
            Token::Add { .. } => Ok(Action::Shift {
                new_state: State::State066,
            }),
            Token::Sub { .. } => Ok(Action::Shift {
                new_state: State::State067,
            }),
            Token::Mul { .. } => Ok(Action::Shift {
                new_state: State::State068,
            }),
            Token::Div { .. } => Ok(Action::Shift {
                new_state: State::State069,
            }),
            Token::At { .. } => Ok(Action::Shift {
                new_state: State::State070,
            }),
            Token::Dot { .. } => Ok(Action::Shift {
                new_state: State::State071,
            }),
            Token::SemiColon { .. } => Ok(Action::Shift {
                new_state: State::State083,
            }),
            _ => Err(next_line_no)
        },
        State::State062 => match next_token {
            Token::LEq { .. } => Ok(Action::Shift {
                new_state: State::State063,
            }),
            Token::LT { .. } => Ok(Action::Shift {
                new_state: State::State064,
            }),
            Token::Eq { .. } => Ok(Action::Shift {
                new_state: State::State065,
            }),
            Token::Add { .. } => Ok(Action::Shift {
                new_state: State::State066,
            }),
            Token::Sub { .. } => Ok(Action::Shift {
                new_state: State::State067,
            }),
            Token::Mul { .. } => Ok(Action::Shift {
                new_state: State::State068,
            }),
            Token::Div { .. } => Ok(Action::Shift {
                new_state: State::State069,
            }),
            Token::At { .. } => Ok(Action::Shift {
                new_state: State::State070,
            }),
            Token::Dot { .. } => Ok(Action::Shift {
                new_state: State::State071,
            }),
            Token::CloseParen { .. } => Ok(Action::Shift {
                new_state: State::State084,
            }),
            _ => Err(next_line_no)
        },
        State::State063 => match next_token {
            Token::If { .. } => Ok(Action::Shift {
                new_state: State::State033,
            }),
            Token::Let { .. } => Ok(Action::Shift {
                new_state: State::State034,
            }),
            Token::While { .. } => Ok(Action::Shift {
                new_state: State::State035,
            }),
            Token::Case { .. } => Ok(Action::Shift {
                new_state: State::State036,
            }),
            Token::New { .. } => Ok(Action::Shift {
                new_state: State::State037,
            }),
            Token::IsVoid { .. } => Ok(Action::Shift {
                new_state: State::State038,
            }),
            Token::StrConst { .. } => Ok(Action::Shift {
                new_state: State::State039,
            }),
            Token::IntConst { .. } => Ok(Action::Shift {
                new_state: State::State040,
            }),
            Token::BoolConst { .. } => Ok(Action::Shift {
                new_state: State::State041,
            }),
            Token::ObjectID { .. } => Ok(Action::Shift {
                new_state: State::State042,
            }),
            Token::Not { .. } => Ok(Action::Shift {
                new_state: State::State043,
            }),
            Token::Neg { .. } => Ok(Action::Shift {
                new_state: State::State044,
            }),
            Token::OpenBrace { .. } => Ok(Action::Shift {
                new_state: State::State045,
            }),
            Token::OpenParen { .. } => Ok(Action::Shift {
                new_state: State::State046,
            }),
            _ => Err(next_line_no)
        },
        State::State064 => match next_token {
            Token::If { .. } => Ok(Action::Shift {
                new_state: State::State033,
            }),
            Token::Let { .. } => Ok(Action::Shift {
                new_state: State::State034,
            }),
            Token::While { .. } => Ok(Action::Shift {
                new_state: State::State035,
            }),
            Token::Case { .. } => Ok(Action::Shift {
                new_state: State::State036,
            }),
            Token::New { .. } => Ok(Action::Shift {
                new_state: State::State037,
            }),
            Token::IsVoid { .. } => Ok(Action::Shift {
                new_state: State::State038,
            }),
            Token::StrConst { .. } => Ok(Action::Shift {
                new_state: State::State039,
            }),
            Token::IntConst { .. } => Ok(Action::Shift {
                new_state: State::State040,
            }),
            Token::BoolConst { .. } => Ok(Action::Shift {
                new_state: State::State041,
            }),
            Token::ObjectID { .. } => Ok(Action::Shift {
                new_state: State::State042,
            }),
            Token::Not { .. } => Ok(Action::Shift {
                new_state: State::State043,
            }),
            Token::Neg { .. } => Ok(Action::Shift {
                new_state: State::State044,
            }),
            Token::OpenBrace { .. } => Ok(Action::Shift {
                new_state: State::State045,
            }),
            Token::OpenParen { .. } => Ok(Action::Shift {
                new_state: State::State046,
            }),
            _ => Err(next_line_no)
        },
        State::State065 => match next_token {
            Token::If { .. } => Ok(Action::Shift {
                new_state: State::State033,
            }),
            Token::Let { .. } => Ok(Action::Shift {
                new_state: State::State034,
            }),
            Token::While { .. } => Ok(Action::Shift {
                new_state: State::State035,
            }),
            Token::Case { .. } => Ok(Action::Shift {
                new_state: State::State036,
            }),
            Token::New { .. } => Ok(Action::Shift {
                new_state: State::State037,
            }),
            Token::IsVoid { .. } => Ok(Action::Shift {
                new_state: State::State038,
            }),
            Token::StrConst { .. } => Ok(Action::Shift {
                new_state: State::State039,
            }),
            Token::IntConst { .. } => Ok(Action::Shift {
                new_state: State::State040,
            }),
            Token::BoolConst { .. } => Ok(Action::Shift {
                new_state: State::State041,
            }),
            Token::ObjectID { .. } => Ok(Action::Shift {
                new_state: State::State042,
            }),
            Token::Not { .. } => Ok(Action::Shift {
                new_state: State::State043,
            }),
            Token::Neg { .. } => Ok(Action::Shift {
                new_state: State::State044,
            }),
            Token::OpenBrace { .. } => Ok(Action::Shift {
                new_state: State::State045,
            }),
            Token::OpenParen { .. } => Ok(Action::Shift {
                new_state: State::State046,
            }),
            _ => Err(next_line_no)
        },
        State::State066 => match next_token {
            Token::If { .. } => Ok(Action::Shift {
                new_state: State::State033,
            }),
            Token::Let { .. } => Ok(Action::Shift {
                new_state: State::State034,
            }),
            Token::While { .. } => Ok(Action::Shift {
                new_state: State::State035,
            }),
            Token::Case { .. } => Ok(Action::Shift {
                new_state: State::State036,
            }),
            Token::New { .. } => Ok(Action::Shift {
                new_state: State::State037,
            }),
            Token::IsVoid { .. } => Ok(Action::Shift {
                new_state: State::State038,
            }),
            Token::StrConst { .. } => Ok(Action::Shift {
                new_state: State::State039,
            }),
            Token::IntConst { .. } => Ok(Action::Shift {
                new_state: State::State040,
            }),
            Token::BoolConst { .. } => Ok(Action::Shift {
                new_state: State::State041,
            }),
            Token::ObjectID { .. } => Ok(Action::Shift {
                new_state: State::State042,
            }),
            Token::Not { .. } => Ok(Action::Shift {
                new_state: State::State043,
            }),
            Token::Neg { .. } => Ok(Action::Shift {
                new_state: State::State044,
            }),
            Token::OpenBrace { .. } => Ok(Action::Shift {
                new_state: State::State045,
            }),
            Token::OpenParen { .. } => Ok(Action::Shift {
                new_state: State::State046,
            }),
            _ => Err(next_line_no)
        },
        State::State067 => match next_token {
            Token::If { .. } => Ok(Action::Shift {
                new_state: State::State033,
            }),
            Token::Let { .. } => Ok(Action::Shift {
                new_state: State::State034,
            }),
            Token::While { .. } => Ok(Action::Shift {
                new_state: State::State035,
            }),
            Token::Case { .. } => Ok(Action::Shift {
                new_state: State::State036,
            }),
            Token::New { .. } => Ok(Action::Shift {
                new_state: State::State037,
            }),
            Token::IsVoid { .. } => Ok(Action::Shift {
                new_state: State::State038,
            }),
            Token::StrConst { .. } => Ok(Action::Shift {
                new_state: State::State039,
            }),
            Token::IntConst { .. } => Ok(Action::Shift {
                new_state: State::State040,
            }),
            Token::BoolConst { .. } => Ok(Action::Shift {
                new_state: State::State041,
            }),
            Token::ObjectID { .. } => Ok(Action::Shift {
                new_state: State::State042,
            }),
            Token::Not { .. } => Ok(Action::Shift {
                new_state: State::State043,
            }),
            Token::Neg { .. } => Ok(Action::Shift {
                new_state: State::State044,
            }),
            Token::OpenBrace { .. } => Ok(Action::Shift {
                new_state: State::State045,
            }),
            Token::OpenParen { .. } => Ok(Action::Shift {
                new_state: State::State046,
            }),
            _ => Err(next_line_no)
        },
        State::State068 => match next_token {
            Token::If { .. } => Ok(Action::Shift {
                new_state: State::State033,
            }),
            Token::Let { .. } => Ok(Action::Shift {
                new_state: State::State034,
            }),
            Token::While { .. } => Ok(Action::Shift {
                new_state: State::State035,
            }),
            Token::Case { .. } => Ok(Action::Shift {
                new_state: State::State036,
            }),
            Token::New { .. } => Ok(Action::Shift {
                new_state: State::State037,
            }),
            Token::IsVoid { .. } => Ok(Action::Shift {
                new_state: State::State038,
            }),
            Token::StrConst { .. } => Ok(Action::Shift {
                new_state: State::State039,
            }),
            Token::IntConst { .. } => Ok(Action::Shift {
                new_state: State::State040,
            }),
            Token::BoolConst { .. } => Ok(Action::Shift {
                new_state: State::State041,
            }),
            Token::ObjectID { .. } => Ok(Action::Shift {
                new_state: State::State042,
            }),
            Token::Not { .. } => Ok(Action::Shift {
                new_state: State::State043,
            }),
            Token::Neg { .. } => Ok(Action::Shift {
                new_state: State::State044,
            }),
            Token::OpenBrace { .. } => Ok(Action::Shift {
                new_state: State::State045,
            }),
            Token::OpenParen { .. } => Ok(Action::Shift {
                new_state: State::State046,
            }),
            _ => Err(next_line_no)
        },
        State::State069 => match next_token {
            Token::If { .. } => Ok(Action::Shift {
                new_state: State::State033,
            }),
            Token::Let { .. } => Ok(Action::Shift {
                new_state: State::State034,
            }),
            Token::While { .. } => Ok(Action::Shift {
                new_state: State::State035,
            }),
            Token::Case { .. } => Ok(Action::Shift {
                new_state: State::State036,
            }),
            Token::New { .. } => Ok(Action::Shift {
                new_state: State::State037,
            }),
            Token::IsVoid { .. } => Ok(Action::Shift {
                new_state: State::State038,
            }),
            Token::StrConst { .. } => Ok(Action::Shift {
                new_state: State::State039,
            }),
            Token::IntConst { .. } => Ok(Action::Shift {
                new_state: State::State040,
            }),
            Token::BoolConst { .. } => Ok(Action::Shift {
                new_state: State::State041,
            }),
            Token::ObjectID { .. } => Ok(Action::Shift {
                new_state: State::State042,
            }),
            Token::Not { .. } => Ok(Action::Shift {
                new_state: State::State043,
            }),
            Token::Neg { .. } => Ok(Action::Shift {
                new_state: State::State044,
            }),
            Token::OpenBrace { .. } => Ok(Action::Shift {
                new_state: State::State045,
            }),
            Token::OpenParen { .. } => Ok(Action::Shift {
                new_state: State::State046,
            }),
            _ => Err(next_line_no)
        },
        State::State070 => match next_token {
            Token::TypeID { .. } => Ok(Action::Shift {
                new_state: State::State092,
            }),
            _ => Err(next_line_no)
        },
        State::State071 => match next_token {
            Token::ObjectID { .. } => Ok(Action::Shift {
                new_state: State::State093,
            }),
            _ => Err(next_line_no)
        },
        State::State072 => match next_token {
            Token::If { .. } => Ok(Action::Shift {
                new_state: State::State033,
            }),
            Token::Let { .. } => Ok(Action::Shift {
                new_state: State::State034,
            }),
            Token::While { .. } => Ok(Action::Shift {
                new_state: State::State035,
            }),
            Token::Case { .. } => Ok(Action::Shift {
                new_state: State::State036,
            }),
            Token::New { .. } => Ok(Action::Shift {
                new_state: State::State037,
            }),
            Token::IsVoid { .. } => Ok(Action::Shift {
                new_state: State::State038,
            }),
            Token::StrConst { .. } => Ok(Action::Shift {
                new_state: State::State039,
            }),
            Token::IntConst { .. } => Ok(Action::Shift {
                new_state: State::State040,
            }),
            Token::BoolConst { .. } => Ok(Action::Shift {
                new_state: State::State041,
            }),
            Token::ObjectID { .. } => Ok(Action::Shift {
                new_state: State::State042,
            }),
            Token::Not { .. } => Ok(Action::Shift {
                new_state: State::State043,
            }),
            Token::Neg { .. } => Ok(Action::Shift {
                new_state: State::State044,
            }),
            Token::OpenBrace { .. } => Ok(Action::Shift {
                new_state: State::State045,
            }),
            Token::OpenParen { .. } => Ok(Action::Shift {
                new_state: State::State046,
            }),
            _ => Err(next_line_no)
        },
        State::State073 => match next_token {
            Token::If { .. } => Ok(Action::Shift {
                new_state: State::State033,
            }),
            Token::Let { .. } => Ok(Action::Shift {
                new_state: State::State034,
            }),
            Token::While { .. } => Ok(Action::Shift {
                new_state: State::State035,
            }),
            Token::Case { .. } => Ok(Action::Shift {
                new_state: State::State036,
            }),
            Token::New { .. } => Ok(Action::Shift {
                new_state: State::State037,
            }),
            Token::IsVoid { .. } => Ok(Action::Shift {
                new_state: State::State038,
            }),
            Token::StrConst { .. } => Ok(Action::Shift {
                new_state: State::State039,
            }),
            Token::IntConst { .. } => Ok(Action::Shift {
                new_state: State::State040,
            }),
            Token::BoolConst { .. } => Ok(Action::Shift {
                new_state: State::State041,
            }),
            Token::ObjectID { .. } => Ok(Action::Shift {
                new_state: State::State042,
            }),
            Token::Not { .. } => Ok(Action::Shift {
                new_state: State::State043,
            }),
            Token::Neg { .. } => Ok(Action::Shift {
                new_state: State::State044,
            }),
            Token::OpenBrace { .. } => Ok(Action::Shift {
                new_state: State::State045,
            }),
            Token::OpenParen { .. } => Ok(Action::Shift {
                new_state: State::State046,
            }),
            _ => Err(next_line_no)
        },
        State::State074 => match next_token {
            Token::TypeID { .. } => Ok(Action::Shift {
                new_state: State::State096,
            }),
            _ => Err(next_line_no)
        },
        State::State075 => match next_token {
            Token::If { .. } => Ok(Action::Shift {
                new_state: State::State033,
            }),
            Token::Let { .. } => Ok(Action::Shift {
                new_state: State::State034,
            }),
            Token::While { .. } => Ok(Action::Shift {
                new_state: State::State035,
            }),
            Token::Case { .. } => Ok(Action::Shift {
                new_state: State::State036,
            }),
            Token::New { .. } => Ok(Action::Shift {
                new_state: State::State037,
            }),
            Token::IsVoid { .. } => Ok(Action::Shift {
                new_state: State::State038,
            }),
            Token::StrConst { .. } => Ok(Action::Shift {
                new_state: State::State039,
            }),
            Token::IntConst { .. } => Ok(Action::Shift {
                new_state: State::State040,
            }),
            Token::BoolConst { .. } => Ok(Action::Shift {
                new_state: State::State041,
            }),
            Token::ObjectID { .. } => Ok(Action::Shift {
                new_state: State::State042,
            }),
            Token::Not { .. } => Ok(Action::Shift {
                new_state: State::State043,
            }),
            Token::Neg { .. } => Ok(Action::Shift {
                new_state: State::State044,
            }),
            Token::OpenBrace { .. } => Ok(Action::Shift {
                new_state: State::State045,
            }),
            Token::OpenParen { .. } => Ok(Action::Shift {
                new_state: State::State046,
            }),
            _ => Err(next_line_no)
        },
        State::State076 => match next_token {
            Token::ObjectID { .. } => Ok(Action::Shift {
                new_state: State::State098,
            }),
            _ => Err(next_line_no)
        },
        State::State077 => match next_token {
            Token::LEq { .. } => Ok(Action::Shift {
                new_state: State::State063,
            }),
            Token::LT { .. } => Ok(Action::Shift {
                new_state: State::State064,
            }),
            Token::Eq { .. } => Ok(Action::Shift {
                new_state: State::State065,
            }),
            Token::Add { .. } => Ok(Action::Shift {
                new_state: State::State066,
            }),
            Token::Sub { .. } => Ok(Action::Shift {
                new_state: State::State067,
            }),
            Token::Mul { .. } => Ok(Action::Shift {
                new_state: State::State068,
            }),
            Token::Div { .. } => Ok(Action::Shift {
                new_state: State::State069,
            }),
            Token::At { .. } => Ok(Action::Shift {
                new_state: State::State070,
            }),
            Token::Dot { .. } => Ok(Action::Shift {
                new_state: State::State071,
            }),
            _ => Ok(Action::ReduceAssign),
        },
        State::State078 => match next_token {
            Token::Comma { .. } => Ok(Action::Shift {
                new_state: State::State101,
            }),
            _ => Ok(Action::ReduceExprListC { is_empty: false }),
        },
        State::State079 => match next_token {
            Token::CloseParen { .. } => Ok(Action::Shift {
                new_state: State::State102,
            }),
            _ => Err(next_line_no)
        },
        State::State080 => match next_token {
            Token::LEq { .. } => Ok(Action::Shift {
                new_state: State::State063,
            }),
            Token::LT { .. } => Ok(Action::Shift {
                new_state: State::State064,
            }),
            Token::Eq { .. } => Ok(Action::Shift {
                new_state: State::State065,
            }),
            Token::Add { .. } => Ok(Action::Shift {
                new_state: State::State066,
            }),
            Token::Sub { .. } => Ok(Action::Shift {
                new_state: State::State067,
            }),
            Token::Mul { .. } => Ok(Action::Shift {
                new_state: State::State068,
            }),
            Token::Div { .. } => Ok(Action::Shift {
                new_state: State::State069,
            }),
            Token::At { .. } => Ok(Action::Shift {
                new_state: State::State070,
            }),
            Token::Dot { .. } => Ok(Action::Shift {
                new_state: State::State071,
            }),
            _ => Ok(Action::ReduceExprListCNE { is_empty: true }),
        },
        State::State081 => Ok(Action::ReduceBlock),
        State::State082 => match next_token {
            Token::LEq { .. } => Ok(Action::Shift {
                new_state: State::State063,
            }),
            Token::LT { .. } => Ok(Action::Shift {
                new_state: State::State064,
            }),
            Token::Eq { .. } => Ok(Action::Shift {
                new_state: State::State065,
            }),
            Token::Add { .. } => Ok(Action::Shift {
                new_state: State::State066,
            }),
            Token::Sub { .. } => Ok(Action::Shift {
                new_state: State::State067,
            }),
            Token::Mul { .. } => Ok(Action::Shift {
                new_state: State::State068,
            }),
            Token::Div { .. } => Ok(Action::Shift {
                new_state: State::State069,
            }),
            Token::At { .. } => Ok(Action::Shift {
                new_state: State::State070,
            }),
            Token::Dot { .. } => Ok(Action::Shift {
                new_state: State::State071,
            }),
            Token::SemiColon { .. } => Ok(Action::Shift {
                new_state: State::State103,
            }),
            _ => Err(next_line_no)
        },
        State::State083 => Ok(Action::ReduceExprListSC { is_empty: true }),
        State::State084 => Ok(Action::ReduceParen),
        State::State085 => match next_token {
            Token::Add { .. } => Ok(Action::Shift {
                new_state: State::State066,
            }),
            Token::Sub { .. } => Ok(Action::Shift {
                new_state: State::State067,
            }),
            Token::Mul { .. } => Ok(Action::Shift {
                new_state: State::State068,
            }),
            Token::Div { .. } => Ok(Action::Shift {
                new_state: State::State069,
            }),
            Token::At { .. } => Ok(Action::Shift {
                new_state: State::State070,
            }),
            Token::Dot { .. } => Ok(Action::Shift {
                new_state: State::State071,
            }),
            _ => Ok(Action::ReduceComp),
        },
        State::State086 => match next_token {
            Token::Add { .. } => Ok(Action::Shift {
                new_state: State::State066,
            }),
            Token::Sub { .. } => Ok(Action::Shift {
                new_state: State::State067,
            }),
            Token::Mul { .. } => Ok(Action::Shift {
                new_state: State::State068,
            }),
            Token::Div { .. } => Ok(Action::Shift {
                new_state: State::State069,
            }),
            Token::At { .. } => Ok(Action::Shift {
                new_state: State::State070,
            }),
            Token::Dot { .. } => Ok(Action::Shift {
                new_state: State::State071,
            }),
            _ => Ok(Action::ReduceComp),
        },
        State::State087 => match next_token {
            Token::Add { .. } => Ok(Action::Shift {
                new_state: State::State066,
            }),
            Token::Sub { .. } => Ok(Action::Shift {
                new_state: State::State067,
            }),
            Token::Mul { .. } => Ok(Action::Shift {
                new_state: State::State068,
            }),
            Token::Div { .. } => Ok(Action::Shift {
                new_state: State::State069,
            }),
            Token::At { .. } => Ok(Action::Shift {
                new_state: State::State070,
            }),
            Token::Dot { .. } => Ok(Action::Shift {
                new_state: State::State071,
            }),
            _ => Ok(Action::ReduceEq),
        },
        State::State088 => match next_token {
            Token::Mul { .. } => Ok(Action::Shift {
                new_state: State::State068,
            }),
            Token::Div { .. } => Ok(Action::Shift {
                new_state: State::State069,
            }),
            Token::At { .. } => Ok(Action::Shift {
                new_state: State::State070,
            }),
            Token::Dot { .. } => Ok(Action::Shift {
                new_state: State::State071,
            }),
            _ => Ok(Action::ReduceArith),
        },
        State::State089 => match next_token {
            Token::Mul { .. } => Ok(Action::Shift {
                new_state: State::State068,
            }),
            Token::Div { .. } => Ok(Action::Shift {
                new_state: State::State069,
            }),
            Token::At { .. } => Ok(Action::Shift {
                new_state: State::State070,
            }),
            Token::Dot { .. } => Ok(Action::Shift {
                new_state: State::State071,
            }),
            _ => Ok(Action::ReduceArith),
        },
        State::State090 => match next_token {
            Token::At { .. } => Ok(Action::Shift {
                new_state: State::State070,
            }),
            Token::Dot { .. } => Ok(Action::Shift {
                new_state: State::State071,
            }),
            _ => Ok(Action::ReduceArith),
        },
        State::State091 => match next_token {
            Token::At { .. } => Ok(Action::Shift {
                new_state: State::State070,
            }),
            Token::Dot { .. } => Ok(Action::Shift {
                new_state: State::State071,
            }),
            _ => Ok(Action::ReduceArith),
        },
        State::State092 => match next_token {
            Token::Dot { .. } => Ok(Action::Shift {
                new_state: State::State104,
            }),
            _ => Err(next_line_no)
        },
        State::State093 => match next_token {
            Token::OpenParen { .. } => Ok(Action::Shift {
                new_state: State::State105,
            }),
            _ => Err(next_line_no)
        },
        State::State094 => match next_token {
            Token::LEq { .. } => Ok(Action::Shift {
                new_state: State::State063,
            }),
            Token::LT { .. } => Ok(Action::Shift {
                new_state: State::State064,
            }),
            Token::Eq { .. } => Ok(Action::Shift {
                new_state: State::State065,
            }),
            Token::Add { .. } => Ok(Action::Shift {
                new_state: State::State066,
            }),
            Token::Sub { .. } => Ok(Action::Shift {
                new_state: State::State067,
            }),
            Token::Mul { .. } => Ok(Action::Shift {
                new_state: State::State068,
            }),
            Token::Div { .. } => Ok(Action::Shift {
                new_state: State::State069,
            }),
            Token::At { .. } => Ok(Action::Shift {
                new_state: State::State070,
            }),
            Token::Dot { .. } => Ok(Action::Shift {
                new_state: State::State071,
            }),
            Token::CloseBrace { .. } => Ok(Action::Shift {
                new_state: State::State106,
            }),
            _ => Err(next_line_no)
        },
        State::State095 => match next_token {
            Token::Else { .. } => Ok(Action::Shift {
                new_state: State::State107,
            }),
            Token::LEq { .. } => Ok(Action::Shift {
                new_state: State::State063,
            }),
            Token::LT { .. } => Ok(Action::Shift {
                new_state: State::State064,
            }),
            Token::Eq { .. } => Ok(Action::Shift {
                new_state: State::State065,
            }),
            Token::Add { .. } => Ok(Action::Shift {
                new_state: State::State066,
            }),
            Token::Sub { .. } => Ok(Action::Shift {
                new_state: State::State067,
            }),
            Token::Mul { .. } => Ok(Action::Shift {
                new_state: State::State068,
            }),
            Token::Div { .. } => Ok(Action::Shift {
                new_state: State::State069,
            }),
            Token::At { .. } => Ok(Action::Shift {
                new_state: State::State070,
            }),
            Token::Dot { .. } => Ok(Action::Shift {
                new_state: State::State071,
            }),
            _ => Err(next_line_no)
        },
        State::State096 => match next_token {
            Token::In { .. } => Ok(Action::Shift {
                new_state: State::State108,
            }),
            Token::Assign { .. } => Ok(Action::Shift {
                new_state: State::State109,
            }),
            Token::Comma { .. } => Ok(Action::Shift {
                new_state: State::State110,
            }),
            _ => Err(next_line_no)
        },
        State::State097 => match next_token {
            Token::Pool { .. } => Ok(Action::Shift {
                new_state: State::State111,
            }),
            Token::LEq { .. } => Ok(Action::Shift {
                new_state: State::State063,
            }),
            Token::LT { .. } => Ok(Action::Shift {
                new_state: State::State064,
            }),
            Token::Eq { .. } => Ok(Action::Shift {
                new_state: State::State065,
            }),
            Token::Add { .. } => Ok(Action::Shift {
                new_state: State::State066,
            }),
            Token::Sub { .. } => Ok(Action::Shift {
                new_state: State::State067,
            }),
            Token::Mul { .. } => Ok(Action::Shift {
                new_state: State::State068,
            }),
            Token::Div { .. } => Ok(Action::Shift {
                new_state: State::State069,
            }),
            Token::At { .. } => Ok(Action::Shift {
                new_state: State::State070,
            }),
            Token::Dot { .. } => Ok(Action::Shift {
                new_state: State::State071,
            }),
            _ => Err(next_line_no)
        },
        State::State098 => match next_token {
            Token::Colon { .. } => Ok(Action::Shift {
                new_state: State::State112,
            }),
            _ => Err(next_line_no)
        },
        State::State099 => match next_token {
            Token::Esac { .. } => Ok(Action::Shift {
                new_state: State::State113,
            }),
            Token::ObjectID { .. } => Ok(Action::Shift {
                new_state: State::State098,
            }),
            _ => Err(next_line_no)
        },
        State::State100 => match next_token {
            Token::SemiColon { .. } => Ok(Action::Shift {
                new_state: State::State115,
            }),
            _ => Err(next_line_no)
        },
        State::State101 => match next_token {
            Token::If { .. } => Ok(Action::Shift {
                new_state: State::State033,
            }),
            Token::Let { .. } => Ok(Action::Shift {
                new_state: State::State034,
            }),
            Token::While { .. } => Ok(Action::Shift {
                new_state: State::State035,
            }),
            Token::Case { .. } => Ok(Action::Shift {
                new_state: State::State036,
            }),
            Token::New { .. } => Ok(Action::Shift {
                new_state: State::State037,
            }),
            Token::IsVoid { .. } => Ok(Action::Shift {
                new_state: State::State038,
            }),
            Token::StrConst { .. } => Ok(Action::Shift {
                new_state: State::State039,
            }),
            Token::IntConst { .. } => Ok(Action::Shift {
                new_state: State::State040,
            }),
            Token::BoolConst { .. } => Ok(Action::Shift {
                new_state: State::State041,
            }),
            Token::ObjectID { .. } => Ok(Action::Shift {
                new_state: State::State042,
            }),
            Token::Not { .. } => Ok(Action::Shift {
                new_state: State::State043,
            }),
            Token::Neg { .. } => Ok(Action::Shift {
                new_state: State::State044,
            }),
            Token::OpenBrace { .. } => Ok(Action::Shift {
                new_state: State::State045,
            }),
            Token::OpenParen { .. } => Ok(Action::Shift {
                new_state: State::State046,
            }),
            _ => Err(next_line_no)
        },
        State::State102 => Ok(Action::ReduceDispatch {
            dispatch_type: DispatchType::OnSelf,
        }),
        State::State103 => Ok(Action::ReduceExprListSC { is_empty: false }),
        State::State104 => match next_token {
            Token::ObjectID { .. } => Ok(Action::Shift {
                new_state: State::State117,
            }),
            _ => Err(next_line_no)
        },
        State::State105 => match next_token {
            Token::If { .. } => Ok(Action::Shift {
                new_state: State::State033,
            }),
            Token::Let { .. } => Ok(Action::Shift {
                new_state: State::State034,
            }),
            Token::While { .. } => Ok(Action::Shift {
                new_state: State::State035,
            }),
            Token::Case { .. } => Ok(Action::Shift {
                new_state: State::State036,
            }),
            Token::New { .. } => Ok(Action::Shift {
                new_state: State::State037,
            }),
            Token::IsVoid { .. } => Ok(Action::Shift {
                new_state: State::State038,
            }),
            Token::StrConst { .. } => Ok(Action::Shift {
                new_state: State::State039,
            }),
            Token::IntConst { .. } => Ok(Action::Shift {
                new_state: State::State040,
            }),
            Token::BoolConst { .. } => Ok(Action::Shift {
                new_state: State::State041,
            }),
            Token::ObjectID { .. } => Ok(Action::Shift {
                new_state: State::State042,
            }),
            Token::Not { .. } => Ok(Action::Shift {
                new_state: State::State043,
            }),
            Token::Neg { .. } => Ok(Action::Shift {
                new_state: State::State044,
            }),
            Token::OpenBrace { .. } => Ok(Action::Shift {
                new_state: State::State045,
            }),
            Token::OpenParen { .. } => Ok(Action::Shift {
                new_state: State::State046,
            }),
            _ => Ok(Action::ReduceExprListC { is_empty: true }),
        },
        State::State106 => Ok(Action::ReduceMethod),
        State::State107 => match next_token {
            Token::If { .. } => Ok(Action::Shift {
                new_state: State::State033,
            }),
            Token::Let { .. } => Ok(Action::Shift {
                new_state: State::State034,
            }),
            Token::While { .. } => Ok(Action::Shift {
                new_state: State::State035,
            }),
            Token::Case { .. } => Ok(Action::Shift {
                new_state: State::State036,
            }),
            Token::New { .. } => Ok(Action::Shift {
                new_state: State::State037,
            }),
            Token::IsVoid { .. } => Ok(Action::Shift {
                new_state: State::State038,
            }),
            Token::StrConst { .. } => Ok(Action::Shift {
                new_state: State::State039,
            }),
            Token::IntConst { .. } => Ok(Action::Shift {
                new_state: State::State040,
            }),
            Token::BoolConst { .. } => Ok(Action::Shift {
                new_state: State::State041,
            }),
            Token::ObjectID { .. } => Ok(Action::Shift {
                new_state: State::State042,
            }),
            Token::Not { .. } => Ok(Action::Shift {
                new_state: State::State043,
            }),
            Token::Neg { .. } => Ok(Action::Shift {
                new_state: State::State044,
            }),
            Token::OpenBrace { .. } => Ok(Action::Shift {
                new_state: State::State045,
            }),
            Token::OpenParen { .. } => Ok(Action::Shift {
                new_state: State::State046,
            }),
            _ => Err(next_line_no)
        },
        State::State108 => match next_token {
            Token::If { .. } => Ok(Action::Shift {
                new_state: State::State033,
            }),
            Token::Let { .. } => Ok(Action::Shift {
                new_state: State::State034,
            }),
            Token::While { .. } => Ok(Action::Shift {
                new_state: State::State035,
            }),
            Token::Case { .. } => Ok(Action::Shift {
                new_state: State::State036,
            }),
            Token::New { .. } => Ok(Action::Shift {
                new_state: State::State037,
            }),
            Token::IsVoid { .. } => Ok(Action::Shift {
                new_state: State::State038,
            }),
            Token::StrConst { .. } => Ok(Action::Shift {
                new_state: State::State039,
            }),
            Token::IntConst { .. } => Ok(Action::Shift {
                new_state: State::State040,
            }),
            Token::BoolConst { .. } => Ok(Action::Shift {
                new_state: State::State041,
            }),
            Token::ObjectID { .. } => Ok(Action::Shift {
                new_state: State::State042,
            }),
            Token::Not { .. } => Ok(Action::Shift {
                new_state: State::State043,
            }),
            Token::Neg { .. } => Ok(Action::Shift {
                new_state: State::State044,
            }),
            Token::OpenBrace { .. } => Ok(Action::Shift {
                new_state: State::State045,
            }),
            Token::OpenParen { .. } => Ok(Action::Shift {
                new_state: State::State046,
            }),
            _ => Err(next_line_no)
        },
        State::State109 => match next_token {
            Token::If { .. } => Ok(Action::Shift {
                new_state: State::State033,
            }),
            Token::Let { .. } => Ok(Action::Shift {
                new_state: State::State034,
            }),
            Token::While { .. } => Ok(Action::Shift {
                new_state: State::State035,
            }),
            Token::Case { .. } => Ok(Action::Shift {
                new_state: State::State036,
            }),
            Token::New { .. } => Ok(Action::Shift {
                new_state: State::State037,
            }),
            Token::IsVoid { .. } => Ok(Action::Shift {
                new_state: State::State038,
            }),
            Token::StrConst { .. } => Ok(Action::Shift {
                new_state: State::State039,
            }),
            Token::IntConst { .. } => Ok(Action::Shift {
                new_state: State::State040,
            }),
            Token::BoolConst { .. } => Ok(Action::Shift {
                new_state: State::State041,
            }),
            Token::ObjectID { .. } => Ok(Action::Shift {
                new_state: State::State042,
            }),
            Token::Not { .. } => Ok(Action::Shift {
                new_state: State::State043,
            }),
            Token::Neg { .. } => Ok(Action::Shift {
                new_state: State::State044,
            }),
            Token::OpenBrace { .. } => Ok(Action::Shift {
                new_state: State::State045,
            }),
            Token::OpenParen { .. } => Ok(Action::Shift {
                new_state: State::State046,
            }),
            _ => Err(next_line_no)
        },
        State::State110 => match next_token {
            Token::ObjectID { .. } => Ok(Action::Shift {
                new_state: State::State050,
            }),
            _ => Err(next_line_no)
        },
        State::State111 => Ok(Action::ReduceWhile),
        State::State112 => match next_token {
            Token::TypeID { .. } => Ok(Action::Shift {
                new_state: State::State123,
            }),
            _ => Err(next_line_no)
        },
        State::State113 => Ok(Action::ReduceTypeCase),
        State::State114 => match next_token {
            Token::SemiColon { .. } => Ok(Action::Shift {
                new_state: State::State124,
            }),
            _ => Err(next_line_no)
        },
        State::State115 => Ok(Action::ReduceBranchList { is_empty: true }),
        State::State116 => match next_token {
            Token::LEq { .. } => Ok(Action::Shift {
                new_state: State::State063,
            }),
            Token::LT { .. } => Ok(Action::Shift {
                new_state: State::State064,
            }),
            Token::Eq { .. } => Ok(Action::Shift {
                new_state: State::State065,
            }),
            Token::Add { .. } => Ok(Action::Shift {
                new_state: State::State066,
            }),
            Token::Sub { .. } => Ok(Action::Shift {
                new_state: State::State067,
            }),
            Token::Mul { .. } => Ok(Action::Shift {
                new_state: State::State068,
            }),
            Token::Div { .. } => Ok(Action::Shift {
                new_state: State::State069,
            }),
            Token::At { .. } => Ok(Action::Shift {
                new_state: State::State070,
            }),
            Token::Dot { .. } => Ok(Action::Shift {
                new_state: State::State071,
            }),
            _ => Ok(Action::ReduceExprListCNE { is_empty: false }),
        },
        State::State117 => match next_token {
            Token::OpenParen { .. } => Ok(Action::Shift {
                new_state: State::State125,
            }),
            _ => Err(next_line_no)
        },
        State::State118 => match next_token {
            Token::CloseParen { .. } => Ok(Action::Shift {
                new_state: State::State126,
            }),
            _ => Err(next_line_no)
        },
        State::State119 => match next_token {
            Token::Fi { .. } => Ok(Action::Shift {
                new_state: State::State127,
            }),
            Token::LEq { .. } => Ok(Action::Shift {
                new_state: State::State063,
            }),
            Token::LT { .. } => Ok(Action::Shift {
                new_state: State::State064,
            }),
            Token::Eq { .. } => Ok(Action::Shift {
                new_state: State::State065,
            }),
            Token::Add { .. } => Ok(Action::Shift {
                new_state: State::State066,
            }),
            Token::Sub { .. } => Ok(Action::Shift {
                new_state: State::State067,
            }),
            Token::Mul { .. } => Ok(Action::Shift {
                new_state: State::State068,
            }),
            Token::Div { .. } => Ok(Action::Shift {
                new_state: State::State069,
            }),
            Token::At { .. } => Ok(Action::Shift {
                new_state: State::State070,
            }),
            Token::Dot { .. } => Ok(Action::Shift {
                new_state: State::State071,
            }),
            _ => Err(next_line_no)
        },
        State::State120 => match next_token {
            Token::LEq { .. } => Ok(Action::Shift {
                new_state: State::State063,
            }),
            Token::LT { .. } => Ok(Action::Shift {
                new_state: State::State064,
            }),
            Token::Eq { .. } => Ok(Action::Shift {
                new_state: State::State065,
            }),
            Token::Add { .. } => Ok(Action::Shift {
                new_state: State::State066,
            }),
            Token::Sub { .. } => Ok(Action::Shift {
                new_state: State::State067,
            }),
            Token::Mul { .. } => Ok(Action::Shift {
                new_state: State::State068,
            }),
            Token::Div { .. } => Ok(Action::Shift {
                new_state: State::State069,
            }),
            Token::At { .. } => Ok(Action::Shift {
                new_state: State::State070,
            }),
            Token::Dot { .. } => Ok(Action::Shift {
                new_state: State::State071,
            }),
            _ => Ok(Action::ReduceExprLet { has_init: false }),
        },
        State::State121 => match next_token {
            Token::In { .. } => Ok(Action::Shift {
                new_state: State::State128,
            }),
            Token::LEq { .. } => Ok(Action::Shift {
                new_state: State::State063,
            }),
            Token::LT { .. } => Ok(Action::Shift {
                new_state: State::State064,
            }),
            Token::Eq { .. } => Ok(Action::Shift {
                new_state: State::State065,
            }),
            Token::Add { .. } => Ok(Action::Shift {
                new_state: State::State066,
            }),
            Token::Sub { .. } => Ok(Action::Shift {
                new_state: State::State067,
            }),
            Token::Mul { .. } => Ok(Action::Shift {
                new_state: State::State068,
            }),
            Token::Div { .. } => Ok(Action::Shift {
                new_state: State::State069,
            }),
            Token::At { .. } => Ok(Action::Shift {
                new_state: State::State070,
            }),
            Token::Dot { .. } => Ok(Action::Shift {
                new_state: State::State071,
            }),
            Token::Comma { .. } => Ok(Action::Shift {
                new_state: State::State129,
            }),
            _ => Err(next_line_no)
        },
        State::State122 => Ok(Action::ReduceExprLet { has_init: false }),
        State::State123 => match next_token {
            Token::DArrow { .. } => Ok(Action::Shift {
                new_state: State::State130,
            }),
            _ => Err(next_line_no)
        },
        State::State124 => Ok(Action::ReduceBranchList { is_empty: false }),
        State::State125 => match next_token {
            Token::If { .. } => Ok(Action::Shift {
                new_state: State::State033,
            }),
            Token::Let { .. } => Ok(Action::Shift {
                new_state: State::State034,
            }),
            Token::While { .. } => Ok(Action::Shift {
                new_state: State::State035,
            }),
            Token::Case { .. } => Ok(Action::Shift {
                new_state: State::State036,
            }),
            Token::New { .. } => Ok(Action::Shift {
                new_state: State::State037,
            }),
            Token::IsVoid { .. } => Ok(Action::Shift {
                new_state: State::State038,
            }),
            Token::StrConst { .. } => Ok(Action::Shift {
                new_state: State::State039,
            }),
            Token::IntConst { .. } => Ok(Action::Shift {
                new_state: State::State040,
            }),
            Token::BoolConst { .. } => Ok(Action::Shift {
                new_state: State::State041,
            }),
            Token::ObjectID { .. } => Ok(Action::Shift {
                new_state: State::State042,
            }),
            Token::Not { .. } => Ok(Action::Shift {
                new_state: State::State043,
            }),
            Token::Neg { .. } => Ok(Action::Shift {
                new_state: State::State044,
            }),
            Token::OpenBrace { .. } => Ok(Action::Shift {
                new_state: State::State045,
            }),
            Token::OpenParen { .. } => Ok(Action::Shift {
                new_state: State::State046,
            }),
            _ => Ok(Action::ReduceExprListC { is_empty: true }),
        },
        State::State126 => Ok(Action::ReduceDispatch {
            dispatch_type: DispatchType::OnExpr,
        }),
        State::State127 => Ok(Action::ReduceCond),
        State::State128 => match next_token {
            Token::If { .. } => Ok(Action::Shift {
                new_state: State::State033,
            }),
            Token::Let { .. } => Ok(Action::Shift {
                new_state: State::State034,
            }),
            Token::While { .. } => Ok(Action::Shift {
                new_state: State::State035,
            }),
            Token::Case { .. } => Ok(Action::Shift {
                new_state: State::State036,
            }),
            Token::New { .. } => Ok(Action::Shift {
                new_state: State::State037,
            }),
            Token::IsVoid { .. } => Ok(Action::Shift {
                new_state: State::State038,
            }),
            Token::StrConst { .. } => Ok(Action::Shift {
                new_state: State::State039,
            }),
            Token::IntConst { .. } => Ok(Action::Shift {
                new_state: State::State040,
            }),
            Token::BoolConst { .. } => Ok(Action::Shift {
                new_state: State::State041,
            }),
            Token::ObjectID { .. } => Ok(Action::Shift {
                new_state: State::State042,
            }),
            Token::Not { .. } => Ok(Action::Shift {
                new_state: State::State043,
            }),
            Token::Neg { .. } => Ok(Action::Shift {
                new_state: State::State044,
            }),
            Token::OpenBrace { .. } => Ok(Action::Shift {
                new_state: State::State045,
            }),
            Token::OpenParen { .. } => Ok(Action::Shift {
                new_state: State::State046,
            }),
            _ => Err(next_line_no)
        },
        State::State129 => match next_token {
            Token::ObjectID { .. } => Ok(Action::Shift {
                new_state: State::State050,
            }),
            _ => Err(next_line_no)
        },
        State::State130 => match next_token {
            Token::If { .. } => Ok(Action::Shift {
                new_state: State::State033,
            }),
            Token::Let { .. } => Ok(Action::Shift {
                new_state: State::State034,
            }),
            Token::While { .. } => Ok(Action::Shift {
                new_state: State::State035,
            }),
            Token::Case { .. } => Ok(Action::Shift {
                new_state: State::State036,
            }),
            Token::New { .. } => Ok(Action::Shift {
                new_state: State::State037,
            }),
            Token::IsVoid { .. } => Ok(Action::Shift {
                new_state: State::State038,
            }),
            Token::StrConst { .. } => Ok(Action::Shift {
                new_state: State::State039,
            }),
            Token::IntConst { .. } => Ok(Action::Shift {
                new_state: State::State040,
            }),
            Token::BoolConst { .. } => Ok(Action::Shift {
                new_state: State::State041,
            }),
            Token::ObjectID { .. } => Ok(Action::Shift {
                new_state: State::State042,
            }),
            Token::Not { .. } => Ok(Action::Shift {
                new_state: State::State043,
            }),
            Token::Neg { .. } => Ok(Action::Shift {
                new_state: State::State044,
            }),
            Token::OpenBrace { .. } => Ok(Action::Shift {
                new_state: State::State045,
            }),
            Token::OpenParen { .. } => Ok(Action::Shift {
                new_state: State::State046,
            }),
            _ => Err(next_line_no)
        },
        State::State131 => match next_token {
            Token::CloseParen { .. } => Ok(Action::Shift {
                new_state: State::State135,
            }),
            _ => Err(next_line_no)
        },
        State::State132 => match next_token {
            Token::LEq { .. } => Ok(Action::Shift {
                new_state: State::State063,
            }),
            Token::LT { .. } => Ok(Action::Shift {
                new_state: State::State064,
            }),
            Token::Eq { .. } => Ok(Action::Shift {
                new_state: State::State065,
            }),
            Token::Add { .. } => Ok(Action::Shift {
                new_state: State::State066,
            }),
            Token::Sub { .. } => Ok(Action::Shift {
                new_state: State::State067,
            }),
            Token::Mul { .. } => Ok(Action::Shift {
                new_state: State::State068,
            }),
            Token::Div { .. } => Ok(Action::Shift {
                new_state: State::State069,
            }),
            Token::At { .. } => Ok(Action::Shift {
                new_state: State::State070,
            }),
            Token::Dot { .. } => Ok(Action::Shift {
                new_state: State::State071,
            }),
            _ => Ok(Action::ReduceExprLet { has_init: true }),
        },
        State::State133 => Ok(Action::ReduceExprLet { has_init: true }),
        State::State134 => match next_token {
            Token::LEq { .. } => Ok(Action::Shift {
                new_state: State::State063,
            }),
            Token::LT { .. } => Ok(Action::Shift {
                new_state: State::State064,
            }),
            Token::Eq { .. } => Ok(Action::Shift {
                new_state: State::State065,
            }),
            Token::Add { .. } => Ok(Action::Shift {
                new_state: State::State066,
            }),
            Token::Sub { .. } => Ok(Action::Shift {
                new_state: State::State067,
            }),
            Token::Mul { .. } => Ok(Action::Shift {
                new_state: State::State068,
            }),
            Token::Div { .. } => Ok(Action::Shift {
                new_state: State::State069,
            }),
            Token::At { .. } => Ok(Action::Shift {
                new_state: State::State070,
            }),
            Token::Dot { .. } => Ok(Action::Shift {
                new_state: State::State071,
            }),
            _ => Ok(Action::ReduceBranch),
        },
        State::State135 => Ok(Action::ReduceDispatch {
            dispatch_type: DispatchType::Static,
        }),
    }
}

/// What the parser does in a state when it meets a token.
pub fn get_action(top_state: State, next_token: &Token) -> (r: Result<Action, i16>)
    ensures
        r == action_for(top_state, next_token),
{
    let next_line_no = next_token.get_line_no();
    match top_state {
        State::StateInitial => match next_token {
            Token::Class { .. } => Ok(Action::Shift {
                new_state: State::State001,
            }),
            _ => Err(next_line_no)
        },
        State::State001 => match next_token {
            Token::TypeID { .. } => Ok(Action::Shift {
                new_state: State::State004,
            }),
            _ => Err(next_line_no)
        },
        State::State002 => match next_token {
            Token::Class { .. } => Ok(Action::Shift {
                new_state: State::State001,
            }),
            Token::End { .. } => Ok(Action::Accept),
            _ => Err(next_line_no)
        },
        State::State003 => match next_token {
            Token::SemiColon { .. } => Ok(Action::Shift {
                new_state: State::State006,
            }),
            _ => Err(next_line_no)
        },
        State::State004 => match next_token {
            Token::Inherits { .. } => Ok(Action::Shift {
                new_state: State::State007,
            }),
            Token::OpenBrace { .. } => Ok(Action::Shift {
                new_state: State::State008,
            }),
            _ => Err(next_line_no)
        },
        State::State005 => match next_token {
            Token::SemiColon { .. } => Ok(Action::Shift {
                new_state: State::State009,
            }),
            _ => Err(next_line_no)
        },
        State::State006 => Ok(Action::ReduceClassList { is_empty: true }),
        State::State007 => match next_token {
            Token::TypeID { .. } => Ok(Action::Shift {
                new_state: State::State010,
            }),
            _ => Err(next_line_no)
        },
        State::State008 => match next_token {
            Token::ObjectID { .. } => Ok(Action::ReduceFeatureList { is_empty: true }),
            Token::CloseBrace { .. } => Ok(Action::ReduceFeatureList { is_empty: true }),
            _ => Err(next_line_no)
        },
        State::State009 => Ok(Action::ReduceClassList { is_empty: false }),
        State::State010 => match next_token {
            Token::OpenBrace { .. } => Ok(Action::Shift {
                new_state: State::State012,
            }),
            _ => Err(next_line_no)
        },
        State::State011 => match next_token {
            Token::ObjectID { .. } => Ok(Action::Shift {
                new_state: State::State013,
            }),
            Token::CloseBrace { .. } => Ok(Action::Shift {
                new_state: State::State014,
            }),
            _ => Err(next_line_no)
        },
        State::State012 => match next_token {
            Token::ObjectID { .. } => Ok(Action::ReduceFeatureList { is_empty: true }),
            Token::CloseBrace { .. } => Ok(Action::ReduceFeatureList { is_empty: true }),
            _ => Err(next_line_no)
        },
        State::State013 => match next_token {
            Token::OpenParen { .. } => Ok(Action::Shift {
                new_state: State::State017,
            }),
            Token::Colon { .. } => Ok(Action::Shift {
                new_state: State::State018,
            }),
            _ => Err(next_line_no)
        },
        State::State014 => Ok(Action::ReduceClass { has_parent: false }),
        State::State015 => match next_token {
            Token::SemiColon { .. } => Ok(Action::Shift {
                new_state: State::State019,
            }),
            _ => Err(next_line_no)
        },
        State::State016 => match next_token {
            Token::ObjectID { .. } => Ok(Action::Shift {
                new_state: State::State013,
            }),
            Token::CloseBrace { .. } => Ok(Action::Shift {
                new_state: State::State020,
            }),
            _ => Err(next_line_no)
        },
        State::State017 => match next_token {
            Token::ObjectID { .. } => Ok(Action::Shift {
                new_state: State::State021,
            }),
            _ => Ok(Action::ReduceFormalList { is_empty: true }),
        },
        State::State018 => match next_token {
            Token::TypeID { .. } => Ok(Action::Shift {
                new_state: State::State025,
            }),
            _ => Err(next_line_no)
        },
        State::State019 => Ok(Action::ReduceFeatureList { is_empty: false }),
        State::State020 => Ok(Action::ReduceClass { has_parent: true }),
        State::State021 => match next_token {
            Token::Colon { .. } => Ok(Action::Shift {
                new_state: State::State026,
            }),
            _ => Err(next_line_no)
        },
        State::State022 => match next_token {
            Token::Comma { .. } => Ok(Action::Shift {
                new_state: State::State027,
            }),
            _ => Ok(Action::ReduceFormalList { is_empty: false }),
        },
        State::State023 => match next_token {
            Token::CloseParen { .. } => Ok(Action::Shift {
                new_state: State::State028,
            }),
            _ => Err(next_line_no)
        },
        State::State024 => Ok(Action::ReduceFormalListNE { is_empty: true }),
        State::State025 => match next_token {
            Token::Assign { .. } => Ok(Action::Shift {
                new_state: State::State029,
            }),
            _ => Ok(Action::ReduceAttr { has_init: false }),
        },
        State::State026 => match next_token {
            Token::TypeID { .. } => Ok(Action::Shift {
                new_state: State::State030,
            }),
            _ => Err(next_line_no)
        },
        State::State027 => match next_token {
            Token::ObjectID { .. } => Ok(Action::Shift {
                new_state: State::State021,
            }),
            _ => Err(next_line_no)
        },
        State::State028 => match next_token {
            Token::Colon { .. } => Ok(Action::Shift {
                new_state: State::State032,
            }),
            _ => Err(next_line_no)
        },
        State::State029 => match next_token {
            Token::If { .. } => Ok(Action::Shift {
                new_state: State::State033,
            }),
            Token::Let { .. } => Ok(Action::Shift {
                new_state: State::State034,
            }),
            Token::While { .. } => Ok(Action::Shift {
                new_state: State::State035,
            }),
            Token::Case { .. } => Ok(Action::Shift {
                new_state: State::State036,
            }),
            Token::New { .. } => Ok(Action::Shift {
                new_state: State::State037,
            }),
            Token::IsVoid { .. } => Ok(Action::Shift {
                new_state: State::State038,
            }),
            Token::StrConst { .. } => Ok(Action::Shift {
                new_state: State::State039,
            }),
            Token::IntConst { .. } => Ok(Action::Shift {
                new_state: State::State040,
            }),
            Token::BoolConst { .. } => Ok(Action::Shift {
                new_state: State::State041,
            }),
            Token::ObjectID { .. } => Ok(Action::Shift {
                new_state: State::State042,
            }),
            Token::Not { .. } => Ok(Action::Shift {
                new_state: State::State043,
            }),
            Token::Neg { .. } => Ok(Action::Shift {
                new_state: State::State044,
            }),
            Token::OpenBrace { .. } => Ok(Action::Shift {
                new_state: State::State045,
            }),
            Token::OpenParen { .. } => Ok(Action::Shift {
                new_state: State::State046,
            }),
            _ => Err(next_line_no)
        },
        State::State030 => Ok(Action::ReduceFormal),
        State::State031 => Ok(Action::ReduceFormalListNE { is_empty: false }),
        State::State032 => match next_token {
            Token::TypeID { .. } => Ok(Action::Shift {
                new_state: State::State048,
            }),
            _ => Err(next_line_no)
        },
        State::State033 => match next_token {
            Token::If { .. } => Ok(Action::Shift {
                new_state: State::State033,
            }),
            Token::Let { .. } => Ok(Action::Shift {
                new_state: State::State034,
            }),
            Token::While { .. } => Ok(Action::Shift {
                new_state: State::State035,
            }),
            Token::Case { .. } => Ok(Action::Shift {
                new_state: State::State036,
            }),
            Token::New { .. } => Ok(Action::Shift {
                new_state: State::State037,
            }),
            Token::IsVoid { .. } => Ok(Action::Shift {
                new_state: State::State038,
            }),
            Token::StrConst { .. } => Ok(Action::Shift {
                new_state: State::State039,
            }),
            Token::IntConst { .. } => Ok(Action::Shift {
                new_state: State::State040,
            }),
            Token::BoolConst { .. } => Ok(Action::Shift {
                new_state: State::State041,
            }),
            Token::ObjectID { .. } => Ok(Action::Shift {
                new_state: State::State042,
            }),
            Token::Not { .. } => Ok(Action::Shift {
                new_state: State::State043,
            }),
            Token::Neg { .. } => Ok(Action::Shift {
                new_state: State::State044,
            }),
            Token::OpenBrace { .. } => Ok(Action::Shift {
                new_state: State::State045,
            }),
            Token::OpenParen { .. } => Ok(Action::Shift {
                new_state: State::State046,
            }),
            _ => Err(next_line_no)
        },
        State::State034 => match next_token {
            Token::ObjectID { .. } => Ok(Action::Shift {
                new_state: State::State050,
            }),
            _ => Err(next_line_no)
        },
        State::State035 => match next_token {
            Token::If { .. } => Ok(Action::Shift {
                new_state: State::State033,
            }),
            Token::Let { .. } => Ok(Action::Shift {
                new_state: State::State034,
            }),
            Token::While { .. } => Ok(Action::Shift {
                new_state: State::State035,
            }),
            Token::Case { .. } => Ok(Action::Shift {
                new_state: State::State036,
            }),
            Token::New { .. } => Ok(Action::Shift {
                new_state: State::State037,
            }),
            Token::IsVoid { .. } => Ok(Action::Shift {
                new_state: State::State038,
            }),
            Token::StrConst { .. } => Ok(Action::Shift {
                new_state: State::State039,
            }),
            Token::IntConst { .. } => Ok(Action::Shift {
                new_state: State::State040,
            }),
            Token::BoolConst { .. } => Ok(Action::Shift {
                new_state: State::State041,
            }),
            Token::ObjectID { .. } => Ok(Action::Shift {
                new_state: State::State042,
            }),
            Token::Not { .. } => Ok(Action::Shift {
                new_state: State::State043,
            }),
            Token::Neg { .. } => Ok(Action::Shift {
                new_state: State::State044,
            }),
            Token::OpenBrace { .. } => Ok(Action::Shift {
                new_state: State::State045,
            }),
            Token::OpenParen { .. } => Ok(Action::Shift {
                new_state: State::State046,
            }),
            _ => Err(next_line_no)
        },
        State::State036 => match next_token {
            Token::If { .. } => Ok(Action::Shift {
                new_state: State::State033,
            }),
            Token::Let { .. } => Ok(Action::Shift {
                new_state: State::State034,
            }),
            Token::While { .. } => Ok(Action::Shift {
                new_state: State::State035,
            }),
            Token::Case { .. } => Ok(Action::Shift {
                new_state: State::State036,
            }),
            Token::New { .. } => Ok(Action::Shift {
                new_state: State::State037,
            }),
            Token::IsVoid { .. } => Ok(Action::Shift {
                new_state: State::State038,
            }),
            Token::StrConst { .. } => Ok(Action::Shift {
                new_state: State::State039,
            }),
            Token::IntConst { .. } => Ok(Action::Shift {
                new_state: State::State040,
            }),
            Token::BoolConst { .. } => Ok(Action::Shift {
                new_state: State::State041,
            }),
            Token::ObjectID { .. } => Ok(Action::Shift {
                new_state: State::State042,
            }),
            Token::Not { .. } => Ok(Action::Shift {
                new_state: State::State043,
            }),
            Token::Neg { .. } => Ok(Action::Shift {
                new_state: State::State044,
            }),
            Token::OpenBrace { .. } => Ok(Action::Shift {
                new_state: State::State045,
            }),
            Token::OpenParen { .. } => Ok(Action::Shift {
                new_state: State::State046,
            }),
            _ => Err(next_line_no)
        },
        State::State037 => match next_token {
            Token::TypeID { .. } => Ok(Action::Shift {
                new_state: State::State054,
            }),
            _ => Err(next_line_no)
        },
        State::State038 => match next_token {
            Token::If { .. } => Ok(Action::Shift {
                new_state: State::State033,
            }),
            Token::Let { .. } => Ok(Action::Shift {
                new_state: State::State034,
            }),
            Token::While { .. } => Ok(Action::Shift {
                new_state: State::State035,
            }),
            Token::Case { .. } => Ok(Action::Shift {
                new_state: State::State036,
            }),
            Token::New { .. } => Ok(Action::Shift {
                new_state: State::State037,
            }),
            Token::IsVoid { .. } => Ok(Action::Shift {
                new_state: State::State038,
            }),
            Token::StrConst { .. } => Ok(Action::Shift {
                new_state: State::State039,
            }),
            Token::IntConst { .. } => Ok(Action::Shift {
                new_state: State::State040,
            }),
            Token::BoolConst { .. } => Ok(Action::Shift {
                new_state: State::State041,
            }),
            Token::ObjectID { .. } => Ok(Action::Shift {
                new_state: State::State042,
            }),
            Token::Not { .. } => Ok(Action::Shift {
                new_state: State::State043,
            }),
            Token::Neg { .. } => Ok(Action::Shift {
                new_state: State::State044,
            }),
            Token::OpenBrace { .. } => Ok(Action::Shift {
                new_state: State::State045,
            }),
            Token::OpenParen { .. } => Ok(Action::Shift {
                new_state: State::State046,
            }),
            _ => Err(next_line_no)
        },
        State::State039 => Ok(Action::ReduceStrConst),
        State::State040 => Ok(Action::ReduceIntConst),
        State::State041 => Ok(Action::ReduceBoolConst),
        State::State042 => match next_token {
            Token::Assign { .. } => Ok(Action::Shift {
                new_state: State::State056,
            }),
            Token::OpenParen { .. } => Ok(Action::Shift {
                new_state: State::State057,
            }),
            _ => Ok(Action::ReduceVarByName),
        },
        State::State043 => match next_token {
            Token::If { .. } => Ok(Action::Shift {
                new_state: State::State033,
            }),
            Token::Let { .. } => Ok(Action::Shift {
                new_state: State::State034,
            }),
            Token::While { .. } => Ok(Action::Shift {
                new_state: State::State035,
            }),
            Token::Case { .. } => Ok(Action::Shift {
                new_state: State::State036,
            }),
            Token::New { .. } => Ok(Action::Shift {
                new_state: State::State037,
            }),
            Token::IsVoid { .. } => Ok(Action::Shift {
                new_state: State::State038,
            }),
            Token::StrConst { .. } => Ok(Action::Shift {
                new_state: State::State039,
            }),
            Token::IntConst { .. } => Ok(Action::Shift {
                new_state: State::State040,
            }),
            Token::BoolConst { .. } => Ok(Action::Shift {
                new_state: State::State041,
            }),
            Token::ObjectID { .. } => Ok(Action::Shift {
                new_state: State::State042,
            }),
            Token::Not { .. } => Ok(Action::Shift {
                new_state: State::State043,
            }),
            Token::Neg { .. } => Ok(Action::Shift {
                new_state: State::State044,
            }),
            Token::OpenBrace { .. } => Ok(Action::Shift {
                new_state: State::State045,
            }),
            Token::OpenParen { .. } => Ok(Action::Shift {
                new_state: State::State046,
            }),
            _ => Err(next_line_no)
        },
        State::State044 => match next_token {
            Token::If { .. } => Ok(Action::Shift {
                new_state: State::State033,
            }),
            Token::Let { .. } => Ok(Action::Shift {
                new_state: State::State034,
            }),
            Token::While { .. } => Ok(Action::Shift {
                new_state: State::State035,
            }),
            Token::Case { .. } => Ok(Action::Shift {
                new_state: State::State036,
            }),
            Token::New { .. } => Ok(Action::Shift {
                new_state: State::State037,
            }),
            Token::IsVoid { .. } => Ok(Action::Shift {
                new_state: State::State038,
            }),
            Token::StrConst { .. } => Ok(Action::Shift {
                new_state: State::State039,
            }),
            Token::IntConst { .. } => Ok(Action::Shift {
                new_state: State::State040,
            }),
            Token::BoolConst { .. } => Ok(Action::Shift {
                new_state: State::State041,
            }),
            Token::ObjectID { .. } => Ok(Action::Shift {
                new_state: State::State042,
            }),
            Token::Not { .. } => Ok(Action::Shift {
                new_state: State::State043,
            }),
            Token::Neg { .. } => Ok(Action::Shift {
                new_state: State::State044,
            }),
            Token::OpenBrace { .. } => Ok(Action::Shift {
                new_state: State::State045,
            }),
            Token::OpenParen { .. } => Ok(Action::Shift {
                new_state: State::State046,
            }),
            _ => Err(next_line_no)
        },
        State::State045 => match next_token {
            Token::If { .. } => Ok(Action::Shift {
                new_state: State::State033,
            }),
            Token::Let { .. } => Ok(Action::Shift {
                new_state: State::State034,
            }),
            Token::While { .. } => Ok(Action::Shift {
                new_state: State::State035,
            }),
            Token::Case { .. } => Ok(Action::Shift {
                new_state: State::State036,
            }),
            Token::New { .. } => Ok(Action::Shift {
                new_state: State::State037,
            }),
            Token::IsVoid { .. } => Ok(Action::Shift {
                new_state: State::State038,
            }),
            Token::StrConst { .. } => Ok(Action::Shift {
                new_state: State::State039,
            }),
            Token::IntConst { .. } => Ok(Action::Shift {
                new_state: State::State040,
            }),
            Token::BoolConst { .. } => Ok(Action::Shift {
                new_state: State::State041,
            }),
            Token::ObjectID { .. } => Ok(Action::Shift {
                new_state: State::State042,
            }),
            Token::Not { .. } => Ok(Action::Shift {
                new_state: State::State043,
            }),
            Token::Neg { .. } => Ok(Action::Shift {
                new_state: State::State044,
            }),
            Token::OpenBrace { .. } => Ok(Action::Shift {
                new_state: State::State045,
            }),
            Token::OpenParen { .. } => Ok(Action::Shift {
                new_state: State::State046,
            }),
            _ => Err(next_line_no)
        },
        State::State046 => match next_token {
            Token::If { .. } => Ok(Action::Shift {
                new_state: State::State033,
            }),
            Token::Let { .. } => Ok(Action::Shift {
                new_state: State::State034,
            }),
            Token::While { .. } => Ok(Action::Shift {
                new_state: State::State035,
            }),
            Token::Case { .. } => Ok(Action::Shift {
                new_state: State::State036,
            }),
            Token::New { .. } => Ok(Action::Shift {
                new_state: State::State037,
            }),
            Token::IsVoid { .. } => Ok(Action::Shift {
                new_state: State::State038,
            }),
            Token::StrConst { .. } => Ok(Action::Shift {
                new_state: State::State039,
            }),
            Token::IntConst { .. } => Ok(Action::Shift {
                new_state: State::State040,
            }),
            Token::BoolConst { .. } => Ok(Action::Shift {
                new_state: State::State041,
            }),
            Token::ObjectID { .. } => Ok(Action::Shift {
                new_state: State::State042,
            }),
            Token::Not { .. } => Ok(Action::Shift {
                new_state: State::State043,
            }),
            Token::Neg { .. } => Ok(Action::Shift {
                new_state: State::State044,
            }),
            Token::OpenBrace { .. } => Ok(Action::Shift {
                new_state: State::State045,
            }),
            Token::OpenParen { .. } => Ok(Action::Shift {
                new_state: State::State046,
            }),
            _ => Err(next_line_no)
        },
        State::State047 => match next_token {
            Token::LEq { .. } => Ok(Action::Shift {
                new_state: State::State063,
            }),
            Token::LT { .. } => Ok(Action::Shift {
                new_state: State::State064,
            }),
            Token::Eq { .. } => Ok(Action::Shift {
                new_state: State::State065,
            }),
            Token::Add { .. } => Ok(Action::Shift {
                new_state: State::State066,
            }),
            Token::Sub { .. } => Ok(Action::Shift {
                new_state: State::State067,
            }),
            Token::Mul { .. } => Ok(Action::Shift {
                new_state: State::State068,
            }),
            Token::Div { .. } => Ok(Action::Shift {
                new_state: State::State069,
            }),
            Token::At { .. } => Ok(Action::Shift {
                new_state: State::State070,
            }),
            Token::Dot { .. } => Ok(Action::Shift {
                new_state: State::State071,
            }),
            _ => Ok(Action::ReduceAttr { has_init: true }),
        },
        State::State048 => match next_token {
            Token::OpenBrace { .. } => Ok(Action::Shift {
                new_state: State::State072,
            }),
            _ => Err(next_line_no)
        },
        State::State049 => match next_token {
            Token::Then { .. } => Ok(Action::Shift {
                new_state: State::State073,
            }),
            Token::LEq { .. } => Ok(Action::Shift {
                new_state: State::State063,
            }),
            Token::LT { .. } => Ok(Action::Shift {
                new_state: State::State064,
            }),
            Token::Eq { .. } => Ok(Action::Shift {
                new_state: State::State065,
            }),
            Token::Add { .. } => Ok(Action::Shift {
                new_state: State::State066,
            }),
            Token::Sub { .. } => Ok(Action::Shift {
                new_state: State::State067,
            }),
            Token::Mul { .. } => Ok(Action::Shift {
                new_state: State::State068,
            }),
            Token::Div { .. } => Ok(Action::Shift {
                new_state: State::State069,
            }),
            Token::At { .. } => Ok(Action::Shift {
                new_state: State::State070,
            }),
            Token::Dot { .. } => Ok(Action::Shift {
                new_state: State::State071,
            }),
            _ => Err(next_line_no)
        },
        State::State050 => match next_token {
            Token::Colon { .. } => Ok(Action::Shift {
                new_state: State::State074,
            }),
            _ => Err(next_line_no)
        },
        State::State051 => Ok(Action::ReduceLet),
        State::State052 => match next_token {
            Token::Loop { .. } => Ok(Action::Shift {
                new_state: State::State075,
            }),
            Token::LEq { .. } => Ok(Action::Shift {
                new_state: State::State063,
            }),
            Token::LT { .. } => Ok(Action::Shift {
                new_state: State::State064,
            }),
            Token::Eq { .. } => Ok(Action::Shift {
                new_state: State::State065,
            }),
            Token::Add { .. } => Ok(Action::Shift {
                new_state: State::State066,
            }),
            Token::Sub { .. } => Ok(Action::Shift {
                new_state: State::State067,
            }),
            Token::Mul { .. } => Ok(Action::Shift {
                new_state: State::State068,
            }),
            Token::Div { .. } => Ok(Action::Shift {
                new_state: State::State069,
            }),
            Token::At { .. } => Ok(Action::Shift {
                new_state: State::State070,
            }),
            Token::Dot { .. } => Ok(Action::Shift {
                new_state: State::State071,
            }),
            _ => Err(next_line_no)
        },
        State::State053 => match next_token {
            Token::Of { .. } => Ok(Action::Shift {
                new_state: State::State076,
            }),
            Token::LEq { .. } => Ok(Action::Shift {
                new_state: State::State063,
            }),
            Token::LT { .. } => Ok(Action::Shift {
                new_state: State::State064,
            }),
            Token::Eq { .. } => Ok(Action::Shift {
                new_state: State::State065,
            }),
            Token::Add { .. } => Ok(Action::Shift {
                new_state: State::State066,
            }),
            Token::Sub { .. } => Ok(Action::Shift {
                new_state: State::State067,
            }),
            Token::Mul { .. } => Ok(Action::Shift {
                new_state: State::State068,
            }),
            Token::Div { .. } => Ok(Action::Shift {
                new_state: State::State069,
            }),
            Token::At { .. } => Ok(Action::Shift {
                new_state: State::State070,
            }),
            Token::Dot { .. } => Ok(Action::Shift {
                new_state: State::State071,
            }),
            _ => Err(next_line_no)
        },
        State::State054 => Ok(Action::ReduceNew),
        State::State055 => match next_token {
            Token::At { .. } => Ok(Action::Shift {
                new_state: State::State070,
            }),
            Token::Dot { .. } => Ok(Action::Shift {
                new_state: State::State071,
            }),
            _ => Ok(Action::ReduceIsVoid),
        },
        State::State056 => match next_token {
            Token::If { .. } => Ok(Action::Shift {
                new_state: State::State033,
            }),
            Token::Let { .. } => Ok(Action::Shift {
                new_state: State::State034,
            }),
            Token::While { .. } => Ok(Action::Shift {
                new_state: State::State035,
            }),
            Token::Case { .. } => Ok(Action::Shift {
                new_state: State::State036,
            }),
            Token::New { .. } => Ok(Action::Shift {
                new_state: State::State037,
            }),
            Token::IsVoid { .. } => Ok(Action::Shift {
                new_state: State::State038,
            }),
            Token::StrConst { .. } => Ok(Action::Shift {
                new_state: State::State039,
            }),
            Token::IntConst { .. } => Ok(Action::Shift {
                new_state: State::State040,
            }),
            Token::BoolConst { .. } => Ok(Action::Shift {
                new_state: State::State041,
            }),
            Token::ObjectID { .. } => Ok(Action::Shift {
                new_state: State::State042,
            }),
            Token::Not { .. } => Ok(Action::Shift {
                new_state: State::State043,
            }),
            Token::Neg { .. } => Ok(Action::Shift {
                new_state: State::State044,
            }),
            Token::OpenBrace { .. } => Ok(Action::Shift {
                new_state: State::State045,
            }),
            Token::OpenParen { .. } => Ok(Action::Shift {
                new_state: State::State046,
            }),
            _ => Err(next_line_no)
        },
        State::State057 => match next_token {
            Token::If { .. } => Ok(Action::Shift {
                new_state: State::State033,
            }),
            Token::Let { .. } => Ok(Action::Shift {
                new_state: State::State034,
            }),
            Token::While { .. } => Ok(Action::Shift {
                new_state: State::State035,
            }),
            Token::Case { .. } => Ok(Action::Shift {
                new_state: State::State036,
            }),
            Token::New { .. } => Ok(Action::Shift {
                new_state: State::State037,
            }),
            Token::IsVoid { .. } => Ok(Action::Shift {
                new_state: State::State038,
            }),
            Token::StrConst { .. } => Ok(Action::Shift {
                new_state: State::State039,
            }),
            Token::IntConst { .. } => Ok(Action::Shift {
                new_state: State::State040,
            }),
            Token::BoolConst { .. } => Ok(Action::Shift {
                new_state: State::State041,
            }),
            Token::ObjectID { .. } => Ok(Action::Shift {
                new_state: State::State042,
            }),
            Token::Not { .. } => Ok(Action::Shift {
                new_state: State::State043,
            }),
            Token::Neg { .. } => Ok(Action::Shift {
                new_state: State::State044,
            }),
            Token::OpenBrace { .. } => Ok(Action::Shift {
                new_state: State::State045,
            }),
            Token::OpenParen { .. } => Ok(Action::Shift {
                new_state: State::State046,
            }),
            _ => Ok(Action::ReduceExprListC { is_empty: true }),
        },
        State::State058 => match next_token {
            Token::LEq { .. } => Ok(Action::Shift {
                new_state: State::State063,
            }),
            Token::LT { .. } => Ok(Action::Shift {
                new_state: State::State064,
            }),
            Token::Eq { .. } => Ok(Action::Shift {
                new_state: State::State065,
            }),
            Token::Add { .. } => Ok(Action::Shift {
                new_state: State::State066,
            }),
            Token::Sub { .. } => Ok(Action::Shift {
                new_state: State::State067,
            }),
            Token::Mul { .. } => Ok(Action::Shift {
                new_state: State::State068,
            }),
            Token::Div { .. } => Ok(Action::Shift {
                new_state: State::State069,
            }),
            Token::At { .. } => Ok(Action::Shift {
                new_state: State::State070,
            }),
            Token::Dot { .. } => Ok(Action::Shift {
                new_state: State::State071,
            }),
            _ => Ok(Action::ReduceNot),
        },
        State::State059 => match next_token {
            Token::At { .. } => Ok(Action::Shift {
                new_state: State::State070,
            }),
            Token::Dot { .. } => Ok(Action::Shift {
                new_state: State::State071,
            }),
            _ => Ok(Action::ReduceNeg),
        },
        State::State060 => match next_token {
            Token::If { .. } => Ok(Action::Shift {
                new_state: State::State033,
            }),
            Token::Let { .. } => Ok(Action::Shift {
                new_state: State::State034,
            }),
            Token::While { .. } => Ok(Action::Shift {
                new_state: State::State035,
            }),
            Token::Case { .. } => Ok(Action::Shift {
                new_state: State::State036,
            }),
            Token::New { .. } => Ok(Action::Shift {
                new_state: State::State037,
            }),
            Token::IsVoid { .. } => Ok(Action::Shift {
                new_state: State::State038,
            }),
            Token::StrConst { .. } => Ok(Action::Shift {
                new_state: State::State039,
            }),
            Token::IntConst { .. } => Ok(Action::Shift {
                new_state: State::State040,
            }),
            Token::BoolConst { .. } => Ok(Action::Shift {
                new_state: State::State041,
            }),
            Token::ObjectID { .. } => Ok(Action::Shift {
                new_state: State::State042,
            }),
            Token::Not { .. } => Ok(Action::Shift {
                new_state: State::State043,
            }),
            Token::Neg { .. } => Ok(Action::Shift {
                new_state: State::State044,
            }),
            Token::OpenBrace { .. } => Ok(Action::Shift {
                new_state: State::State045,
            }),
            Token::CloseBrace { .. } => Ok(Action::Shift {
                new_state: State::State081,
            }),
            Token::OpenParen { .. } => Ok(Action::Shift {
                new_state: State::State046,
            }),
            _ => Err(next_line_no)
        },
        State::State061 => match next_token {
            Token::LEq { .. } => Ok(Action::Shift {
                new_state: State::State063,
            }),
            Token::LT { .. } => Ok(Action::Shift {
                new_state: State::State064,
            }),
            Token::Eq { .. } => Ok(Action::Shift {
                new_state: State::State065,
            }),
            Token::Add { .. } => Ok(Action::Shift {
                new_state: State::State066,
            }),
            Token::Sub { .. } => Ok(Action::Shift {
                new_state: State::State067,
            }),
            Token::Mul { .. } => Ok(Action::Shift {
                new_state: State::State068,
            }),
            Token::Div { .. } => Ok(Action::Shift {
                new_state: State::State069,
            }),
            Token::At { .. } => Ok(Action::Shift {
                new_state: State::State070,
            }),
            Token::Dot { .. } => Ok(Action::Shift {
                new_state: State::State071,
            }),
            Token::SemiColon { .. } => Ok(Action::Shift {
                new_state: State::State083,
            }),
            _ => Err(next_line_no)
        },
        State::State062 => match next_token {
            Token::LEq { .. } => Ok(Action::Shift {
                new_state: State::State063,
            }),
            Token::LT { .. } => Ok(Action::Shift {
                new_state: State::State064,
            }),
            Token::Eq { .. } => Ok(Action::Shift {
                new_state: State::State065,
            }),
            Token::Add { .. } => Ok(Action::Shift {
                new_state: State::State066,
            }),
            Token::Sub { .. } => Ok(Action::Shift {
                new_state: State::State067,
            }),
            Token::Mul { .. } => Ok(Action::Shift {
                new_state: State::State068,
            }),
            Token::Div { .. } => Ok(Action::Shift {
                new_state: State::State069,
            }),
            Token::At { .. } => Ok(Action::Shift {
                new_state: State::State070,
            }),
            Token::Dot { .. } => Ok(Action::Shift {
                new_state: State::State071,
            }),
            Token::CloseParen { .. } => Ok(Action::Shift {
                new_state: State::State084,
            }),
            _ => Err(next_line_no)
        },
        State::State063 => match next_token {
            Token::If { .. } => Ok(Action::Shift {
                new_state: State::State033,
            }),
            Token::Let { .. } => Ok(Action::Shift {
                new_state: State::State034,
            }),
            Token::While { .. } => Ok(Action::Shift {
                new_state: State::State035,
            }),
            Token::Case { .. } => Ok(Action::Shift {
                new_state: State::State036,
            }),
            Token::New { .. } => Ok(Action::Shift {
                new_state: State::State037,
            }),
            Token::IsVoid { .. } => Ok(Action::Shift {
                new_state: State::State038,
            }),
            Token::StrConst { .. } => Ok(Action::Shift {
                new_state: State::State039,
            }),
            Token::IntConst { .. } => Ok(Action::Shift {
                new_state: State::State040,
            }),
            Token::BoolConst { .. } => Ok(Action::Shift {
                new_state: State::State041,
            }),
            Token::ObjectID { .. } => Ok(Action::Shift {
                new_state: State::State042,
            }),
            Token::Not { .. } => Ok(Action::Shift {
                new_state: State::State043,
            }),
            Token::Neg { .. } => Ok(Action::Shift {
                new_state: State::State044,
            }),
            Token::OpenBrace { .. } => Ok(Action::Shift {
                new_state: State::State045,
            }),
            Token::OpenParen { .. } => Ok(Action::Shift {
                new_state: State::State046,
            }),
            _ => Err(next_line_no)
        },
        State::State064 => match next_token {
            Token::If { .. } => Ok(Action::Shift {
                new_state: State::State033,
            }),
            Token::Let { .. } => Ok(Action::Shift {
                new_state: State::State034,
            }),
            Token::While { .. } => Ok(Action::Shift {
                new_state: State::State035,
            }),
            Token::Case { .. } => Ok(Action::Shift {
                new_state: State::State036,
            }),
            Token::New { .. } => Ok(Action::Shift {
                new_state: State::State037,
            }),
            Token::IsVoid { .. } => Ok(Action::Shift {
                new_state: State::State038,
            }),
            Token::StrConst { .. } => Ok(Action::Shift {
                new_state: State::State039,
            }),
            Token::IntConst { .. } => Ok(Action::Shift {
                new_state: State::State040,
            }),
            Token::BoolConst { .. } => Ok(Action::Shift {
                new_state: State::State041,
            }),
            Token::ObjectID { .. } => Ok(Action::Shift {
                new_state: State::State042,
            }),
            Token::Not { .. } => Ok(Action::Shift {
                new_state: State::State043,
            }),
            Token::Neg { .. } => Ok(Action::Shift {
                new_state: State::State044,
            }),
            Token::OpenBrace { .. } => Ok(Action::Shift {
                new_state: State::State045,
            }),
            Token::OpenParen { .. } => Ok(Action::Shift {
                new_state: State::State046,
            }),
            _ => Err(next_line_no)
        },
        State::State065 => match next_token {
            Token::If { .. } => Ok(Action::Shift {
                new_state: State::State033,
            }),
            Token::Let { .. } => Ok(Action::Shift {
                new_state: State::State034,
            }),
            Token::While { .. } => Ok(Action::Shift {
                new_state: State::State035,
            }),
            Token::Case { .. } => Ok(Action::Shift {
                new_state: State::State036,
            }),
            Token::New { .. } => Ok(Action::Shift {
                new_state: State::State037,
            }),
            Token::IsVoid { .. } => Ok(Action::Shift {
                new_state: State::State038,
            }),
            Token::StrConst { .. } => Ok(Action::Shift {
                new_state: State::State039,
            }),
            Token::IntConst { .. } => Ok(Action::Shift {
                new_state: State::State040,
            }),
            Token::BoolConst { .. } => Ok(Action::Shift {
                new_state: State::State041,
            }),
            Token::ObjectID { .. } => Ok(Action::Shift {
                new_state: State::State042,
            }),
            Token::Not { .. } => Ok(Action::Shift {
                new_state: State::State043,
            }),
            Token::Neg { .. } => Ok(Action::Shift {
                new_state: State::State044,
            }),
            Token::OpenBrace { .. } => Ok(Action::Shift {
                new_state: State::State045,
            }),
            Token::OpenParen { .. } => Ok(Action::Shift {
                new_state: State::State046,
            }),
            _ => Err(next_line_no)
        },
        State::State066 => match next_token {
            Token::If { .. } => Ok(Action::Shift {
                new_state: State::State033,
            }),
            Token::Let { .. } => Ok(Action::Shift {
                new_state: State::State034,
            }),
            Token::While { .. } => Ok(Action::Shift {
                new_state: State::State035,
            }),
            Token::Case { .. } => Ok(Action::Shift {
                new_state: State::State036,
            }),
            Token::New { .. } => Ok(Action::Shift {
                new_state: State::State037,
            }),
            Token::IsVoid { .. } => Ok(Action::Shift {
                new_state: State::State038,
            }),
            Token::StrConst { .. } => Ok(Action::Shift {
                new_state: State::State039,
            }),
            Token::IntConst { .. } => Ok(Action::Shift {
                new_state: State::State040,
            }),
            Token::BoolConst { .. } => Ok(Action::Shift {
                new_state: State::State041,
            }),
            Token::ObjectID { .. } => Ok(Action::Shift {
                new_state: State::State042,
            }),
            Token::Not { .. } => Ok(Action::Shift {
                new_state: State::State043,
            }),
            Token::Neg { .. } => Ok(Action::Shift {
                new_state: State::State044,
            }),
            Token::OpenBrace { .. } => Ok(Action::Shift {
                new_state: State::State045,
            }),
            Token::OpenParen { .. } => Ok(Action::Shift {
                new_state: State::State046,
            }),
            _ => Err(next_line_no)
        },
        State::State067 => match next_token {
            Token::If { .. } => Ok(Action::Shift {
                new_state: State::State033,
            }),
            Token::Let { .. } => Ok(Action::Shift {
                new_state: State::State034,
            }),
            Token::While { .. } => Ok(Action::Shift {
                new_state: State::State035,
            }),
            Token::Case { .. } => Ok(Action::Shift {
                new_state: State::State036,
            }),
            Token::New { .. } => Ok(Action::Shift {
                new_state: State::State037,
            }),
            Token::IsVoid { .. } => Ok(Action::Shift {
                new_state: State::State038,
            }),
            Token::StrConst { .. } => Ok(Action::Shift {
                new_state: State::State039,
            }),
            Token::IntConst { .. } => Ok(Action::Shift {
                new_state: State::State040,
            }),
            Token::BoolConst { .. } => Ok(Action::Shift {
                new_state: State::State041,
            }),
            Token::ObjectID { .. } => Ok(Action::Shift {
                new_state: State::State042,
            }),
            Token::Not { .. } => Ok(Action::Shift {
                new_state: State::State043,
            }),
            Token::Neg { .. } => Ok(Action::Shift {
                new_state: State::State044,
            }),
            Token::OpenBrace { .. } => Ok(Action::Shift {
                new_state: State::State045,
            }),
            Token::OpenParen { .. } => Ok(Action::Shift {
                new_state: State::State046,
            }),
            _ => Err(next_line_no)
        },
        State::State068 => match next_token {
            Token::If { .. } => Ok(Action::Shift {
                new_state: State::State033,
            }),
            Token::Let { .. } => Ok(Action::Shift {
                new_state: State::State034,
            }),
            Token::While { .. } => Ok(Action::Shift {
                new_state: State::State035,
            }),
            Token::Case { .. } => Ok(Action::Shift {
                new_state: State::State036,
            }),
            Token::New { .. } => Ok(Action::Shift {
                new_state: State::State037,
            }),
            Token::IsVoid { .. } => Ok(Action::Shift {
                new_state: State::State038,
            }),
            Token::StrConst { .. } => Ok(Action::Shift {
                new_state: State::State039,
            }),
            Token::IntConst { .. } => Ok(Action::Shift {
                new_state: State::State040,
            }),
            Token::BoolConst { .. } => Ok(Action::Shift {
                new_state: State::State041,
            }),
            Token::ObjectID { .. } => Ok(Action::Shift {
                new_state: State::State042,
            }),
            Token::Not { .. } => Ok(Action::Shift {
                new_state: State::State043,
            }),
            Token::Neg { .. } => Ok(Action::Shift {
                new_state: State::State044,
            }),
            Token::OpenBrace { .. } => Ok(Action::Shift {
                new_state: State::State045,
            }),
            Token::OpenParen { .. } => Ok(Action::Shift {
                new_state: State::State046,
            }),
            _ => Err(next_line_no)
        },
        State::State069 => match next_token {
            Token::If { .. } => Ok(Action::Shift {
                new_state: State::State033,
            }),
            Token::Let { .. } => Ok(Action::Shift {
                new_state: State::State034,
            }),
            Token::While { .. } => Ok(Action::Shift {
                new_state: State::State035,
            }),
            Token::Case { .. } => Ok(Action::Shift {
                new_state: State::State036,
            }),
            Token::New { .. } => Ok(Action::Shift {
                new_state: State::State037,
            }),
            Token::IsVoid { .. } => Ok(Action::Shift {
                new_state: State::State038,
            }),
            Token::StrConst { .. } => Ok(Action::Shift {
                new_state: State::State039,
            }),
            Token::IntConst { .. } => Ok(Action::Shift {
                new_state: State::State040,
            }),
            Token::BoolConst { .. } => Ok(Action::Shift {
                new_state: State::State041,
            }),
            Token::ObjectID { .. } => Ok(Action::Shift {
                new_state: State::State042,
            }),
            Token::Not { .. } => Ok(Action::Shift {
                new_state: State::State043,
            }),
            Token::Neg { .. } => Ok(Action::Shift {
                new_state: State::State044,
            }),
            Token::OpenBrace { .. } => Ok(Action::Shift {
                new_state: State::State045,
            }),
            Token::OpenParen { .. } => Ok(Action::Shift {
                new_state: State::State046,
            }),
            _ => Err(next_line_no)
        },
        State::State070 => match next_token {
            Token::TypeID { .. } => Ok(Action::Shift {
                new_state: State::State092,
            }),
            _ => Err(next_line_no)
        },
        State::State071 => match next_token {
            Token::ObjectID { .. } => Ok(Action::Shift {
                new_state: State::State093,
            }),
            _ => Err(next_line_no)
        },
        State::State072 => match next_token {
            Token::If { .. } => Ok(Action::Shift {
                new_state: State::State033,
            }),
            Token::Let { .. } => Ok(Action::Shift {
                new_state: State::State034,
            }),
            Token::While { .. } => Ok(Action::Shift {
                new_state: State::State035,
            }),
            Token::Case { .. } => Ok(Action::Shift {
                new_state: State::State036,
            }),
            Token::New { .. } => Ok(Action::Shift {
                new_state: State::State037,
            }),
            Token::IsVoid { .. } => Ok(Action::Shift {
                new_state: State::State038,
            }),
            Token::StrConst { .. } => Ok(Action::Shift {
                new_state: State::State039,
            }),
            Token::IntConst { .. } => Ok(Action::Shift {
                new_state: State::State040,
            }),
            Token::BoolConst { .. } => Ok(Action::Shift {
                new_state: State::State041,
            }),
            Token::ObjectID { .. } => Ok(Action::Shift {
                new_state: State::State042,
            }),
            Token::Not { .. } => Ok(Action::Shift {
                new_state: State::State043,
            }),
            Token::Neg { .. } => Ok(Action::Shift {
                new_state: State::State044,
            }),
            Token::OpenBrace { .. } => Ok(Action::Shift {
                new_state: State::State045,
            }),
            Token::OpenParen { .. } => Ok(Action::Shift {
                new_state: State::State046,
            }),
            _ => Err(next_line_no)
        },
        State::State073 => match next_token {
            Token::If { .. } => Ok(Action::Shift {
                new_state: State::State033,
            }),
            Token::Let { .. } => Ok(Action::Shift {
                new_state: State::State034,
            }),
            Token::While { .. } => Ok(Action::Shift {
                new_state: State::State035,
            }),
            Token::Case { .. } => Ok(Action::Shift {
                new_state: State::State036,
            }),
            Token::New { .. } => Ok(Action::Shift {
                new_state: State::State037,
            }),
            Token::IsVoid { .. } => Ok(Action::Shift {
                new_state: State::State038,
            }),
            Token::StrConst { .. } => Ok(Action::Shift {
                new_state: State::State039,
            }),
            Token::IntConst { .. } => Ok(Action::Shift {
                new_state: State::State040,
            }),
            Token::BoolConst { .. } => Ok(Action::Shift {
                new_state: State::State041,
            }),
            Token::ObjectID { .. } => Ok(Action::Shift {
                new_state: State::State042,
            }),
            Token::Not { .. } => Ok(Action::Shift {
                new_state: State::State043,
            }),
            Token::Neg { .. } => Ok(Action::Shift {
                new_state: State::State044,
            }),
            Token::OpenBrace { .. } => Ok(Action::Shift {
                new_state: State::State045,
            }),
            Token::OpenParen { .. } => Ok(Action::Shift {
                new_state: State::State046,
            }),
            _ => Err(next_line_no)
        },
        State::State074 => match next_token {
            Token::TypeID { .. } => Ok(Action::Shift {
                new_state: State::State096,
            }),
            _ => Err(next_line_no)
        },
        State::State075 => match next_token {
            Token::If { .. } => Ok(Action::Shift {
                new_state: State::State033,
            }),
            Token::Let { .. } => Ok(Action::Shift {
                new_state: State::State034,
            }),
            Token::While { .. } => Ok(Action::Shift {
                new_state: State::State035,
            }),
            Token::Case { .. } => Ok(Action::Shift {
                new_state: State::State036,
            }),
            Token::New { .. } => Ok(Action::Shift {
                new_state: State::State037,
            }),
            Token::IsVoid { .. } => Ok(Action::Shift {
                new_state: State::State038,
            }),
            Token::StrConst { .. } => Ok(Action::Shift {
                new_state: State::State039,
            }),
            Token::IntConst { .. } => Ok(Action::Shift {
                new_state: State::State040,
            }),
            Token::BoolConst { .. } => Ok(Action::Shift {
                new_state: State::State041,
            }),
            Token::ObjectID { .. } => Ok(Action::Shift {
                new_state: State::State042,
            }),
            Token::Not { .. } => Ok(Action::Shift {
                new_state: State::State043,
            }),
            Token::Neg { .. } => Ok(Action::Shift {
                new_state: State::State044,
            }),
            Token::OpenBrace { .. } => Ok(Action::Shift {
                new_state: State::State045,
            }),
            Token::OpenParen { .. } => Ok(Action::Shift {
                new_state: State::State046,
            }),
            _ => Err(next_line_no)
        },
        State::State076 => match next_token {
            Token::ObjectID { .. } => Ok(Action::Shift {
                new_state: State::State098,
            }),
            _ => Err(next_line_no)
        },
        State::State077 => match next_token {
            Token::LEq { .. } => Ok(Action::Shift {
                new_state: State::State063,
            }),
            Token::LT { .. } => Ok(Action::Shift {
                new_state: State::State064,
            }),
            Token::Eq { .. } => Ok(Action::Shift {
                new_state: State::State065,
            }),
            Token::Add { .. } => Ok(Action::Shift {
                new_state: State::State066,
            }),
            Token::Sub { .. } => Ok(Action::Shift {
                new_state: State::State067,
            }),
            Token::Mul { .. } => Ok(Action::Shift {
                new_state: State::State068,
            }),
            Token::Div { .. } => Ok(Action::Shift {
                new_state: State::State069,
            }),
            Token::At { .. } => Ok(Action::Shift {
                new_state: State::State070,
            }),
            Token::Dot { .. } => Ok(Action::Shift {
                new_state: State::State071,
            }),
            _ => Ok(Action::ReduceAssign),
        },
        State::State078 => match next_token {
            Token::Comma { .. } => Ok(Action::Shift {
                new_state: State::State101,
            }),
            _ => Ok(Action::ReduceExprListC { is_empty: false }),
        },
        State::State079 => match next_token {
            Token::CloseParen { .. } => Ok(Action::Shift {
                new_state: State::State102,
            }),
            _ => Err(next_line_no)
        },
        State::State080 => match next_token {
            Token::LEq { .. } => Ok(Action::Shift {
                new_state: State::State063,
            }),
            Token::LT { .. } => Ok(Action::Shift {
                new_state: State::State064,
            }),
            Token::Eq { .. } => Ok(Action::Shift {
                new_state: State::State065,
            }),
            Token::Add { .. } => Ok(Action::Shift {
                new_state: State::State066,
            }),
            Token::Sub { .. } => Ok(Action::Shift {
                new_state: State::State067,
            }),
            Token::Mul { .. } => Ok(Action::Shift {
                new_state: State::State068,
            }),
            Token::Div { .. } => Ok(Action::Shift {
                new_state: State::State069,
            }),
            Token::At { .. } => Ok(Action::Shift {
                new_state: State::State070,
            }),
            Token::Dot { .. } => Ok(Action::Shift {
                new_state: State::State071,
            }),
            _ => Ok(Action::ReduceExprListCNE { is_empty: true }),
        },
        State::State081 => Ok(Action::ReduceBlock),
        State::State082 => match next_token {
            Token::LEq { .. } => Ok(Action::Shift {
                new_state: State::State063,
            }),
            Token::LT { .. } => Ok(Action::Shift {
                new_state: State::State064,
            }),
            Token::Eq { .. } => Ok(Action::Shift {
                new_state: State::State065,
            }),
            Token::Add { .. } => Ok(Action::Shift {
                new_state: State::State066,
            }),
            Token::Sub { .. } => Ok(Action::Shift {
                new_state: State::State067,
            }),
            Token::Mul { .. } => Ok(Action::Shift {
                new_state: State::State068,
            }),
            Token::Div { .. } => Ok(Action::Shift {
                new_state: State::State069,
            }),
            Token::At { .. } => Ok(Action::Shift {
                new_state: State::State070,
            }),
            Token::Dot { .. } => Ok(Action::Shift {
                new_state: State::State071,
            }),
            Token::SemiColon { .. } => Ok(Action::Shift {
                new_state: State::State103,
            }),
            _ => Err(next_line_no)
        },
        State::State083 => Ok(Action::ReduceExprListSC { is_empty: true }),
        State::State084 => Ok(Action::ReduceParen),
        State::State085 => match next_token {
            Token::Add { .. } => Ok(Action::Shift {
                new_state: State::State066,
            }),
            Token::Sub { .. } => Ok(Action::Shift {
                new_state: State::State067,
            }),
            Token::Mul { .. } => Ok(Action::Shift {
                new_state: State::State068,
            }),
            Token::Div { .. } => Ok(Action::Shift {
                new_state: State::State069,
            }),
            Token::At { .. } => Ok(Action::Shift {
                new_state: State::State070,
            }),
            Token::Dot { .. } => Ok(Action::Shift {
                new_state: State::State071,
            }),
            _ => Ok(Action::ReduceComp),
        },
        State::State086 => match next_token {
            Token::Add { .. } => Ok(Action::Shift {
                new_state: State::State066,
            }),
            Token::Sub { .. } => Ok(Action::Shift {
                new_state: State::State067,
            }),
            Token::Mul { .. } => Ok(Action::Shift {
                new_state: State::State068,
            }),
            Token::Div { .. } => Ok(Action::Shift {
                new_state: State::State069,
            }),
            Token::At { .. } => Ok(Action::Shift {
                new_state: State::State070,
            }),
            Token::Dot { .. } => Ok(Action::Shift {
                new_state: State::State071,
            }),
            _ => Ok(Action::ReduceComp),
        },
        State::State087 => match next_token {
            Token::Add { .. } => Ok(Action::Shift {
                new_state: State::State066,
            }),
            Token::Sub { .. } => Ok(Action::Shift {
                new_state: State::State067,
            }),
            Token::Mul { .. } => Ok(Action::Shift {
                new_state: State::State068,
            }),
            Token::Div { .. } => Ok(Action::Shift {
                new_state: State::State069,
            }),
            Token::At { .. } => Ok(Action::Shift {
                new_state: State::State070,
            }),
            Token::Dot { .. } => Ok(Action::Shift {
                new_state: State::State071,
            }),
            _ => Ok(Action::ReduceEq),
        },
        State::State088 => match next_token {
            Token::Mul { .. } => Ok(Action::Shift {
                new_state: State::State068,
            }),
            Token::Div { .. } => Ok(Action::Shift {
                new_state: State::State069,
            }),
            Token::At { .. } => Ok(Action::Shift {
                new_state: State::State070,
            }),
            Token::Dot { .. } => Ok(Action::Shift {
                new_state: State::State071,
            }),
            _ => Ok(Action::ReduceArith),
        },
        State::State089 => match next_token {
            Token::Mul { .. } => Ok(Action::Shift {
                new_state: State::State068,
            }),
            Token::Div { .. } => Ok(Action::Shift {
                new_state: State::State069,
            }),
            Token::At { .. } => Ok(Action::Shift {
                new_state: State::State070,
            }),
            Token::Dot { .. } => Ok(Action::Shift {
                new_state: State::State071,
            }),
            _ => Ok(Action::ReduceArith),
        },
        State::State090 => match next_token {
            Token::At { .. } => Ok(Action::Shift {
                new_state: State::State070,
            }),
            Token::Dot { .. } => Ok(Action::Shift {
                new_state: State::State071,
            }),
            _ => Ok(Action::ReduceArith),
        },
        State::State091 => match next_token {
            Token::At { .. } => Ok(Action::Shift {
                new_state: State::State070,
            }),
            Token::Dot { .. } => Ok(Action::Shift {
                new_state: State::State071,
            }),
            _ => Ok(Action::ReduceArith),
        },
        State::State092 => match next_token {
            Token::Dot { .. } => Ok(Action::Shift {
                new_state: State::State104,
            }),
            _ => Err(next_line_no)
        },
        State::State093 => match next_token {
            Token::OpenParen { .. } => Ok(Action::Shift {
                new_state: State::State105,
            }),
            _ => Err(next_line_no)
        },
        State::State094 => match next_token {
            Token::LEq { .. } => Ok(Action::Shift {
                new_state: State::State063,
            }),
            Token::LT { .. } => Ok(Action::Shift {
                new_state: State::State064,
            }),
            Token::Eq { .. } => Ok(Action::Shift {
                new_state: State::State065,
            }),
            Token::Add { .. } => Ok(Action::Shift {
                new_state: State::State066,
            }),
            Token::Sub { .. } => Ok(Action::Shift {
                new_state: State::State067,
            }),
            Token::Mul { .. } => Ok(Action::Shift {
                new_state: State::State068,
            }),
            Token::Div { .. } => Ok(Action::Shift {
                new_state: State::State069,
            }),
            Token::At { .. } => Ok(Action::Shift {
                new_state: State::State070,
            }),
            Token::Dot { .. } => Ok(Action::Shift {
                new_state: State::State071,
            }),
            Token::CloseBrace { .. } => Ok(Action::Shift {
                new_state: State::State106,
            }),
            _ => Err(next_line_no)
        },
        State::State095 => match next_token {
            Token::Else { .. } => Ok(Action::Shift {
                new_state: State::State107,
            }),
            Token::LEq { .. } => Ok(Action::Shift {
                new_state: State::State063,
            }),
            Token::LT { .. } => Ok(Action::Shift {
                new_state: State::State064,
            }),
            Token::Eq { .. } => Ok(Action::Shift {
                new_state: State::State065,
            }),
            Token::Add { .. } => Ok(Action::Shift {
                new_state: State::State066,
            }),
            Token::Sub { .. } => Ok(Action::Shift {
                new_state: State::State067,
            }),
            Token::Mul { .. } => Ok(Action::Shift {
                new_state: State::State068,
            }),
            Token::Div { .. } => Ok(Action::Shift {
                new_state: State::State069,
            }),
            Token::At { .. } => Ok(Action::Shift {
                new_state: State::State070,
            }),
            Token::Dot { .. } => Ok(Action::Shift {
                new_state: State::State071,
            }),
            _ => Err(next_line_no)
        },
        State::State096 => match next_token {
            Token::In { .. } => Ok(Action::Shift {
                new_state: State::State108,
            }),
            Token::Assign { .. } => Ok(Action::Shift {
                new_state: State::State109,
            }),
            Token::Comma { .. } => Ok(Action::Shift {
                new_state: State::State110,
            }),
            _ => Err(next_line_no)
        },
        State::State097 => match next_token {
            Token::Pool { .. } => Ok(Action::Shift {
                new_state: State::State111,
            }),
            Token::LEq { .. } => Ok(Action::Shift {
                new_state: State::State063,
            }),
            Token::LT { .. } => Ok(Action::Shift {
                new_state: State::State064,
            }),
            Token::Eq { .. } => Ok(Action::Shift {
                new_state: State::State065,
            }),
            Token::Add { .. } => Ok(Action::Shift {
                new_state: State::State066,
            }),
            Token::Sub { .. } => Ok(Action::Shift {
                new_state: State::State067,
            }),
            Token::Mul { .. } => Ok(Action::Shift {
                new_state: State::State068,
            }),
            Token::Div { .. } => Ok(Action::Shift {
                new_state: State::State069,
            }),
            Token::At { .. } => Ok(Action::Shift {
                new_state: State::State070,
            }),
            Token::Dot { .. } => Ok(Action::Shift {
                new_state: State::State071,
            }),
            _ => Err(next_line_no)
        },
        State::State098 => match next_token {
            Token::Colon { .. } => Ok(Action::Shift {
                new_state: State::State112,
            }),
            _ => Err(next_line_no)
        },
        State::State099 => match next_token {
            Token::Esac { .. } => Ok(Action::Shift {
                new_state: State::State113,
            }),
            Token::ObjectID { .. } => Ok(Action::Shift {
                new_state: State::State098,
            }),
            _ => Err(next_line_no)
        },
        State::State100 => match next_token {
            Token::SemiColon { .. } => Ok(Action::Shift {
                new_state: State::State115,
            }),
            _ => Err(next_line_no)
        },
        State::State101 => match next_token {
            Token::If { .. } => Ok(Action::Shift {
                new_state: State::State033,
            }),
            Token::Let { .. } => Ok(Action::Shift {
                new_state: State::State034,
            }),
            Token::While { .. } => Ok(Action::Shift {
                new_state: State::State035,
            }),
            Token::Case { .. } => Ok(Action::Shift {
                new_state: State::State036,
            }),
            Token::New { .. } => Ok(Action::Shift {
                new_state: State::State037,
            }),
            Token::IsVoid { .. } => Ok(Action::Shift {
                new_state: State::State038,
            }),
            Token::StrConst { .. } => Ok(Action::Shift {
                new_state: State::State039,
            }),
            Token::IntConst { .. } => Ok(Action::Shift {
                new_state: State::State040,
            }),
            Token::BoolConst { .. } => Ok(Action::Shift {
                new_state: State::State041,
            }),
            Token::ObjectID { .. } => Ok(Action::Shift {
                new_state: State::State042,
            }),
            Token::Not { .. } => Ok(Action::Shift {
                new_state: State::State043,
            }),
            Token::Neg { .. } => Ok(Action::Shift {
                new_state: State::State044,
            }),
            Token::OpenBrace { .. } => Ok(Action::Shift {
                new_state: State::State045,
            }),
            Token::OpenParen { .. } => Ok(Action::Shift {
                new_state: State::State046,
            }),
            _ => Err(next_line_no)
        },
        State::State102 => Ok(Action::ReduceDispatch {
            dispatch_type: DispatchType::OnSelf,
        }),
        State::State103 => Ok(Action::ReduceExprListSC { is_empty: false }),
        State::State104 => match next_token {
            Token::ObjectID { .. } => Ok(Action::Shift {
                new_state: State::State117,
            }),
            _ => Err(next_line_no)
        },
        State::State105 => match next_token {
            Token::If { .. } => Ok(Action::Shift {
                new_state: State::State033,
            }),
            Token::Let { .. } => Ok(Action::Shift {
                new_state: State::State034,
            }),
            Token::While { .. } => Ok(Action::Shift {
                new_state: State::State035,
            }),
            Token::Case { .. } => Ok(Action::Shift {
                new_state: State::State036,
            }),
            Token::New { .. } => Ok(Action::Shift {
                new_state: State::State037,
            }),
            Token::IsVoid { .. } => Ok(Action::Shift {
                new_state: State::State038,
            }),
            Token::StrConst { .. } => Ok(Action::Shift {
                new_state: State::State039,
            }),
            Token::IntConst { .. } => Ok(Action::Shift {
                new_state: State::State040,
            }),
            Token::BoolConst { .. } => Ok(Action::Shift {
                new_state: State::State041,
            }),
            Token::ObjectID { .. } => Ok(Action::Shift {
                new_state: State::State042,
            }),
            Token::Not { .. } => Ok(Action::Shift {
                new_state: State::State043,
            }),
            Token::Neg { .. } => Ok(Action::Shift {
                new_state: State::State044,
            }),
            Token::OpenBrace { .. } => Ok(Action::Shift {
                new_state: State::State045,
            }),
            Token::OpenParen { .. } => Ok(Action::Shift {
                new_state: State::State046,
            }),
            _ => Ok(Action::ReduceExprListC { is_empty: true }),
        },
        State::State106 => Ok(Action::ReduceMethod),
        State::State107 => match next_token {
            Token::If { .. } => Ok(Action::Shift {
                new_state: State::State033,
            }),
            Token::Let { .. } => Ok(Action::Shift {
                new_state: State::State034,
            }),
            Token::While { .. } => Ok(Action::Shift {
                new_state: State::State035,
            }),
            Token::Case { .. } => Ok(Action::Shift {
                new_state: State::State036,
            }),
            Token::New { .. } => Ok(Action::Shift {
                new_state: State::State037,
            }),
            Token::IsVoid { .. } => Ok(Action::Shift {
                new_state: State::State038,
            }),
            Token::StrConst { .. } => Ok(Action::Shift {
                new_state: State::State039,
            }),
            Token::IntConst { .. } => Ok(Action::Shift {
                new_state: State::State040,
            }),
            Token::BoolConst { .. } => Ok(Action::Shift {
                new_state: State::State041,
            }),
            Token::ObjectID { .. } => Ok(Action::Shift {
                new_state: State::State042,
            }),
            Token::Not { .. } => Ok(Action::Shift {
                new_state: State::State043,
            }),
            Token::Neg { .. } => Ok(Action::Shift {
                new_state: State::State044,
            }),
            Token::OpenBrace { .. } => Ok(Action::Shift {
                new_state: State::State045,
            }),
            Token::OpenParen { .. } => Ok(Action::Shift {
                new_state: State::State046,
            }),
            _ => Err(next_line_no)
        },
        State::State108 => match next_token {
            Token::If { .. } => Ok(Action::Shift {
                new_state: State::State033,
            }),
            Token::Let { .. } => Ok(Action::Shift {
                new_state: State::State034,
            }),
            Token::While { .. } => Ok(Action::Shift {
                new_state: State::State035,
            }),
            Token::Case { .. } => Ok(Action::Shift {
                new_state: State::State036,
            }),
            Token::New { .. } => Ok(Action::Shift {
                new_state: State::State037,
            }),
            Token::IsVoid { .. } => Ok(Action::Shift {
                new_state: State::State038,
            }),
            Token::StrConst { .. } => Ok(Action::Shift {
                new_state: State::State039,
            }),
            Token::IntConst { .. } => Ok(Action::Shift {
                new_state: State::State040,
            }),
            Token::BoolConst { .. } => Ok(Action::Shift {
                new_state: State::State041,
            }),
            Token::ObjectID { .. } => Ok(Action::Shift {
                new_state: State::State042,
            }),
            Token::Not { .. } => Ok(Action::Shift {
                new_state: State::State043,
            }),
            Token::Neg { .. } => Ok(Action::Shift {
                new_state: State::State044,
            }),
            Token::OpenBrace { .. } => Ok(Action::Shift {
                new_state: State::State045,
            }),
            Token::OpenParen { .. } => Ok(Action::Shift {
                new_state: State::State046,
            }),
            _ => Err(next_line_no)
        },
        State::State109 => match next_token {
            Token::If { .. } => Ok(Action::Shift {
                new_state: State::State033,
            }),
            Token::Let { .. } => Ok(Action::Shift {
                new_state: State::State034,
            }),
            Token::While { .. } => Ok(Action::Shift {
                new_state: State::State035,
            }),
            Token::Case { .. } => Ok(Action::Shift {
                new_state: State::State036,
            }),
            Token::New { .. } => Ok(Action::Shift {
                new_state: State::State037,
            }),
            Token::IsVoid { .. } => Ok(Action::Shift {
                new_state: State::State038,
            }),
            Token::StrConst { .. } => Ok(Action::Shift {
                new_state: State::State039,
            }),
            Token::IntConst { .. } => Ok(Action::Shift {
                new_state: State::State040,
            }),
            Token::BoolConst { .. } => Ok(Action::Shift {
                new_state: State::State041,
            }),
            Token::ObjectID { .. } => Ok(Action::Shift {
                new_state: State::State042,
            }),
            Token::Not { .. } => Ok(Action::Shift {
                new_state: State::State043,
            }),
            Token::Neg { .. } => Ok(Action::Shift {
                new_state: State::State044,
            }),
            Token::OpenBrace { .. } => Ok(Action::Shift {
                new_state: State::State045,
            }),
            Token::OpenParen { .. } => Ok(Action::Shift {
                new_state: State::State046,
            }),
            _ => Err(next_line_no)
        },
        State::State110 => match next_token {
            Token::ObjectID { .. } => Ok(Action::Shift {
                new_state: State::State050,
            }),
            _ => Err(next_line_no)
        },
        State::State111 => Ok(Action::ReduceWhile),
        State::State112 => match next_token {
            Token::TypeID { .. } => Ok(Action::Shift {
                new_state: State::State123,
            }),
            _ => Err(next_line_no)
        },
        State::State113 => Ok(Action::ReduceTypeCase),
        State::State114 => match next_token {
            Token::SemiColon { .. } => Ok(Action::Shift {
                new_state: State::State124,
            }),
            _ => Err(next_line_no)
        },
        State::State115 => Ok(Action::ReduceBranchList { is_empty: true }),
        State::State116 => match next_token {
            Token::LEq { .. } => Ok(Action::Shift {
                new_state: State::State063,
            }),
            Token::LT { .. } => Ok(Action::Shift {
                new_state: State::State064,
            }),
            Token::Eq { .. } => Ok(Action::Shift {
                new_state: State::State065,
            }),
            Token::Add { .. } => Ok(Action::Shift {
                new_state: State::State066,
            }),
            Token::Sub { .. } => Ok(Action::Shift {
                new_state: State::State067,
            }),
            Token::Mul { .. } => Ok(Action::Shift {
                new_state: State::State068,
            }),
            Token::Div { .. } => Ok(Action::Shift {
                new_state: State::State069,
            }),
            Token::At { .. } => Ok(Action::Shift {
                new_state: State::State070,
            }),
            Token::Dot { .. } => Ok(Action::Shift {
                new_state: State::State071,
            }),
            _ => Ok(Action::ReduceExprListCNE { is_empty: false }),
        },
        State::State117 => match next_token {
            Token::OpenParen { .. } => Ok(Action::Shift {
                new_state: State::State125,
            }),
            _ => Err(next_line_no)
        },
        State::State118 => match next_token {
            Token::CloseParen { .. } => Ok(Action::Shift {
                new_state: State::State126,
            }),
            _ => Err(next_line_no)
        },
        State::State119 => match next_token {
            Token::Fi { .. } => Ok(Action::Shift {
                new_state: State::State127,
            }),
            Token::LEq { .. } => Ok(Action::Shift {
                new_state: State::State063,
            }),
            Token::LT { .. } => Ok(Action::Shift {
                new_state: State::State064,
            }),
            Token::Eq { .. } => Ok(Action::Shift {
                new_state: State::State065,
            }),
            Token::Add { .. } => Ok(Action::Shift {
                new_state: State::State066,
            }),
            Token::Sub { .. } => Ok(Action::Shift {
                new_state: State::State067,
            }),
            Token::Mul { .. } => Ok(Action::Shift {
                new_state: State::State068,
            }),
            Token::Div { .. } => Ok(Action::Shift {
                new_state: State::State069,
            }),
            Token::At { .. } => Ok(Action::Shift {
                new_state: State::State070,
            }),
            Token::Dot { .. } => Ok(Action::Shift {
                new_state: State::State071,
            }),
            _ => Err(next_line_no)
        },
        State::State120 => match next_token {
            Token::LEq { .. } => Ok(Action::Shift {
                new_state: State::State063,
            }),
            Token::LT { .. } => Ok(Action::Shift {
                new_state: State::State064,
            }),
            Token::Eq { .. } => Ok(Action::Shift {
                new_state: State::State065,
            }),
            Token::Add { .. } => Ok(Action::Shift {
                new_state: State::State066,
            }),
            Token::Sub { .. } => Ok(Action::Shift {
                new_state: State::State067,
            }),
            Token::Mul { .. } => Ok(Action::Shift {
                new_state: State::State068,
            }),
            Token::Div { .. } => Ok(Action::Shift {
                new_state: State::State069,
            }),
            Token::At { .. } => Ok(Action::Shift {
                new_state: State::State070,
            }),
            Token::Dot { .. } => Ok(Action::Shift {
                new_state: State::State071,
            }),
            _ => Ok(Action::ReduceExprLet { has_init: false }),
        },
        State::State121 => match next_token {
            Token::In { .. } => Ok(Action::Shift {
                new_state: State::State128,
            }),
            Token::LEq { .. } => Ok(Action::Shift {
                new_state: State::State063,
            }),
            Token::LT { .. } => Ok(Action::Shift {
                new_state: State::State064,
            }),
            Token::Eq { .. } => Ok(Action::Shift {
                new_state: State::State065,
            }),
            Token::Add { .. } => Ok(Action::Shift {
                new_state: State::State066,
            }),
            Token::Sub { .. } => Ok(Action::Shift {
                new_state: State::State067,
            }),
            Token::Mul { .. } => Ok(Action::Shift {
                new_state: State::State068,
            }),
            Token::Div { .. } => Ok(Action::Shift {
                new_state: State::State069,
            }),
            Token::At { .. } => Ok(Action::Shift {
                new_state: State::State070,
            }),
            Token::Dot { .. } => Ok(Action::Shift {
                new_state: State::State071,
            }),
            Token::Comma { .. } => Ok(Action::Shift {
                new_state: State::State129,
            }),
            _ => Err(next_line_no)
        },
        State::State122 => Ok(Action::ReduceExprLet { has_init: false }),
        State::State123 => match next_token {
            Token::DArrow { .. } => Ok(Action::Shift {
                new_state: State::State130,
            }),
            _ => Err(next_line_no)
        },
        State::State124 => Ok(Action::ReduceBranchList { is_empty: false }),
        State::State125 => match next_token {
            Token::If { .. } => Ok(Action::Shift {
                new_state: State::State033,
            }),
            Token::Let { .. } => Ok(Action::Shift {
                new_state: State::State034,
            }),
            Token::While { .. } => Ok(Action::Shift {
                new_state: State::State035,
            }),
            Token::Case { .. } => Ok(Action::Shift {
                new_state: State::State036,
            }),
            Token::New { .. } => Ok(Action::Shift {
                new_state: State::State037,
            }),
            Token::IsVoid { .. } => Ok(Action::Shift {
                new_state: State::State038,
            }),
            Token::StrConst { .. } => Ok(Action::Shift {
                new_state: State::State039,
            }),
            Token::IntConst { .. } => Ok(Action::Shift {
                new_state: State::State040,
            }),
            Token::BoolConst { .. } => Ok(Action::Shift {
                new_state: State::State041,
            }),
            Token::ObjectID { .. } => Ok(Action::Shift {
                new_state: State::State042,
            }),
            Token::Not { .. } => Ok(Action::Shift {
                new_state: State::State043,
            }),
            Token::Neg { .. } => Ok(Action::Shift {
                new_state: State::State044,
            }),
            Token::OpenBrace { .. } => Ok(Action::Shift {
                new_state: State::State045,
            }),
            Token::OpenParen { .. } => Ok(Action::Shift {
                new_state: State::State046,
            }),
            _ => Ok(Action::ReduceExprListC { is_empty: true }),
        },
        State::State126 => Ok(Action::ReduceDispatch {
            dispatch_type: DispatchType::OnExpr,
        }),
        State::State127 => Ok(Action::ReduceCond),
        State::State128 => match next_token {
            Token::If { .. } => Ok(Action::Shift {
                new_state: State::State033,
            }),
            Token::Let { .. } => Ok(Action::Shift {
                new_state: State::State034,
            }),
            Token::While { .. } => Ok(Action::Shift {
                new_state: State::State035,
            }),
            Token::Case { .. } => Ok(Action::Shift {
                new_state: State::State036,
            }),
            Token::New { .. } => Ok(Action::Shift {
                new_state: State::State037,
            }),
            Token::IsVoid { .. } => Ok(Action::Shift {
                new_state: State::State038,
            }),
            Token::StrConst { .. } => Ok(Action::Shift {
                new_state: State::State039,
            }),
            Token::IntConst { .. } => Ok(Action::Shift {
                new_state: State::State040,
            }),
            Token::BoolConst { .. } => Ok(Action::Shift {
                new_state: State::State041,
            }),
            Token::ObjectID { .. } => Ok(Action::Shift {
                new_state: State::State042,
            }),
            Token::Not { .. } => Ok(Action::Shift {
                new_state: State::State043,
            }),
            Token::Neg { .. } => Ok(Action::Shift {
                new_state: State::State044,
            }),
            Token::OpenBrace { .. } => Ok(Action::Shift {
                new_state: State::State045,
            }),
            Token::OpenParen { .. } => Ok(Action::Shift {
                new_state: State::State046,
            }),
            _ => Err(next_line_no)
        },
        State::State129 => match next_token {
            Token::ObjectID { .. } => Ok(Action::Shift {
                new_state: State::State050,
            }),
            _ => Err(next_line_no)
        },
        State::State130 => match next_token {
            Token::If { .. } => Ok(Action::Shift {
                new_state: State::State033,
            }),
            Token::Let { .. } => Ok(Action::Shift {
                new_state: State::State034,
            }),
            Token::While { .. } => Ok(Action::Shift {
                new_state: State::State035,
            }),
            Token::Case { .. } => Ok(Action::Shift {
                new_state: State::State036,
            }),
            Token::New { .. } => Ok(Action::Shift {
                new_state: State::State037,
            }),
            Token::IsVoid { .. } => Ok(Action::Shift {
                new_state: State::State038,
            }),
            Token::StrConst { .. } => Ok(Action::Shift {
                new_state: State::State039,
            }),
            Token::IntConst { .. } => Ok(Action::Shift {
                new_state: State::State040,
            }),
            Token::BoolConst { .. } => Ok(Action::Shift {
                new_state: State::State041,
            }),
            Token::ObjectID { .. } => Ok(Action::Shift {
                new_state: State::State042,
            }),
            Token::Not { .. } => Ok(Action::Shift {
                new_state: State::State043,
            }),
            Token::Neg { .. } => Ok(Action::Shift {
                new_state: State::State044,
            }),
            Token::OpenBrace { .. } => Ok(Action::Shift {
                new_state: State::State045,
            }),
            Token::OpenParen { .. } => Ok(Action::Shift {
                new_state: State::State046,
            }),
            _ => Err(next_line_no)
        },
        State::State131 => match next_token {
            Token::CloseParen { .. } => Ok(Action::Shift {
                new_state: State::State135,
            }),
            _ => Err(next_line_no)
        },
        State::State132 => match next_token {
            Token::LEq { .. } => Ok(Action::Shift {
                new_state: State::State063,
            }),
            Token::LT { .. } => Ok(Action::Shift {
                new_state: State::State064,
            }),
            Token::Eq { .. } => Ok(Action::Shift {
                new_state: State::State065,
            }),
            Token::Add { .. } => Ok(Action::Shift {
                new_state: State::State066,
            }),
            Token::Sub { .. } => Ok(Action::Shift {
                new_state: State::State067,
            }),
            Token::Mul { .. } => Ok(Action::Shift {
                new_state: State::State068,
            }),
            Token::Div { .. } => Ok(Action::Shift {
                new_state: State::State069,
            }),
            Token::At { .. } => Ok(Action::Shift {
                new_state: State::State070,
            }),
            Token::Dot { .. } => Ok(Action::Shift {
                new_state: State::State071,
            }),
            _ => Ok(Action::ReduceExprLet { has_init: true }),
        },
        State::State133 => Ok(Action::ReduceExprLet { has_init: true }),
        State::State134 => match next_token {
            Token::LEq { .. } => Ok(Action::Shift {
                new_state: State::State063,
            }),
            Token::LT { .. } => Ok(Action::Shift {
                new_state: State::State064,
            }),
            Token::Eq { .. } => Ok(Action::Shift {
                new_state: State::State065,
            }),
            Token::Add { .. } => Ok(Action::Shift {
                new_state: State::State066,
            }),
            Token::Sub { .. } => Ok(Action::Shift {
                new_state: State::State067,
            }),
            Token::Mul { .. } => Ok(Action::Shift {
                new_state: State::State068,
            }),
            Token::Div { .. } => Ok(Action::Shift {
                new_state: State::State069,
            }),
            Token::At { .. } => Ok(Action::Shift {
                new_state: State::State070,
            }),
            Token::Dot { .. } => Ok(Action::Shift {
                new_state: State::State071,
            }),
            _ => Ok(Action::ReduceBranch),
        },
        State::State135 => Ok(Action::ReduceDispatch {
            dispatch_type: DispatchType::Static,
        }),
    }
}

/// The state that follows the reduction to a list of classes, by the state
/// below it on the stack.
pub open spec fn goto_class_list(top_state: State) -> Option<State> {
    match top_state {
        State::StateInitial => Some(State::State002),
        _ => None,
    }
}

/// The state that follows the reduction to a list of classes. The state
/// below it on the stack must be one in which the parser can expect it.
pub fn get_reduce_new_state_class_list(top_state: State) -> (r: State)
    requires
        goto_class_list(top_state) is Some,
    ensures
        Some(r) == goto_class_list(top_state),
{
    match top_state {
        State::StateInitial => State::State002,
        _ => vstd::pervasive::unreached(),
    }
}

/// The state that follows the reduction to a class, by the state
/// below it on the stack.
pub open spec fn goto_class(top_state: State) -> Option<State> {
    match top_state {
        State::StateInitial => Some(State::State003),
        State::State002 => Some(State::State005),
        _ => None,
    }
}

/// The state that follows the reduction to a class. The state
/// below it on the stack must be one in which the parser can expect it.
pub fn get_reduce_new_state_class(top_state: State) -> (r: State)
    requires
        goto_class(top_state) is Some,
    ensures
        Some(r) == goto_class(top_state),
{
    match top_state {
        State::StateInitial => State::State003,
        State::State002 => State::State005,
        _ => vstd::pervasive::unreached(),
    }
}

/// The state that follows the reduction to a list of features, by the state
/// below it on the stack.
pub open spec fn goto_feature_list(top_state: State) -> Option<State> {
    match top_state {
        State::State008 => Some(State::State011),
        State::State012 => Some(State::State016),
        _ => None,
    }
}

/// The state that follows the reduction to a list of features. The state
/// below it on the stack must be one in which the parser can expect it.
pub fn get_reduce_new_state_feature_list(top_state: State) -> (r: State)
    requires
        goto_feature_list(top_state) is Some,
    ensures
        Some(r) == goto_feature_list(top_state),
{
    match top_state {
        State::State008 => State::State011,
        State::State012 => State::State016,
        _ => vstd::pervasive::unreached(),
    }
}

/// The state that follows the reduction to a feature, by the state
/// below it on the stack.
pub open spec fn goto_feature(top_state: State) -> Option<State> {
    match top_state {
        State::State011 => Some(State::State015),
        State::State016 => Some(State::State015),
        _ => None,
    }
}

/// The state that follows the reduction to a feature. The state
/// below it on the stack must be one in which the parser can expect it.
pub fn get_reduce_new_state_feature(top_state: State) -> (r: State)
    requires
        goto_feature(top_state) is Some,
    ensures
        Some(r) == goto_feature(top_state),
{
    match top_state {
        State::State011 => State::State015,
        State::State016 => State::State015,
        _ => vstd::pervasive::unreached(),
    }
}

/// The state that follows the reduction to a non-empty list of formals, by the state
/// below it on the stack.
pub open spec fn goto_formal_list_ne(top_state: State) -> Option<State> {
    match top_state {
        State::State017 => Some(State::State022),
        _ => None,
    }
}

/// The state that follows the reduction to a non-empty list of formals. The state
/// below it on the stack must be one in which the parser can expect it.
pub fn get_reduce_new_state_formal_list_ne(top_state: State) -> (r: State)
    requires
        goto_formal_list_ne(top_state) is Some,
    ensures
        Some(r) == goto_formal_list_ne(top_state),
{
    match top_state {
        State::State017 => State::State022,
        _ => vstd::pervasive::unreached(),
    }
}

/// The state that follows the reduction to a list of formals, by the state
/// below it on the stack.
pub open spec fn goto_formal_list(top_state: State) -> Option<State> {
    match top_state {
        State::State017 => Some(State::State023),
        _ => None,
    }
}

/// The state that follows the reduction to a list of formals. The state
/// below it on the stack must be one in which the parser can expect it.
pub fn get_reduce_new_state_formal_list(top_state: State) -> (r: State)
    requires
        goto_formal_list(top_state) is Some,
    ensures
        Some(r) == goto_formal_list(top_state),
{
    match top_state {
        State::State017 => State::State023,
        _ => vstd::pervasive::unreached(),
    }
}

/// The state that follows the reduction to a formal, by the state
/// below it on the stack.
pub open spec fn goto_formal(top_state: State) -> Option<State> {
    match top_state {
        State::State017 => Some(State::State024),
        State::State027 => Some(State::State031),
        _ => None,
    }
}

/// The state that follows the reduction to a formal. The state
/// below it on the stack must be one in which the parser can expect it.
pub fn get_reduce_new_state_formal(top_state: State) -> (r: State)
    requires
        goto_formal(top_state) is Some,
    ensures
        Some(r) == goto_formal(top_state),
{
    match top_state {
        State::State017 => State::State024,
        State::State027 => State::State031,
        _ => vstd::pervasive::unreached(),
    }
}

/// The state that follows the reduction to a list of branches, by the state
/// below it on the stack.
pub open spec fn goto_branch_list(top_state: State) -> Option<State> {
    match top_state {
        State::State076 => Some(State::State099),
        _ => None,
    }
}

/// The state that follows the reduction to a list of branches. The state
/// below it on the stack must be one in which the parser can expect it.
pub fn get_reduce_new_state_branch_list(top_state: State) -> (r: State)
    requires
        goto_branch_list(top_state) is Some,
    ensures
        Some(r) == goto_branch_list(top_state),
{
    match top_state {
        State::State076 => State::State099,
        _ => vstd::pervasive::unreached(),
    }
}

/// The state that follows the reduction to a branch, by the state
/// below it on the stack.
pub open spec fn goto_branch(top_state: State) -> Option<State> {
    match top_state {
        State::State076 => Some(State::State100),
        State::State099 => Some(State::State114),
        _ => None,
    }
}

/// The state that follows the reduction to a branch. The state
/// below it on the stack must be one in which the parser can expect it.
pub fn get_reduce_new_state_branch(top_state: State) -> (r: State)
    requires
        goto_branch(top_state) is Some,
    ensures
        Some(r) == goto_branch(top_state),
{
    match top_state {
        State::State076 => State::State100,
        State::State099 => State::State114,
        _ => vstd::pervasive::unreached(),
    }
}

/// The state that follows the reduction to a list of expressions between semicolons, by the state
/// below it on the stack.
pub open spec fn goto_expression_list_sc(top_state: State) -> Option<State> {
    match top_state {
        State::State045 => Some(State::State060),
        _ => None,
    }
}

/// The state that follows the reduction to a list of expressions between semicolons. The state
/// below it on the stack must be one in which the parser can expect it.
pub fn get_reduce_new_state_expression_list_sc(top_state: State) -> (r: State)
    requires
        goto_expression_list_sc(top_state) is Some,
    ensures
        Some(r) == goto_expression_list_sc(top_state),
{
    match top_state {
        State::State045 => State::State060,
        _ => vstd::pervasive::unreached(),
    }
}

/// The state that follows the reduction to a non-empty list of expressions between commas, by the state
/// below it on the stack.
pub open spec fn goto_expression_list_c_ne(top_state: State) -> Option<State> {
    match top_state {
        State::State057 => Some(State::State078),
        State::State105 => Some(State::State078),
        State::State125 => Some(State::State078),
        _ => None,
    }
}

/// The state that follows the reduction to a non-empty list of expressions between commas. The state
/// below it on the stack must be one in which the parser can expect it.
pub fn get_reduce_new_state_expression_list_c_ne(top_state: State) -> (r: State)
    requires
        goto_expression_list_c_ne(top_state) is Some,
    ensures
        Some(r) == goto_expression_list_c_ne(top_state),
{
    match top_state {
        State::State057 => State::State078,
        State::State105 => State::State078,
        State::State125 => State::State078,
        _ => vstd::pervasive::unreached(),
    }
}

/// The state that follows the reduction to a list of expressions between commas, by the state
/// below it on the stack.
pub open spec fn goto_expression_list_c(top_state: State) -> Option<State> {
    match top_state {
        State::State057 => Some(State::State079),
        State::State105 => Some(State::State118),
        State::State125 => Some(State::State131),
        _ => None,
    }
}

/// The state that follows the reduction to a list of expressions between commas. The state
/// below it on the stack must be one in which the parser can expect it.
pub fn get_reduce_new_state_expression_list_c(top_state: State) -> (r: State)
    requires
        goto_expression_list_c(top_state) is Some,
    ensures
        Some(r) == goto_expression_list_c(top_state),
{
    match top_state {
        State::State057 => State::State079,
        State::State105 => State::State118,
        State::State125 => State::State131,
        _ => vstd::pervasive::unreached(),
    }
}

/// The state that follows the reduction to the tail of a `let`, by the state
/// below it on the stack.
pub open spec fn goto_expression_let(top_state: State) -> Option<State> {
    match top_state {
        State::State034 => Some(State::State051),
        State::State110 => Some(State::State122),
        State::State129 => Some(State::State133),
        _ => None,
    }
}

/// The state that follows the reduction to the tail of a `let`. The state
/// below it on the stack must be one in which the parser can expect it.
pub fn get_reduce_new_state_expression_let(top_state: State) -> (r: State)
    requires
        goto_expression_let(top_state) is Some,
    ensures
        Some(r) == goto_expression_let(top_state),
{
    match top_state {
        State::State034 => State::State051,
        State::State110 => State::State122,
        State::State129 => State::State133,
        _ => vstd::pervasive::unreached(),
    }
}

/// The state that follows the reduction to an expression, by the state
/// below it on the stack.
pub open spec fn goto_expression(top_state: State) -> Option<State> {
    match top_state {
        State::State029 => Some(State::State047),
        State::State033 => Some(State::State049),
        State::State035 => Some(State::State052),
        State::State036 => Some(State::State053),
        State::State038 => Some(State::State055),
        State::State043 => Some(State::State058),
        State::State044 => Some(State::State059),
        State::State045 => Some(State::State061),
        State::State046 => Some(State::State062),
        State::State056 => Some(State::State077),
        State::State057 => Some(State::State080),
        State::State060 => Some(State::State082),
        State::State063 => Some(State::State085),
        State::State064 => Some(State::State086),
        State::State065 => Some(State::State087),
        State::State066 => Some(State::State088),
        State::State067 => Some(State::State089),
        State::State068 => Some(State::State090),
        State::State069 => Some(State::State091),
        State::State072 => Some(State::State094),
        State::State073 => Some(State::State095),
        State::State075 => Some(State::State097),
        State::State101 => Some(State::State116),
        State::State105 => Some(State::State080),
        State::State107 => Some(State::State119),
        State::State108 => Some(State::State120),
        State::State109 => Some(State::State121),
        State::State125 => Some(State::State080),
        State::State128 => Some(State::State132),
        State::State130 => Some(State::State134),
        _ => None,
    }
}

/// The state that follows the reduction to an expression. The state
/// below it on the stack must be one in which the parser can expect it.
pub fn get_reduce_new_state_expression(top_state: State) -> (r: State)
    requires
        goto_expression(top_state) is Some,
    ensures
        Some(r) == goto_expression(top_state),
{
    match top_state {
        State::State029 => State::State047,
        State::State033 => State::State049,
        State::State035 => State::State052,
        State::State036 => State::State053,
        State::State038 => State::State055,
        State::State043 => State::State058,
        State::State044 => State::State059,
        State::State045 => State::State061,
        State::State046 => State::State062,
        State::State056 => State::State077,
        State::State057 => State::State080,
        State::State060 => State::State082,
        State::State063 => State::State085,
        State::State064 => State::State086,
        State::State065 => State::State087,
        State::State066 => State::State088,
        State::State067 => State::State089,
        State::State068 => State::State090,
        State::State069 => State::State091,
        State::State072 => State::State094,
        State::State073 => State::State095,
        State::State075 => State::State097,
        State::State101 => State::State116,
        State::State105 => State::State080,
        State::State107 => State::State119,
        State::State108 => State::State120,
        State::State109 => State::State121,
        State::State125 => State::State080,
        State::State128 => State::State132,
        State::State130 => State::State134,
        _ => vstd::pervasive::unreached(),
    }
}

/// What a reduction makes.
#[derive(Clone, Copy, Debug, PartialEq, Eq, Structural)]
pub enum NonTerminal {
    ClassList,
    Class,
    FeatureList,
    Feature,
    FormalListNE,
    FormalList,
    Formal,
    BranchList,
    Branch,
    ExprListSC,
    ExprListCNE,
    ExprListC,
    ExprLet,
    Expr,
}

/// The state that follows the reduction to `made`, by the state below it on
/// the stack, where the parser can expect the reduction there.
pub open spec fn goto_spec(made: NonTerminal, top_state: State) -> Option<State> {
    match made {
        NonTerminal::ClassList => goto_class_list(top_state),
        NonTerminal::Class => goto_class(top_state),
        NonTerminal::FeatureList => goto_feature_list(top_state),
        NonTerminal::Feature => goto_feature(top_state),
        NonTerminal::FormalListNE => goto_formal_list_ne(top_state),
        NonTerminal::FormalList => goto_formal_list(top_state),
        NonTerminal::Formal => goto_formal(top_state),
        NonTerminal::BranchList => goto_branch_list(top_state),
        NonTerminal::Branch => goto_branch(top_state),
        NonTerminal::ExprListSC => goto_expression_list_sc(top_state),
        NonTerminal::ExprListCNE => goto_expression_list_c_ne(top_state),
        NonTerminal::ExprListC => goto_expression_list_c(top_state),
        NonTerminal::ExprLet => goto_expression_let(top_state),
        NonTerminal::Expr => goto_expression(top_state),
    }
}

/// The state that follows the reduction to `made`, or nothing where the
/// state below it on the stack is none in which the parser can expect it.
pub fn goto_state(made: NonTerminal, top_state: State) -> (r: Option<State>)
    ensures
        r == goto_spec(made, top_state),
{
    match made {
        NonTerminal::ClassList => match top_state {
                State::StateInitial => Some(State::State002),
                _ => None,
        },
        NonTerminal::Class => match top_state {
                State::StateInitial => Some(State::State003),
                State::State002 => Some(State::State005),
                _ => None,
        },
        NonTerminal::FeatureList => match top_state {
                State::State008 => Some(State::State011),
                State::State012 => Some(State::State016),
                _ => None,
        },
        NonTerminal::Feature => match top_state {
                State::State011 => Some(State::State015),
                State::State016 => Some(State::State015),
                _ => None,
        },
        NonTerminal::FormalListNE => match top_state {
                State::State017 => Some(State::State022),
                _ => None,
        },
        NonTerminal::FormalList => match top_state {
                State::State017 => Some(State::State023),
                _ => None,
        },
        NonTerminal::Formal => match top_state {
                State::State017 => Some(State::State024),
                State::State027 => Some(State::State031),
                _ => None,
        },
        NonTerminal::BranchList => match top_state {
                State::State076 => Some(State::State099),
                _ => None,
        },
        NonTerminal::Branch => match top_state {
                State::State076 => Some(State::State100),
                State::State099 => Some(State::State114),
                _ => None,
        },
        NonTerminal::ExprListSC => match top_state {
                State::State045 => Some(State::State060),
                _ => None,
        },
        NonTerminal::ExprListCNE => match top_state {
                State::State057 => Some(State::State078),
                State::State105 => Some(State::State078),
                State::State125 => Some(State::State078),
                _ => None,
        },
        NonTerminal::ExprListC => match top_state {
                State::State057 => Some(State::State079),
                State::State105 => Some(State::State118),
                State::State125 => Some(State::State131),
                _ => None,
        },
        NonTerminal::ExprLet => match top_state {
                State::State034 => Some(State::State051),
                State::State110 => Some(State::State122),
                State::State129 => Some(State::State133),
                _ => None,
        },
        NonTerminal::Expr => match top_state {
                State::State029 => Some(State::State047),
                State::State033 => Some(State::State049),
                State::State035 => Some(State::State052),
                State::State036 => Some(State::State053),
                State::State038 => Some(State::State055),
                State::State043 => Some(State::State058),
                State::State044 => Some(State::State059),
                State::State045 => Some(State::State061),
                State::State046 => Some(State::State062),
                State::State056 => Some(State::State077),
                State::State057 => Some(State::State080),
                State::State060 => Some(State::State082),
                State::State063 => Some(State::State085),
                State::State064 => Some(State::State086),
                State::State065 => Some(State::State087),
                State::State066 => Some(State::State088),
                State::State067 => Some(State::State089),
                State::State068 => Some(State::State090),
                State::State069 => Some(State::State091),
                State::State072 => Some(State::State094),
                State::State073 => Some(State::State095),
                State::State075 => Some(State::State097),
                State::State101 => Some(State::State116),
                State::State105 => Some(State::State080),
                State::State107 => Some(State::State119),
                State::State108 => Some(State::State120),
                State::State109 => Some(State::State121),
                State::State125 => Some(State::State080),
                State::State128 => Some(State::State132),
                State::State130 => Some(State::State134),
                _ => None,
        },
    }
}

} // verus!
