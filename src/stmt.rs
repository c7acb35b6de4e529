//! Which statement form a parser takes at the current token.
use vstd::prelude::*;

verus! {

/// The token kinds that decide a statement's form.
#[derive(Clone, Copy, Debug, PartialEq, Eq, Hash, Structural)]
pub enum SyntaxKind {
    LetKw,
    ForKw,
    WhileKw,
    ContinueKw,
    BreakKw,
    AssertKw,
    ReturnKw,
    Pipe,
    Hat,
    Amp,
    Plus,
    Minus,
    Star,
    Slash,
    Percent,
    Star2,
    Lt,
    Gt,
    Eq,
    Ident,
    Other,
}

/// The form of a statement.
#[derive(Clone, Copy, Debug, PartialEq, Eq, Hash, Structural)]
pub enum StmtForm {
    Let,
    For,
    While,
    Continue,
    Break,
    Assert,
    Return,
    Assign,
    Expr,
}

/// The form of the statement that starts at `current`: a keyword decides it;
/// otherwise it is an assignment when one parses there, else an expression.
pub open spec fn stmt_form_of(current: Option<SyntaxKind>, is_assign_stmt: bool) -> StmtForm {
    match current {
        Some(SyntaxKind::LetKw) => StmtForm::Let,
        Some(SyntaxKind::ForKw) => StmtForm::For,
        Some(SyntaxKind::WhileKw) => StmtForm::While,
        Some(SyntaxKind::ContinueKw) => StmtForm::Continue,
        Some(SyntaxKind::BreakKw) => StmtForm::Break,
        Some(SyntaxKind::AssertKw) => StmtForm::Assert,
        Some(SyntaxKind::ReturnKw) => StmtForm::Return,
        _ => if is_assign_stmt {
            StmtForm::Assign
        } else {
            StmtForm::Expr
        },
    }
}

/// The form of the statement that starts at `current`, given whether a trial
/// parse of an assignment succeeds there.
pub fn stmt_form(current: Option<SyntaxKind>, is_assign_stmt: bool) -> (r: StmtForm)
    ensures
        r == stmt_form_of(current, is_assign_stmt),
{
    match current {
        Some(SyntaxKind::LetKw) => StmtForm::Let,
        Some(SyntaxKind::ForKw) => StmtForm::For,
        Some(SyntaxKind::WhileKw) => StmtForm::While,
        Some(SyntaxKind::ContinueKw) => StmtForm::Continue,
        Some(SyntaxKind::BreakKw) => StmtForm::Break,
        Some(SyntaxKind::AssertKw) => StmtForm::Assert,
        Some(SyntaxKind::ReturnKw) => StmtForm::Return,
        _ => {
            if is_assign_stmt {
                StmtForm::Assign
            } else {
                StmtForm::Expr
            }
        },
    }
}

/// How an augmented assignment operator starts at the current token.
#[derive(Clone, Copy, Debug, PartialEq, Eq, Hash, Structural)]
pub enum AugAssignOp {
    /// No augmented assignment operator.
    NoOp,
    /// A one-token operator.
    Token,
    /// A left shift made of two `<` tokens.
    LShift,
    /// A right shift made of two `>` tokens.
    RShift,
}

/// The augmented assignment operator at `current`; `<` and `>` count only
/// when they begin a shift.
pub open spec fn aug_assign_op_of(current: Option<SyntaxKind>, is_lshift: bool, is_rshift: bool) -> AugAssignOp {
    match current {
        Some(SyntaxKind::Pipe) | Some(SyntaxKind::Hat) | Some(SyntaxKind::Amp) | Some(SyntaxKind::Plus)
        | Some(SyntaxKind::Minus) | Some(SyntaxKind::Star) | Some(SyntaxKind::Slash)
        | Some(SyntaxKind::Percent) | Some(SyntaxKind::Star2) => AugAssignOp::Token,
        Some(SyntaxKind::Lt) => if is_lshift {
            AugAssignOp::LShift
        } else {
            AugAssignOp::NoOp
        },
        Some(SyntaxKind::Gt) => if is_rshift {
            AugAssignOp::RShift
        } else {
            AugAssignOp::NoOp
        },
        _ => AugAssignOp::NoOp,
    }
}

/// The augmented assignment operator at `current`, given whether a left or
/// right shift starts there.
pub fn aug_assign_op(current: Option<SyntaxKind>, is_lshift: bool, is_rshift: bool) -> (r: AugAssignOp)
    ensures
        r == aug_assign_op_of(current, is_lshift, is_rshift),
{
    match current {
        Some(SyntaxKind::Pipe) | Some(SyntaxKind::Hat) | Some(SyntaxKind::Amp) | Some(SyntaxKind::Plus)
        | Some(SyntaxKind::Minus) | Some(SyntaxKind::Star) | Some(SyntaxKind::Slash)
        | Some(SyntaxKind::Percent) | Some(SyntaxKind::Star2) => AugAssignOp::Token,
        Some(SyntaxKind::Lt) => {
            if is_lshift {
                AugAssignOp::LShift
            } else {
                AugAssignOp::NoOp
            }
        },
        Some(SyntaxKind::Gt) => {
            if is_rshift {
                AugAssignOp::RShift
            } else {
                AugAssignOp::NoOp
            }
        },
        _ => AugAssignOp::NoOp,
    }
}

} // verus!
