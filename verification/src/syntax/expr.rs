//! Expressions and statements of generated function bodies.

use crate::syntax::path::{Lit, LitView, Pat, PatView, Path, PathView};
use vstd::prelude::*;

verus! {

#[derive(Debug, Clone, Copy, PartialEq, Eq)]
pub enum UnOp {
    /// `*`
    Deref,
    /// `!`
    Not,
    /// `-`
    Neg,
}

/// An expression.
#[derive(Debug, PartialEq, Eq)]
pub enum Expr {
    /// A name: `library`, `::libloading::Library::new`.
    Path(Path),
    Lit(Lit),
    /// `func(args)`
    Call { func: Box<Expr>, args: Vec<Expr> },
    /// `receiver.method(args)`
    MethodCall { receiver: Box<Expr>, method: String, args: Vec<Expr> },
    /// `expr?`
    Try(Box<Expr>),
    /// `op expr`
    Unary { op: UnOp, expr: Box<Expr> },
    /// `(expr)`
    Paren(Box<Expr>),
    /// `base.member`
    Field { base: Box<Expr>, member: String },
    /// `path { fields }`
    Struct { path: Path, fields: Vec<FieldValue> },
}

/// One field of a struct expression: `member: expr`, or `member` alone where `colon` is
/// false and the expression is the variable of that name.
#[derive(Debug, PartialEq, Eq)]
pub struct FieldValue {
    pub member: String,
    pub colon: bool,
    pub expr: Expr,
}

pub ghost enum ExprView {
    Path(PathView),
    Lit(LitView),
    Call { func: Box<ExprView>, args: Seq<ExprView> },
    MethodCall { receiver: Box<ExprView>, method: Seq<char>, args: Seq<ExprView> },
    Try(Box<ExprView>),
    Unary { op: UnOp, expr: Box<ExprView> },
    Paren(Box<ExprView>),
    Field { base: Box<ExprView>, member: Seq<char> },
    Struct { path: PathView, fields: Seq<FieldValueView> },
}

pub ghost struct FieldValueView {
    pub member: Seq<char>,
    pub colon: bool,
    pub expr: ExprView,
}

/// The mathematical value of an expression.
pub open spec fn expr_view(e: Expr) -> ExprView
    decreases e,
{
    match e {
        Expr::Path(p) => ExprView::Path(p.deep_view()),
        Expr::Lit(l) => ExprView::Lit(l.deep_view()),
        Expr::Call { func, args } => ExprView::Call {
            func: Box::new(expr_view(*func)),
            args: Seq::new(
                args@.len(),
                |i: int|
                    if 0 <= i < args@.len() {
                        expr_view(args@[i])
                    } else {
                        arbitrary()
                    },
            ),
        },
        Expr::MethodCall { receiver, method, args } => ExprView::MethodCall {
            receiver: Box::new(expr_view(*receiver)),
            method: method@,
            args: Seq::new(
                args@.len(),
                |i: int|
                    if 0 <= i < args@.len() {
                        expr_view(args@[i])
                    } else {
                        arbitrary()
                    },
            ),
        },
        Expr::Try(inner) => ExprView::Try(Box::new(expr_view(*inner))),
        Expr::Unary { op, expr } => ExprView::Unary { op, expr: Box::new(expr_view(*expr)) },
        Expr::Paren(inner) => ExprView::Paren(Box::new(expr_view(*inner))),
        Expr::Field { base, member } => ExprView::Field {
            base: Box::new(expr_view(*base)),
            member: member@,
        },
        Expr::Struct { path, fields } => ExprView::Struct {
            path: path.deep_view(),
            fields: Seq::new(
                fields@.len(),
                |i: int|
                    if 0 <= i < fields@.len() {
                        field_value_view(fields@[i])
                    } else {
                        arbitrary()
                    },
            ),
        },
    }
}

pub open spec fn field_value_view(f: FieldValue) -> FieldValueView
    decreases f,
{
    FieldValueView { member: f.member@, colon: f.colon, expr: expr_view(f.expr) }
}

impl DeepView for Expr {
    type V = ExprView;

    open spec fn deep_view(&self) -> ExprView {
        expr_view(*self)
    }
}

impl DeepView for FieldValue {
    type V = FieldValueView;

    open spec fn deep_view(&self) -> FieldValueView {
        field_value_view(*self)
    }
}

impl Expr {
    /// The expression that is the name `path`.
    pub fn path(path: Path) -> (e: Expr)
        ensures
            e.deep_view() == ExprView::Path(path.deep_view()),
    {
        Expr::Path(path)
    }

    /// The literal `lit`.
    pub fn lit(lit: Lit) -> (e: Expr)
        ensures
            e.deep_view() == ExprView::Lit(lit.deep_view()),
    {
        Expr::Lit(lit)
    }

    /// `func(args)`
    pub fn call(func: Expr, args: Vec<Expr>) -> (e: Expr)
        ensures
            e.deep_view() == (ExprView::Call {
                func: Box::new(func.deep_view()),
                args: args.deep_view(),
            }),
    {
        let e = Expr::Call { func: Box::new(func), args };
        assert(expr_view(e)->Call_args =~= args.deep_view());
        e
    }

    /// `receiver.method(args)`
    pub fn method_call(receiver: Expr, method: String, args: Vec<Expr>) -> (e: Expr)
        ensures
            e.deep_view() == (ExprView::MethodCall {
                receiver: Box::new(receiver.deep_view()),
                method: method@,
                args: args.deep_view(),
            }),
    {
        let e = Expr::MethodCall { receiver: Box::new(receiver), method, args };
        assert(expr_view(e)->MethodCall_args =~= args.deep_view());
        e
    }

    /// `inner?`
    pub fn try_(inner: Expr) -> (e: Expr)
        ensures
            e.deep_view() == ExprView::Try(Box::new(inner.deep_view())),
    {
        Expr::Try(Box::new(inner))
    }

    /// `op inner`
    pub fn unary(op: UnOp, inner: Expr) -> (e: Expr)
        ensures
            e.deep_view() == (ExprView::Unary { op, expr: Box::new(inner.deep_view()) }),
    {
        Expr::Unary { op, expr: Box::new(inner) }
    }

    /// `(inner)`
    pub fn paren(inner: Expr) -> (e: Expr)
        ensures
            e.deep_view() == ExprView::Paren(Box::new(inner.deep_view())),
    {
        Expr::Paren(Box::new(inner))
    }

    /// `base.member`
    pub fn field(base: Expr, member: String) -> (e: Expr)
        ensures
            e.deep_view() == (ExprView::Field {
                base: Box::new(base.deep_view()),
                member: member@,
            }),
    {
        Expr::Field { base: Box::new(base), member }
    }

    /// `path { fields }`
    pub fn struct_(path: Path, fields: Vec<FieldValue>) -> (e: Expr)
        ensures
            e.deep_view() == (ExprView::Struct {
                path: path.deep_view(),
                fields: fields.deep_view(),
            }),
    {
        let e = Expr::Struct { path, fields };
        assert(expr_view(e)->Struct_fields =~= fields.deep_view());
        e
    }
}

/// `let pat = init;`
#[derive(Debug, PartialEq, Eq)]
pub struct Local {
    pub pat: Pat,
    pub init: Option<Expr>,
}

pub ghost struct LocalView {
    pub pat: PatView,
    pub init: Option<ExprView>,
}

impl DeepView for Local {
    type V = LocalView;

    open spec fn deep_view(&self) -> LocalView {
        LocalView { pat: self.pat.deep_view(), init: self.init.deep_view() }
    }
}

#[derive(Debug, PartialEq, Eq)]
pub enum Stmt {
    Local(Local),
    /// An expression without a semicolon: the value of the block it ends.
    Expr(Expr),
}

pub ghost enum StmtView {
    Local(LocalView),
    Expr(ExprView),
}

impl DeepView for Stmt {
    type V = StmtView;

    open spec fn deep_view(&self) -> StmtView {
        match self {
            Stmt::Local(l) => StmtView::Local(l.deep_view()),
            Stmt::Expr(e) => StmtView::Expr(e.deep_view()),
        }
    }
}

} // verus!
