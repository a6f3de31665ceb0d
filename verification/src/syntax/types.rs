//! Types, signatures and generics of generated declarations.

use crate::syntax::path::{Abi, AbiView, Attribute, AttributeView, Pat, PatView, Path, PathView};
use vstd::prelude::*;

verus! {

/// One parameter of a function-pointer type. Its type comes from the input and is held
/// as it was written.
#[derive(Debug, PartialEq, Eq)]
pub struct BareFnArg {
    pub name: Option<String>,
    pub ty: String,
}

pub ghost struct BareFnArgView {
    pub name: Option<Seq<char>>,
    pub ty: Seq<char>,
}

impl DeepView for BareFnArg {
    type V = BareFnArgView;

    open spec fn deep_view(&self) -> BareFnArgView {
        BareFnArgView { name: self.name.deep_view(), ty: self.ty@ }
    }
}

/// A function-pointer type: `unsafe extern "C" fn(c_int, ...) -> c_int`.
#[derive(Debug, PartialEq, Eq)]
pub struct TypeBareFn {
    pub unsafety: bool,
    pub abi: Option<Abi>,
    pub inputs: Vec<BareFnArg>,
    pub variadic: bool,
    /// The return type as it was written; absent where the function returns nothing.
    pub output: Option<String>,
}

pub ghost struct TypeBareFnView {
    pub unsafety: bool,
    pub abi: Option<AbiView>,
    pub inputs: Seq<BareFnArgView>,
    pub variadic: bool,
    pub output: Option<Seq<char>>,
}

impl DeepView for TypeBareFn {
    type V = TypeBareFnView;

    open spec fn deep_view(&self) -> TypeBareFnView {
        TypeBareFnView {
            unsafety: self.unsafety,
            abi: self.abi.deep_view(),
            inputs: self.inputs.deep_view(),
            variadic: self.variadic,
            output: self.output.deep_view(),
        }
    }
}

/// A type in a generated declaration.
#[derive(Debug, PartialEq, Eq)]
pub enum Type {
    /// A type named by a path.
    Path(Path),
    /// A function-pointer type.
    BareFn(TypeBareFn),
    /// A type taken from the input, as it was written.
    Verbatim(String),
}

pub ghost enum TypeView {
    Path(PathView),
    BareFn(TypeBareFnView),
    Verbatim(Seq<char>),
}

impl DeepView for Type {
    type V = TypeView;

    open spec fn deep_view(&self) -> TypeView {
        match self {
            Type::Path(p) => TypeView::Path(p.deep_view()),
            Type::BareFn(f) => TypeView::BareFn(f.deep_view()),
            Type::Verbatim(text) => TypeView::Verbatim(text@),
        }
    }
}

/// What a function returns.
#[derive(Debug, PartialEq, Eq)]
pub enum ReturnType {
    /// Nothing is written: the function returns `()`.
    Unit,
    /// `-> ty`.
    Type(Type),
}

pub ghost enum ReturnTypeView {
    Unit,
    Type(TypeView),
}

impl DeepView for ReturnType {
    type V = ReturnTypeView;

    open spec fn deep_view(&self) -> ReturnTypeView {
        match self {
            ReturnType::Unit => ReturnTypeView::Unit,
            ReturnType::Type(ty) => ReturnTypeView::Type(ty.deep_view()),
        }
    }
}

/// A type parameter: the `P` of `fn load_from_path<P>`.
#[derive(Debug, PartialEq, Eq)]
pub struct TypeParam {
    pub ident: String,
}

pub ghost struct TypeParamView {
    pub ident: Seq<char>,
}

impl DeepView for TypeParam {
    type V = TypeParamView;

    open spec fn deep_view(&self) -> TypeParamView {
        TypeParamView { ident: self.ident@ }
    }
}

/// One line of a `where` clause: `bounded_ty: bound + bound`, each bound a trait's path.
#[derive(Debug, PartialEq, Eq)]
pub struct WherePredicate {
    pub bounded_ty: Type,
    pub bounds: Vec<Path>,
}

pub ghost struct WherePredicateView {
    pub bounded_ty: TypeView,
    pub bounds: Seq<PathView>,
}

impl DeepView for WherePredicate {
    type V = WherePredicateView;

    open spec fn deep_view(&self) -> WherePredicateView {
        WherePredicateView {
            bounded_ty: self.bounded_ty.deep_view(),
            bounds: self.bounds.deep_view(),
        }
    }
}

#[derive(Debug, PartialEq, Eq)]
pub enum WhereClause {
    Predicates(Vec<WherePredicate>),
    /// A `where` clause taken from the input, as it was written.
    Verbatim(String),
}

pub ghost enum WhereClauseView {
    Predicates(Seq<WherePredicateView>),
    Verbatim(Seq<char>),
}

impl DeepView for WhereClause {
    type V = WhereClauseView;

    open spec fn deep_view(&self) -> WhereClauseView {
        match self {
            WhereClause::Predicates(p) => WhereClauseView::Predicates(p.deep_view()),
            WhereClause::Verbatim(text) => WhereClauseView::Verbatim(text@),
        }
    }
}

#[derive(Debug, PartialEq, Eq)]
pub struct Generics {
    pub params: Vec<TypeParam>,
    pub where_clause: Option<WhereClause>,
}

pub ghost struct GenericsView {
    pub params: Seq<TypeParamView>,
    pub where_clause: Option<WhereClauseView>,
}

impl DeepView for Generics {
    type V = GenericsView;

    open spec fn deep_view(&self) -> GenericsView {
        GenericsView {
            params: self.params.deep_view(),
            where_clause: self.where_clause.deep_view(),
        }
    }
}

/// The `self` parameter of a method.
#[derive(Debug, Clone, Copy, PartialEq, Eq)]
pub struct Receiver {
    /// `&self` rather than `self`.
    pub reference: bool,
    pub mutability: bool,
}

impl DeepView for Receiver {
    type V = Receiver;

    open spec fn deep_view(&self) -> Receiver {
        *self
    }
}

/// A parameter written as `pattern: type`.
#[derive(Debug, PartialEq, Eq)]
pub struct PatType {
    pub attrs: Vec<Attribute>,
    pub pat: Pat,
    pub ty: Type,
}

pub ghost struct PatTypeView {
    pub attrs: Seq<AttributeView>,
    pub pat: PatView,
    pub ty: TypeView,
}

impl DeepView for PatType {
    type V = PatTypeView;

    open spec fn deep_view(&self) -> PatTypeView {
        PatTypeView {
            attrs: self.attrs.deep_view(),
            pat: self.pat.deep_view(),
            ty: self.ty.deep_view(),
        }
    }
}

#[derive(Debug, PartialEq, Eq)]
pub enum FnArg {
    Receiver(Receiver),
    Typed(PatType),
}

pub ghost enum FnArgView {
    Receiver(Receiver),
    Typed(PatTypeView),
}

impl DeepView for FnArg {
    type V = FnArgView;

    open spec fn deep_view(&self) -> FnArgView {
        match self {
            FnArg::Receiver(r) => FnArgView::Receiver(*r),
            FnArg::Typed(t) => FnArgView::Typed(t.deep_view()),
        }
    }
}

/// The signature of a generated function.
#[derive(Debug, PartialEq, Eq)]
pub struct Signature {
    pub constness: bool,
    pub asyncness: bool,
    pub unsafety: bool,
    pub abi: Option<Abi>,
    pub ident: String,
    pub generics: Generics,
    pub inputs: Vec<FnArg>,
    pub variadic: bool,
    pub output: ReturnType,
}

pub ghost struct SignatureView {
    pub constness: bool,
    pub asyncness: bool,
    pub unsafety: bool,
    pub abi: Option<AbiView>,
    pub ident: Seq<char>,
    pub generics: GenericsView,
    pub inputs: Seq<FnArgView>,
    pub variadic: bool,
    pub output: ReturnTypeView,
}

impl DeepView for Signature {
    type V = SignatureView;

    open spec fn deep_view(&self) -> SignatureView {
        SignatureView {
            constness: self.constness,
            asyncness: self.asyncness,
            unsafety: self.unsafety,
            abi: self.abi.deep_view(),
            ident: self.ident@,
            generics: self.generics.deep_view(),
            inputs: self.inputs.deep_view(),
            variadic: self.variadic,
            output: self.output.deep_view(),
        }
    }
}

} // verus!
