//! Foreign declarations as they stand in the input: `extern` blocks and what they hold.

use crate::syntax::path::{Abi, AbiView, Pat, PatView};
use vstd::prelude::*;

verus! {

/// A parameter of a foreign function, written as `pattern: type`.
#[derive(Debug, Clone, PartialEq, Eq)]
pub struct ForeignPatType {
    pub attrs: Vec<String>,
    pub pat: Pat,
    pub ty: String,
}

pub ghost struct ForeignPatTypeView {
    pub attrs: Seq<Seq<char>>,
    pub pat: PatView,
    pub ty: Seq<char>,
}

impl DeepView for ForeignPatType {
    type V = ForeignPatTypeView;

    open spec fn deep_view(&self) -> ForeignPatTypeView {
        ForeignPatTypeView {
            attrs: self.attrs.deep_view(),
            pat: self.pat.deep_view(),
            ty: self.ty@,
        }
    }
}

#[derive(Debug, Clone, PartialEq, Eq)]
pub enum ForeignArg {
    /// A `self` parameter, as it was written. No true foreign function has one.
    Receiver(String),
    Typed(ForeignPatType),
}

pub ghost enum ForeignArgView {
    Receiver(Seq<char>),
    Typed(ForeignPatTypeView),
}

impl DeepView for ForeignArg {
    type V = ForeignArgView;

    open spec fn deep_view(&self) -> ForeignArgView {
        match self {
            ForeignArg::Receiver(text) => ForeignArgView::Receiver(text@),
            ForeignArg::Typed(t) => ForeignArgView::Typed(t.deep_view()),
        }
    }
}

/// The signature of a foreign function. Types and generics are held as written.
#[derive(Debug, Clone, PartialEq, Eq)]
pub struct ForeignSignature {
    pub constness: bool,
    pub asyncness: bool,
    pub unsafety: bool,
    pub abi: Option<Abi>,
    pub ident: String,
    /// The generic parameters between `<` and `>`, lifetimes included, if there are any.
    pub generics: Option<String>,
    pub where_clause: Option<String>,
    pub inputs: Vec<ForeignArg>,
    pub variadic: bool,
    /// The return type; absent where the function returns nothing.
    pub output: Option<String>,
}

pub ghost struct ForeignSignatureView {
    pub constness: bool,
    pub asyncness: bool,
    pub unsafety: bool,
    pub abi: Option<AbiView>,
    pub ident: Seq<char>,
    pub generics: Option<Seq<char>>,
    pub where_clause: Option<Seq<char>>,
    pub inputs: Seq<ForeignArgView>,
    pub variadic: bool,
    pub output: Option<Seq<char>>,
}

impl DeepView for ForeignSignature {
    type V = ForeignSignatureView;

    open spec fn deep_view(&self) -> ForeignSignatureView {
        ForeignSignatureView {
            constness: self.constness,
            asyncness: self.asyncness,
            unsafety: self.unsafety,
            abi: self.abi.deep_view(),
            ident: self.ident@,
            generics: self.generics.deep_view(),
            where_clause: self.where_clause.deep_view(),
            inputs: self.inputs.deep_view(),
            variadic: self.variadic,
            output: self.output.deep_view(),
        }
    }
}

impl ForeignSignatureView {
    /// What holds of the signature of every true foreign function: it is not generic over
    /// types or lifetimes, it is neither `const` nor `async`, and it takes no `self`.
    pub open spec fn well_formed(self) -> bool {
        &&& !self.constness
        &&& !self.asyncness
        &&& self.generics is None
        &&& forall|i: int| 0 <= i < self.inputs.len() ==> #[trigger] self.inputs[i] is Typed
    }
}

/// A function declared in an `extern` block.
#[derive(Debug, Clone, PartialEq, Eq)]
pub struct ForeignItemFn {
    pub attrs: Vec<String>,
    pub vis: String,
    pub sig: ForeignSignature,
}

pub ghost struct ForeignItemFnView {
    pub attrs: Seq<Seq<char>>,
    pub vis: Seq<char>,
    pub sig: ForeignSignatureView,
}

impl DeepView for ForeignItemFn {
    type V = ForeignItemFnView;

    open spec fn deep_view(&self) -> ForeignItemFnView {
        ForeignItemFnView {
            attrs: self.attrs.deep_view(),
            vis: self.vis@,
            sig: self.sig.deep_view(),
        }
    }
}

/// A static declared in an `extern` block.
#[derive(Debug, Clone, PartialEq, Eq)]
pub struct ForeignItemStatic {
    pub attrs: Vec<String>,
    pub vis: String,
    pub mutability: bool,
    pub ident: String,
    pub ty: String,
}

pub ghost struct ForeignItemStaticView {
    pub attrs: Seq<Seq<char>>,
    pub vis: Seq<char>,
    pub mutability: bool,
    pub ident: Seq<char>,
    pub ty: Seq<char>,
}

impl DeepView for ForeignItemStatic {
    type V = ForeignItemStaticView;

    open spec fn deep_view(&self) -> ForeignItemStaticView {
        ForeignItemStaticView {
            attrs: self.attrs.deep_view(),
            vis: self.vis@,
            mutability: self.mutability,
            ident: self.ident@,
            ty: self.ty@,
        }
    }
}

/// One item of an `extern` block.
#[derive(Debug, Clone, PartialEq, Eq)]
pub enum ForeignItem {
    Fn(ForeignItemFn),
    Static(ForeignItemStatic),
    /// Any other kind of foreign item, as it was written.
    Verbatim(String),
}

pub ghost enum ForeignItemView {
    Fn(ForeignItemFnView),
    Static(ForeignItemStaticView),
    Verbatim(Seq<char>),
}

impl DeepView for ForeignItem {
    type V = ForeignItemView;

    open spec fn deep_view(&self) -> ForeignItemView {
        match self {
            ForeignItem::Fn(f) => ForeignItemView::Fn(f.deep_view()),
            ForeignItem::Static(s) => ForeignItemView::Static(s.deep_view()),
            ForeignItem::Verbatim(text) => ForeignItemView::Verbatim(text@),
        }
    }
}

/// An `extern` block: a calling convention and the items declared under it.
#[derive(Debug, Clone, PartialEq, Eq)]
pub struct ItemForeignMod {
    pub attrs: Vec<String>,
    pub abi: Abi,
    pub items: Vec<ForeignItem>,
}

pub ghost struct ItemForeignModView {
    pub attrs: Seq<Seq<char>>,
    pub abi: AbiView,
    pub items: Seq<ForeignItemView>,
}

impl DeepView for ItemForeignMod {
    type V = ItemForeignModView;

    open spec fn deep_view(&self) -> ItemForeignModView {
        ItemForeignModView {
            attrs: self.attrs.deep_view(),
            abi: self.abi.deep_view(),
            items: self.items.deep_view(),
        }
    }
}

} // verus!
