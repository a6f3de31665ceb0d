//! Top-level declarations and the module that holds them.

use crate::syntax::expr::{Stmt, StmtView};
use crate::syntax::foreign::{ItemForeignMod, ItemForeignModView};
use crate::syntax::path::{Attribute, AttributeView, Visibility};
use crate::syntax::types::{
    Generics, GenericsView, Signature, SignatureView, Type, TypeView,
};
use vstd::prelude::*;

verus! {

/// A named field of a struct.
#[derive(Debug, PartialEq, Eq)]
pub struct Field {
    pub attrs: Vec<Attribute>,
    pub vis: Visibility,
    pub ident: String,
    pub ty: Type,
}

pub ghost struct FieldView {
    pub attrs: Seq<AttributeView>,
    pub vis: Visibility,
    pub ident: Seq<char>,
    pub ty: TypeView,
}

impl DeepView for Field {
    type V = FieldView;

    open spec fn deep_view(&self) -> FieldView {
        FieldView {
            attrs: self.attrs.deep_view(),
            vis: self.vis,
            ident: self.ident@,
            ty: self.ty.deep_view(),
        }
    }
}

/// A struct with named fields.
#[derive(Debug, PartialEq, Eq)]
pub struct ItemStruct {
    pub attrs: Vec<Attribute>,
    pub vis: Visibility,
    pub ident: String,
    pub generics: Generics,
    pub fields: Vec<Field>,
}

pub ghost struct ItemStructView {
    pub attrs: Seq<AttributeView>,
    pub vis: Visibility,
    pub ident: Seq<char>,
    pub generics: GenericsView,
    pub fields: Seq<FieldView>,
}

impl DeepView for ItemStruct {
    type V = ItemStructView;

    open spec fn deep_view(&self) -> ItemStructView {
        ItemStructView {
            attrs: self.attrs.deep_view(),
            vis: self.vis,
            ident: self.ident@,
            generics: self.generics.deep_view(),
            fields: self.fields.deep_view(),
        }
    }
}

/// A method in an `impl` block.
#[derive(Debug, PartialEq, Eq)]
pub struct ImplItemMethod {
    pub attrs: Vec<Attribute>,
    pub vis: Visibility,
    pub sig: Signature,
    /// The statements of the body, in order.
    pub block: Vec<Stmt>,
}

pub ghost struct ImplItemMethodView {
    pub attrs: Seq<AttributeView>,
    pub vis: Visibility,
    pub sig: SignatureView,
    pub block: Seq<StmtView>,
}

impl DeepView for ImplItemMethod {
    type V = ImplItemMethodView;

    open spec fn deep_view(&self) -> ImplItemMethodView {
        ImplItemMethodView {
            attrs: self.attrs.deep_view(),
            vis: self.vis,
            sig: self.sig.deep_view(),
            block: self.block.deep_view(),
        }
    }
}

/// An inherent `impl` block.
#[derive(Debug, PartialEq, Eq)]
pub struct ItemImpl {
    pub attrs: Vec<Attribute>,
    pub generics: Generics,
    pub self_ty: Type,
    pub items: Vec<ImplItemMethod>,
}

pub ghost struct ItemImplView {
    pub attrs: Seq<AttributeView>,
    pub generics: GenericsView,
    pub self_ty: TypeView,
    pub items: Seq<ImplItemMethodView>,
}

impl DeepView for ItemImpl {
    type V = ItemImplView;

    open spec fn deep_view(&self) -> ItemImplView {
        ItemImplView {
            attrs: self.attrs.deep_view(),
            generics: self.generics.deep_view(),
            self_ty: self.self_ty.deep_view(),
            items: self.items.deep_view(),
        }
    }
}

/// A top-level declaration.
#[derive(Debug, PartialEq, Eq)]
pub enum Item {
    ForeignMod(ItemForeignMod),
    Struct(ItemStruct),
    Impl(ItemImpl),
    /// Any other declaration, as it was written.
    Verbatim(String),
}

pub ghost enum ItemView {
    ForeignMod(ItemForeignModView),
    Struct(ItemStructView),
    Impl(ItemImplView),
    Verbatim(Seq<char>),
}

impl DeepView for Item {
    type V = ItemView;

    open spec fn deep_view(&self) -> ItemView {
        match self {
            Item::ForeignMod(m) => ItemView::ForeignMod(m.deep_view()),
            Item::Struct(s) => ItemView::Struct(s.deep_view()),
            Item::Impl(i) => ItemView::Impl(i.deep_view()),
            Item::Verbatim(text) => ItemView::Verbatim(text@),
        }
    }
}

/// A whole module: the declarations of one source file, in order.
#[derive(Debug, PartialEq, Eq)]
pub struct File {
    pub shebang: Option<String>,
    pub attrs: Vec<String>,
    pub items: Vec<Item>,
}

pub ghost struct FileView {
    pub shebang: Option<Seq<char>>,
    pub attrs: Seq<Seq<char>>,
    pub items: Seq<ItemView>,
}

impl DeepView for File {
    type V = FileView;

    open spec fn deep_view(&self) -> FileView {
        FileView {
            shebang: self.shebang.deep_view(),
            attrs: self.attrs.deep_view(),
            items: self.items.deep_view(),
        }
    }
}

} // verus!
