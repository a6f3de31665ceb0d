//! The declaration tree: what is read from a header's bindings and what is synthesized.
//!
//! Whatever comes from the input and is only carried along (types, attributes, items that
//! are not foreign declarations) is held as the text it was written with. Whatever is
//! synthesized is held as structure. Each type has a mathematical view, reached with
//! `deep_view()`, in which vectors are sequences and strings are sequences of characters.

pub mod expr;
pub mod foreign;
pub mod item;
pub mod path;
pub mod types;

pub use expr::{
    Expr, ExprView, FieldValue, FieldValueView, Local, LocalView, Stmt, StmtView, UnOp,
};
pub use foreign::{
    ForeignArg, ForeignArgView, ForeignItem, ForeignItemFn, ForeignItemFnView,
    ForeignItemStatic, ForeignItemStaticView, ForeignItemView, ForeignPatType,
    ForeignPatTypeView, ForeignSignature, ForeignSignatureView, ItemForeignMod,
    ItemForeignModView,
};
pub use item::{
    Field, FieldView, File, FileView, ImplItemMethod, ImplItemMethodView, Item, ItemImpl,
    ItemImplView, ItemStruct, ItemStructView, ItemView,
};
pub use path::{
    Abi, AbiView, Attribute, AttributeView, Lit, LitView, Pat, PatIdent, PatIdentView, PatView,
    Path, PathArguments, PathArgumentsView, PathSegment, PathSegmentView, PathView, Visibility,
};
pub use types::{
    BareFnArg, BareFnArgView, FnArg, FnArgView, Generics, GenericsView, PatType, PatTypeView,
    Receiver, ReturnType, ReturnTypeView, Signature, SignatureView, Type, TypeBareFn,
    TypeBareFnView, TypeParam, TypeParamView, TypeView, WhereClause, WhereClauseView,
    WherePredicate, WherePredicateView,
};
