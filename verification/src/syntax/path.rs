//! Paths, literals and attributes: the small pieces every declaration is made of.

use vstd::prelude::*;

verus! {

/// A path such as `::libloading::Library` or `Result<Self, E>`.
#[derive(Debug, PartialEq, Eq)]
pub struct Path {
    /// Whether the path starts with `::`.
    pub leading_colon: bool,
    pub segments: Vec<PathSegment>,
}

/// One segment of a path, with the type arguments written after it.
#[derive(Debug, PartialEq, Eq)]
pub struct PathSegment {
    pub ident: String,
    pub arguments: PathArguments,
}

/// What follows the name of a path segment.
#[derive(Debug, PartialEq, Eq)]
pub enum PathArguments {
    /// Nothing: `Library`.
    Plain,
    /// Type arguments in angle brackets, each of them a path: `Result<Self, E>`.
    AngleBracketed(Vec<Path>),
}

pub ghost struct PathView {
    pub leading_colon: bool,
    pub segments: Seq<PathSegmentView>,
}

pub ghost struct PathSegmentView {
    pub ident: Seq<char>,
    pub arguments: PathArgumentsView,
}

pub ghost enum PathArgumentsView {
    Plain,
    AngleBracketed(Seq<PathView>),
}

/// The mathematical value of a path: its segments and their arguments, all the way down.
pub open spec fn path_view(p: Path) -> PathView
    decreases p,
{
    PathView {
        leading_colon: p.leading_colon,
        segments: Seq::new(
            p.segments@.len(),
            |i: int|
                if 0 <= i < p.segments@.len() {
                    segment_view(p.segments@[i])
                } else {
                    arbitrary()
                },
        ),
    }
}

pub open spec fn segment_view(s: PathSegment) -> PathSegmentView
    decreases s,
{
    PathSegmentView { ident: s.ident@, arguments: arguments_view(s.arguments) }
}

pub open spec fn arguments_view(a: PathArguments) -> PathArgumentsView
    decreases a,
{
    match a {
        PathArguments::Plain => PathArgumentsView::Plain,
        PathArguments::AngleBracketed(args) => PathArgumentsView::AngleBracketed(
            Seq::new(
                args@.len(),
                |i: int|
                    if 0 <= i < args@.len() {
                        path_view(args@[i])
                    } else {
                        arbitrary()
                    },
            ),
        ),
    }
}

impl DeepView for Path {
    type V = PathView;

    open spec fn deep_view(&self) -> PathView {
        path_view(*self)
    }
}

impl DeepView for PathSegment {
    type V = PathSegmentView;

    open spec fn deep_view(&self) -> PathSegmentView {
        segment_view(*self)
    }
}

impl DeepView for PathArguments {
    type V = PathArgumentsView;

    open spec fn deep_view(&self) -> PathArgumentsView {
        arguments_view(*self)
    }
}

/// The view of a path is the view of its segments, one by one.
pub proof fn lemma_path_view(p: Path)
    ensures
        p.deep_view() == (PathView {
            leading_colon: p.leading_colon,
            segments: p.segments.deep_view(),
        }),
{
    assert(p.deep_view().segments =~= p.segments.deep_view());
}

/// The view of bracketed arguments is the view of each argument in turn.
pub proof fn lemma_arguments_view(args: Vec<Path>)
    ensures
        PathArguments::AngleBracketed(args).deep_view() == PathArgumentsView::AngleBracketed(
            args.deep_view(),
        ),
{
    assert(arguments_view(PathArguments::AngleBracketed(args))->AngleBracketed_0
        =~= args.deep_view());
}

/// A literal in generated code.
#[derive(Debug, PartialEq, Eq)]
pub enum Lit {
    /// A string literal, given by the text it denotes.
    Str(String),
    /// A byte-string literal, given by the bytes it denotes.
    ByteStr(Vec<u8>),
}

pub ghost enum LitView {
    Str(Seq<char>),
    ByteStr(Seq<u8>),
}

impl DeepView for Lit {
    type V = LitView;

    open spec fn deep_view(&self) -> LitView {
        match self {
            Lit::Str(s) => LitView::Str(s@),
            Lit::ByteStr(b) => LitView::ByteStr(b@),
        }
    }
}

/// An attribute on a generated declaration.
#[derive(Debug, PartialEq, Eq)]
pub enum Attribute {
    /// An attribute carried over from the input, as it was written.
    Verbatim(String),
    /// `#[path = lit]`.
    NameValue { path: Path, lit: Lit },
}

pub ghost enum AttributeView {
    Verbatim(Seq<char>),
    NameValue { path: PathView, lit: LitView },
}

impl DeepView for Attribute {
    type V = AttributeView;

    open spec fn deep_view(&self) -> AttributeView {
        match self {
            Attribute::Verbatim(text) => AttributeView::Verbatim(text@),
            Attribute::NameValue { path, lit } => AttributeView::NameValue {
                path: path.deep_view(),
                lit: lit.deep_view(),
            },
        }
    }
}

/// The visibility of a generated declaration.
#[derive(Debug, Clone, Copy, PartialEq, Eq)]
pub enum Visibility {
    Public,
    Inherited,
}

impl DeepView for Visibility {
    type V = Visibility;

    open spec fn deep_view(&self) -> Visibility {
        *self
    }
}

/// The calling convention written after `extern`; `name` is absent for a bare `extern`.
#[derive(Debug, Clone, PartialEq, Eq)]
pub struct Abi {
    pub name: Option<String>,
}

pub ghost struct AbiView {
    pub name: Option<Seq<char>>,
}

impl DeepView for Abi {
    type V = AbiView;

    open spec fn deep_view(&self) -> AbiView {
        AbiView { name: self.name.deep_view() }
    }
}

/// A pattern that binds a parameter or a local variable.
#[derive(Debug, Clone, PartialEq, Eq)]
pub enum Pat {
    /// A binding by name: `left`, `mut left`, `ref left`, `left @ ..`.
    Ident(PatIdent),
    /// Any other pattern, as it was written.
    Verbatim(String),
}

#[derive(Debug, Clone, PartialEq, Eq)]
pub struct PatIdent {
    pub by_ref: bool,
    pub mutability: bool,
    pub ident: String,
    /// The pattern after `@`, as it was written.
    pub subpat: Option<String>,
}

pub ghost struct PatIdentView {
    pub by_ref: bool,
    pub mutability: bool,
    pub ident: Seq<char>,
    pub subpat: Option<Seq<char>>,
}

pub ghost enum PatView {
    Ident(PatIdentView),
    Verbatim(Seq<char>),
}

impl DeepView for PatIdent {
    type V = PatIdentView;

    open spec fn deep_view(&self) -> PatIdentView {
        PatIdentView {
            by_ref: self.by_ref,
            mutability: self.mutability,
            ident: self.ident@,
            subpat: self.subpat.deep_view(),
        }
    }
}

impl DeepView for Pat {
    type V = PatView;

    open spec fn deep_view(&self) -> PatView {
        match self {
            Pat::Ident(p) => PatView::Ident(p.deep_view()),
            Pat::Verbatim(text) => PatView::Verbatim(text@),
        }
    }
}

} // verus!
