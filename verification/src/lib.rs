//! Turns the declarations of a statically linked foreign interface into declarations that
//! load the library at run time: a struct that holds the library and a pointer to each
//! function, a loader that fills it, and methods that call through the pointers.

pub mod bindings;
pub mod gen;
pub mod pipeline;
pub mod strategy;
pub mod syntax;
pub mod text;

use crate::bindings::extracted_functions;
use crate::pipeline::{bind_module, bound_module, is_outcome};
use crate::strategy::answers_of;
use crate::syntax::foreign::{ForeignItemFn, ForeignItemFnView};
use crate::syntax::item::File;
use vstd::prelude::*;
use vstd::string::StringExecFns;

verus! {

/// Decides which foreign functions take part in what is synthesized.
///
/// A strategy is a predicate: what it says of a declaration depends on the strategy and
/// on the declaration alone. `includes` is that predicate; `should_include` computes it.
pub trait BindingStrategy: Sized {
    /// Whether this strategy wants `item`. A strategy that does not say what its
    /// predicate is has some predicate all the same: one and the same for every call.
    open spec fn includes(&self, item: ForeignItemFnView) -> bool {
        arbitrary::<spec_fn(Self, ForeignItemFnView) -> bool>()(*self, item)
    }

    /// Whether `item` is to be loaded at run time.
    fn should_include(&self, item: &ForeignItemFn) -> (wanted: bool)
        ensures
            wanted == self.includes(item.deep_view()),
    ;
}

/// Why the text that the header's generator wrote is not a module.
#[derive(Debug, Clone, PartialEq, Eq)]
pub struct ParseError {
    pub message: String,
}

/// What can go wrong between a header and its bindings.
#[derive(Debug, Clone, PartialEq, Eq)]
pub enum Error {
    /// The header's generator produced nothing.
    BindgenFailed,
    /// What the header's generator produced is not a module.
    Parse(ParseError),
    /// The named declaration cannot be that of a foreign function: it is generic, `const`
    /// or `async`, or it takes `self`.
    MalformedDeclaration(String),
    /// Two of the chosen functions have this name.
    DuplicateSymbol(String),
}

pub ghost enum ErrorView {
    BindgenFailed,
    Parse(Seq<char>),
    MalformedDeclaration(Seq<char>),
    DuplicateSymbol(Seq<char>),
}

impl DeepView for Error {
    type V = ErrorView;

    open spec fn deep_view(&self) -> ErrorView {
        match self {
            Error::BindgenFailed => ErrorView::BindgenFailed,
            Error::Parse(e) => ErrorView::Parse(e.message@),
            Error::MalformedDeclaration(name) => ErrorView::MalformedDeclaration(name@),
            Error::DuplicateSymbol(name) => ErrorView::DuplicateSymbol(name@),
        }
    }
}

impl ErrorView {
    /// The sentence that tells a user what went wrong.
    pub open spec fn message(self) -> Seq<char> {
        match self {
            ErrorView::BindgenFailed => "Bindgen was unable to generate bindings"@,
            ErrorView::Parse(_) => "Unable to parse the bindings emitted by bindgen"@,
            ErrorView::MalformedDeclaration(name) => "Not a foreign function declaration: "@
                + name,
            ErrorView::DuplicateSymbol(name) => "More than one function is named "@ + name,
        }
    }
}

impl Error {
    /// The sentence that tells a user what went wrong.
    pub fn message(&self) -> (text: String)
        ensures
            text@ == self.deep_view().message(),
    {
        match self {
            Error::BindgenFailed => "Bindgen was unable to generate bindings".to_string(),
            Error::Parse(_) => "Unable to parse the bindings emitted by bindgen".to_string(),
            Error::MalformedDeclaration(name) => {
                let mut text = "Not a foreign function declaration: ".to_string();
                text.append(name.as_str());
                text
            },
            Error::DuplicateSymbol(name) => {
                let mut text = "More than one function is named ".to_string();
                text.append(name.as_str());
                text
            },
        }
    }
}

/// Rewrites the module that a header's generator wrote into one that loads the library
/// at run time.
///
/// `generated` is what came of running the generator and reading what it wrote: `None`
/// where the generator produced nothing, the parser's complaint where what it wrote is no
/// module, else the module. Both failures are handed on as they are.
///
/// From the module the foreign functions and statics leave, and so do the `extern` blocks
/// that held nothing else. `strategy` is asked once about each function, in order of
/// declaration. For the functions it wants, the struct `Bindings`, its loader and its
/// forwarding methods are appended: the outcome is what `pipeline::bound_module` says for
/// the strategy's answers.
pub fn generate_bindings<S: BindingStrategy>(
    generated: Option<Result<File, ParseError>>,
    strategy: &S,
) -> (bindings: Result<File, Error>)
    ensures
        generated is None ==> bindings is Err && bindings.unwrap_err().deep_view()
            == ErrorView::BindgenFailed,
        generated matches Some(Err(error)) ==> bindings is Err
            && bindings.unwrap_err().deep_view() == ErrorView::Parse(error.message@),
        generated matches Some(Ok(file)) ==> is_outcome(
            bindings,
            bound_module(
                file.deep_view(),
                answers_of(*strategy, extracted_functions(file.deep_view().items)),
                true,
            ),
        ),
{
    match generated {
        None => Err(Error::BindgenFailed),
        Some(Err(error)) => Err(Error::Parse(error)),
        Some(Ok(file)) => bind_module(file, strategy, true),
    }
}

} // verus!
