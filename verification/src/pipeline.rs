//! The whole pass over one module: extract, choose, synthesize, append.

use crate::bindings::{
    all_well_formed, extract_raw_bindings, extracted_functions, first_malformed_name,
    is_first_malformed, lemma_first_malformed_unique, lemma_nothing_to_extract, names_distinct,
    remaining_items, Bindings, ExternFunctionView,
};
use crate::gen::{append_selected, appended, synthesized};
use crate::strategy::{
    answers_of, ask, chosen, lemma_chosen_well_formed, lemma_strategies_that_agree,
    lemma_strategy_that_wants_nothing, retain_chosen, wanted,
};
use crate::syntax::item::{File, FileView};
use crate::text::copy_text;
use crate::{BindingStrategy, Error, ErrorView};
use vstd::prelude::*;

verus! {

/// What one pass makes of a module, given the answer to "is this function wanted?" for
/// each of its foreign functions in order of declaration.
///
/// A declaration that cannot be that of a foreign function stops the pass; the error
/// names the first such declaration. Else the functions with the answer yes are chosen.
/// If two of them share a name, the error names the first name that was seen before. Else
/// the result is the module without its foreign functions and statics, without the blocks
/// that held nothing else, and with the synthesized declarations at its end.
pub open spec fn bound_module(file: FileView, answers: Seq<bool>, proxies: bool) -> Result<
    FileView,
    ErrorView,
> {
    let functions = extracted_functions(file.items);
    if !all_well_formed(functions) {
        Err(ErrorView::MalformedDeclaration(first_malformed_name(functions)))
    } else {
        match appended(remaining_items(file.items), chosen(functions, answers), proxies) {
            Ok(items) => Ok(FileView { items, ..file }),
            Err(error) => Err(error),
        }
    }
}

/// Whether `outcome` is what `expected` says, view for view.
pub open spec fn is_outcome(
    outcome: Result<File, Error>,
    expected: Result<FileView, ErrorView>,
) -> bool {
    match expected {
        Ok(file) => outcome is Ok && outcome.unwrap().deep_view() == file,
        Err(error) => outcome is Err && outcome.unwrap_err().deep_view() == error,
    }
}

/// Takes the foreign functions out of `file` and makes sure that each of them can be the
/// declaration of a foreign function.
fn extract_well_formed(file: File) -> (outcome: Result<(File, Bindings), Error>)
    ensures
        all_well_formed(extracted_functions(file.deep_view().items)) ==> outcome is Ok && {
            let (rest, bindings) = outcome.unwrap();
            &&& rest.deep_view() == (FileView {
                items: remaining_items(file.deep_view().items),
                ..file.deep_view()
            })
            &&& bindings.deep_view().functions == extracted_functions(file.deep_view().items)
        },
        !all_well_formed(extracted_functions(file.deep_view().items)) ==> outcome is Err
            && outcome.unwrap_err().deep_view() == ErrorView::MalformedDeclaration(
            first_malformed_name(extracted_functions(file.deep_view().items)),
        ),
{
    let mut file = file;
    let bindings = extract_raw_bindings(&mut file);
    let ghost functions = bindings.deep_view().functions;
    match bindings.find_malformed() {
        Some(index) => {
            proof {
                let first = choose|first: int| is_first_malformed(functions, first);
                lemma_first_malformed_unique(functions, index as int, first);
            }
            Err(Error::MalformedDeclaration(copy_text(&bindings.functions[index].item.sig.ident)))
        },
        None => Ok((file, bindings)),
    }
}

/// Appends to what extraction left of a module the declarations for the functions that
/// the answers keep.
fn bind_extracted(file: File, bindings: Bindings, answers: &Vec<bool>, proxies: bool) -> (outcome:
    Result<File, Error>)
    requires
        all_well_formed(bindings.deep_view().functions),
    ensures
        is_outcome(
            outcome,
            match appended(
                file.deep_view().items,
                chosen(bindings.deep_view().functions, answers@),
                proxies,
            ) {
                Ok(items) => Ok(FileView { items, ..file.deep_view() }),
                Err(error) => Err(error),
            },
        ),
{
    let ghost functions = bindings.deep_view().functions;
    let mut file = file;
    let selected = retain_chosen(bindings, answers);
    proof {
        lemma_chosen_well_formed(functions, answers@, functions.len() as int);
    }
    match append_selected(&mut file.items, &selected, proxies) {
        Ok(()) => Ok(file),
        Err(error) => Err(error),
    }
}

/// One pass over `file` with the answers given: `answers[i]` says whether the `i`-th
/// foreign function of the module, in order of declaration, is wanted.
pub fn bind_module_with(file: File, answers: &Vec<bool>, proxies: bool) -> (outcome: Result<
    File,
    Error,
>)
    ensures
        is_outcome(outcome, bound_module(file.deep_view(), answers@, proxies)),
{
    match extract_well_formed(file) {
        Ok((rest, bindings)) => bind_extracted(rest, bindings, answers, proxies),
        Err(error) => Err(error),
    }
}

/// One pass over `file`, with `strategy` asked once about each foreign function, in order
/// of declaration: the outcome is what `bind_module_with` gives for the strategy's
/// answers. A module with a malformed declaration is refused before the strategy is asked.
pub fn bind_module<S: BindingStrategy>(file: File, strategy: &S, proxies: bool) -> (outcome:
    Result<File, Error>)
    ensures
        is_outcome(
            outcome,
            bound_module(
                file.deep_view(),
                answers_of(*strategy, extracted_functions(file.deep_view().items)),
                proxies,
            ),
        ),
{
    match extract_well_formed(file) {
        Ok((rest, bindings)) => {
            let answers = ask(&bindings.functions, strategy);
            bind_extracted(rest, bindings, &answers, proxies)
        },
        Err(error) => Err(error),
    }
}

/// Two passes over the same module with the same answers end alike: both fail with the
/// same error, or both give the same module, declaration for declaration.
pub proof fn lemma_pass_is_deterministic(
    file: FileView,
    answers: Seq<bool>,
    proxies: bool,
    first: Result<File, Error>,
    second: Result<File, Error>,
)
    requires
        is_outcome(first, bound_module(file, answers, proxies)),
        is_outcome(second, bound_module(file, answers, proxies)),
    ensures
        first is Ok <==> second is Ok,
        first is Ok ==> first.unwrap().deep_view() == second.unwrap().deep_view(),
        first is Err ==> first.unwrap_err().deep_view() == second.unwrap_err().deep_view(),
{
}

/// A pass over a module without `extern` blocks never fails. The module comes back with
/// every declaration where it was, followed by the declarations for no function.
pub proof fn lemma_module_without_blocks(file: FileView, answers: Seq<bool>, proxies: bool)
    requires
        forall|i: int| 0 <= i < file.items.len() ==> !((#[trigger] file.items[i]) is ForeignMod),
    ensures
        bound_module(file, answers, proxies) == Ok::<FileView, ErrorView>(
            FileView { items: file.items + synthesized(Seq::empty(), proxies), ..file },
        ),
{
    lemma_nothing_to_extract(file.items);
    let none = Seq::<ExternFunctionView>::empty();
    assert(chosen(none, answers) =~= none);
    assert(names_distinct(none));
}

/// Two passes over the same module with strategies that say the same of each of its
/// functions end alike: both fail with the same error, or both give the same module,
/// declaration for declaration.
pub proof fn lemma_same_strategy_same_module<S: BindingStrategy, T: BindingStrategy>(
    file: FileView,
    first: S,
    second: T,
    proxies: bool,
)
    requires
        forall|i: int|
            0 <= i < extracted_functions(file.items).len() ==> first.includes(
                #[trigger] extracted_functions(file.items)[i].item,
            ) == second.includes(extracted_functions(file.items)[i].item),
    ensures
        bound_module(file, answers_of(first, extracted_functions(file.items)), proxies)
            == bound_module(file, answers_of(second, extracted_functions(file.items)), proxies),
{
    lemma_strategies_that_agree(first, second, extracted_functions(file.items));
}

/// With a strategy that wants none of its functions, a module of well-formed declarations
/// comes back without its functions and statics, followed by the declarations for no
/// function: the struct with the handle alone, the loader without a lookup, and, if asked
/// for, the empty block of methods.
pub proof fn lemma_nothing_wanted<S: BindingStrategy>(file: FileView, strategy: S, proxies: bool)
    requires
        all_well_formed(extracted_functions(file.items)),
        forall|i: int|
            0 <= i < extracted_functions(file.items).len() ==> !strategy.includes(
                #[trigger] extracted_functions(file.items)[i].item,
            ),
    ensures
        bound_module(file, answers_of(strategy, extracted_functions(file.items)), proxies)
            == Ok::<FileView, ErrorView>(
            FileView {
                items: remaining_items(file.items) + synthesized(Seq::empty(), proxies),
                ..file
            },
        ),
{
    let functions = extracted_functions(file.items);
    lemma_strategy_that_wants_nothing(strategy, functions);
    assert(wanted(strategy, functions) == Seq::<ExternFunctionView>::empty());
    assert(names_distinct(Seq::<ExternFunctionView>::empty()));
}

} // verus!
