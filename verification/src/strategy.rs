//! Selection: asking a strategy, once for each function, whether the function is wanted.

use crate::bindings::{
    Bindings, BindingsView, ExternFunction, ExternFunctionView, all_well_formed,
};
use crate::syntax::foreign::{ForeignItemFn, ForeignItemFnView};
use crate::text::{copy_text, lemma_deep_view_push};
use crate::BindingStrategy;
use regex::Regex;
use vstd::prelude::*;

verus! {

/// The first `count` functions for which the answer is yes, in order. A function without
/// an answer counts as not wanted.
pub open spec fn chosen_among(
    functions: Seq<ExternFunctionView>,
    answers: Seq<bool>,
    count: int,
) -> Seq<ExternFunctionView>
    decreases count,
{
    if count <= 0 {
        Seq::empty()
    } else {
        let before = chosen_among(functions, answers, count - 1);
        if count - 1 < answers.len() && answers[count - 1] {
            before.push(functions[count - 1])
        } else {
            before
        }
    }
}

/// The functions for which the answer is yes, in order.
pub open spec fn chosen(
    functions: Seq<ExternFunctionView>,
    answers: Seq<bool>,
) -> Seq<ExternFunctionView> {
    chosen_among(functions, answers, functions.len() as int)
}

/// Every chosen function is one of the functions: what holds of all of them holds of it.
pub proof fn lemma_chosen_well_formed(
    functions: Seq<ExternFunctionView>,
    answers: Seq<bool>,
    count: int,
)
    requires
        all_well_formed(functions),
        count <= functions.len(),
    ensures
        all_well_formed(chosen_among(functions, answers, count)),
    decreases count,
{
    if count > 0 {
        lemma_chosen_well_formed(functions, answers, count - 1);
        assert(functions[count - 1].item.sig.well_formed());
    }
}

/// Where every answer is no, no function is chosen.
pub proof fn lemma_nothing_chosen(
    functions: Seq<ExternFunctionView>,
    answers: Seq<bool>,
    count: int,
)
    requires
        forall|i: int| 0 <= i < answers.len() ==> !answers[i],
    ensures
        chosen_among(functions, answers, count) == Seq::<ExternFunctionView>::empty(),
    decreases count,
{
    if count > 0 {
        lemma_nothing_chosen(functions, answers, count - 1);
    }
}

/// What `strategy` says of each function, in order.
pub open spec fn answers_of<S: BindingStrategy>(
    strategy: S,
    functions: Seq<ExternFunctionView>,
) -> Seq<bool> {
    Seq::new(functions.len(), |i: int| strategy.includes(functions[i].item))
}

/// The functions that `strategy` wants, in order.
pub open spec fn wanted<S: BindingStrategy>(
    strategy: S,
    functions: Seq<ExternFunctionView>,
) -> Seq<ExternFunctionView> {
    chosen(functions, answers_of(strategy, functions))
}

/// What a strategy's answers keep are the functions it wants, in the order they had.
pub proof fn lemma_wanted_in_order<S: BindingStrategy>(
    strategy: S,
    functions: Seq<ExternFunctionView>,
)
    ensures
        wanted(strategy, functions) == functions.filter(
            |function: ExternFunctionView| strategy.includes(function.item),
        ),
{
    lemma_chosen_is_filter(strategy, functions, functions.len() as int);
    assert(functions.take(functions.len() as int) =~= functions);
}

proof fn lemma_chosen_is_filter<S: BindingStrategy>(
    strategy: S,
    functions: Seq<ExternFunctionView>,
    count: int,
)
    requires
        0 <= count <= functions.len(),
    ensures
        chosen_among(functions, answers_of(strategy, functions), count) == functions.take(
            count,
        ).filter(|function: ExternFunctionView| strategy.includes(function.item)),
    decreases count,
{
    reveal(Seq::filter);
    if count > 0 {
        lemma_chosen_is_filter(strategy, functions, count - 1);
        assert(functions.take(count).drop_last() =~= functions.take(count - 1));
        assert(functions.take(count).last() == functions[count - 1]);
    } else {
        assert(functions.take(count).len() == 0);
    }
}

/// A strategy that wants no function has none chosen.
pub proof fn lemma_strategy_that_wants_nothing<S: BindingStrategy>(
    strategy: S,
    functions: Seq<ExternFunctionView>,
)
    requires
        forall|i: int|
            0 <= i < functions.len() ==> !strategy.includes(#[trigger] functions[i].item),
    ensures
        wanted(strategy, functions) == Seq::<ExternFunctionView>::empty(),
{
    let answers = answers_of(strategy, functions);
    assert forall|i: int| 0 <= i < answers.len() implies !answers[i] by {
        assert(!strategy.includes(functions[i].item));
    }
    lemma_nothing_chosen(functions, answers, functions.len() as int);
}

/// Two strategies that say the same of every function give the same answers.
pub proof fn lemma_strategies_that_agree<S: BindingStrategy, T: BindingStrategy>(
    first: S,
    second: T,
    functions: Seq<ExternFunctionView>,
)
    requires
        forall|i: int|
            0 <= i < functions.len() ==> first.includes(#[trigger] functions[i].item)
                == second.includes(functions[i].item),
    ensures
        answers_of(first, functions) == answers_of(second, functions),
{
    assert forall|i: int| 0 <= i < functions.len() implies answers_of(first, functions)[i]
        == answers_of(second, functions)[i] by {
        assert(first.includes(functions[i].item) == second.includes(functions[i].item));
    }
    assert(answers_of(first, functions) =~= answers_of(second, functions));
}

/// Asks `strategy` about every function, once each and in order, and hands back what it
/// said.
pub fn ask<S: BindingStrategy>(functions: &Vec<ExternFunction>, strategy: &S) -> (answers: Vec<
    bool,
>)
    ensures
        answers@ == answers_of(*strategy, functions.deep_view()),
{
    let mut answers: Vec<bool> = Vec::new();
    let mut i: usize = 0;
    while i < functions.len()
        invariant
            i <= functions.len(),
            answers@.len() == i,
            forall|j: int|
                0 <= j < i ==> #[trigger] answers@[j] == strategy.includes(
                    functions@[j].deep_view().item,
                ),
        decreases functions.len() - i,
    {
        answers.push(strategy.should_include(&functions[i].item));
        i = i + 1;
    }
    assert(answers@ =~= answers_of(*strategy, functions.deep_view()));
    answers
}

/// Keeps the functions for which the answer is yes. The statics stay as they are.
pub fn retain_chosen(bindings: Bindings, answers: &Vec<bool>) -> (selected: Bindings)
    ensures
        selected.deep_view() == (BindingsView {
            functions: chosen(bindings.deep_view().functions, answers@),
            statics: bindings.deep_view().statics,
        }),
{
    let ghost before = bindings.deep_view();
    let Bindings { functions, statics } = bindings;
    let ghost all = functions@;
    let mut kept: Vec<ExternFunction> = Vec::new();
    assert(kept.deep_view() =~= chosen_among(before.functions, answers@, 0));

    let total = functions.len();
    let mut position: usize = 0;
    for function in iter: functions
        invariant
            position == iter.index(),
            total == all.len(),
            iter.seq() == all,
            before.functions.len() == all.len(),
            forall|i: int| 0 <= i < all.len() ==> before.functions[i] == all[i].deep_view(),
            kept.deep_view() == chosen_among(before.functions, answers@, iter.index()),
    {
        let ghost n = iter.index();
        let ghost so_far = kept@;
        if position < answers.len() && answers[position] {
            kept.push(function);
            proof {
                lemma_deep_view_push(so_far, kept, function);
            }
            assert(kept.deep_view() =~= chosen_among(before.functions, answers@, n + 1));
        }
        assert(n < all.len());
        position = position + 1;
    }
    let selected = Bindings { functions: kept, statics };
    selected
}

/// Keeps the functions that `strategy` wants, in order. The statics stay as they are. The
/// strategy is asked once about each function.
pub fn select<S: BindingStrategy>(bindings: Bindings, strategy: &S) -> (selected: Bindings)
    ensures
        selected.deep_view() == (BindingsView {
            functions: wanted(*strategy, bindings.deep_view().functions),
            statics: bindings.deep_view().statics,
        }),
{
    let answers = ask(&bindings.functions, strategy);
    retain_chosen(bindings, &answers)
}

/// A compiled regular expression of the `regex` crate.
#[verifier::external_type_specification]
#[verifier::external_body]
pub struct ExRegex(regex::Regex);

/// Whether the `regex` crate compiles `pattern`, with the options it has by default.
pub uninterp spec fn compiles(pattern: Seq<char>) -> bool;

/// The pattern that the compiled expression `re` was made from.
pub uninterp spec fn source_of(re: Regex) -> Seq<char>;

/// Whether the compiled expression `re` finds a match somewhere in `text`.
pub uninterp spec fn accepts(re: Regex, text: Seq<char>) -> bool;

/// `Regex::new`: compiles `pattern` with the default options; a failure comes back as the
/// sentence with which the crate describes it. Whether compiling succeeds depends on the
/// pattern alone, and the expression remembers the pattern it was made from, as
/// `Regex::as_str` tells. Nothing is claimed of the sentence.
#[verifier::external_body]
fn compile(pattern: &str) -> (compiled: Result<Regex, String>)
    ensures
        compiled is Ok <==> compiles(pattern@),
        compiled matches Ok(re) ==> source_of(re) == pattern@,
{
    Regex::new(pattern).map_err(|error| error.to_string())
}

/// `Regex::is_match`: whether the expression matches anywhere in `text`. The answer
/// depends on the expression and the text alone.
#[verifier::external_body]
fn is_match(re: &Regex, text: &str) -> (found: bool)
    ensures
        found == accepts(*re, text@),
{
    re.is_match(text)
}

/// A pattern that is no regular expression.
#[derive(Debug, Clone, PartialEq, Eq)]
pub struct InvalidPattern {
    /// The place of the pattern among those given.
    pub index: usize,
    pub pattern: String,
    /// What the `regex` crate says of it.
    pub reason: String,
}

/// Wants the functions whose name one of its regular expressions matches.
#[derive(Debug)]
pub struct Strategy {
    pub whitelist_functions: Vec<Regex>,
}

impl Strategy {
    /// Whether a function of this name is wanted: whether some expression matches it.
    pub open spec fn wants(&self, name: Seq<char>) -> bool {
        exists|i: int|
            0 <= i < self.whitelist_functions@.len() && accepts(
                #[trigger] self.whitelist_functions@[i],
                name,
            )
    }

    /// Compiles the patterns, in order. The first pattern that does not compile ends it.
    pub fn new(patterns: &Vec<String>) -> (strategy: Result<Strategy, InvalidPattern>)
        ensures
            strategy is Ok <==> forall|i: int|
                0 <= i < patterns@.len() ==> compiles(#[trigger] patterns@[i]@),
            strategy matches Ok(s) ==> {
                &&& s.whitelist_functions@.len() == patterns@.len()
                &&& forall|i: int|
                    0 <= i < patterns@.len() ==> source_of(#[trigger] s.whitelist_functions@[i])
                        == patterns@[i]@
            },
            strategy matches Err(e) ==> {
                &&& e.index < patterns@.len()
                &&& !compiles(patterns@[e.index as int]@)
                &&& e.pattern@ == patterns@[e.index as int]@
                &&& forall|i: int| 0 <= i < e.index ==> compiles(#[trigger] patterns@[i]@)
            },
    {
        let mut whitelist_functions: Vec<Regex> = Vec::new();
        let mut i: usize = 0;
        while i < patterns.len()
            invariant
                i <= patterns.len(),
                whitelist_functions@.len() == i,
                forall|j: int| 0 <= j < i ==> compiles(#[trigger] patterns@[j]@),
                forall|j: int|
                    0 <= j < i ==> source_of(#[trigger] whitelist_functions@[j]) == patterns@[j]@,
            decreases patterns.len() - i,
        {
            match compile(patterns[i].as_str()) {
                Ok(re) => {
                    whitelist_functions.push(re);
                },
                Err(reason) => {
                    return Err(
                        InvalidPattern { index: i, pattern: copy_text(&patterns[i]), reason },
                    );
                },
            }
            i = i + 1;
        }
        Ok(Strategy { whitelist_functions })
    }
}

impl BindingStrategy for Strategy {
    open spec fn includes(&self, item: ForeignItemFnView) -> bool {
        self.wants(item.sig.ident)
    }

    fn should_include(&self, item: &ForeignItemFn) -> (wanted: bool) {
        let name = item.sig.ident.as_str();
        let mut i: usize = 0;
        while i < self.whitelist_functions.len()
            invariant
                i <= self.whitelist_functions.len(),
                name@ == item.sig.ident@,
                forall|j: int|
                    0 <= j < i ==> !accepts(#[trigger] self.whitelist_functions@[j], name@),
            decreases self.whitelist_functions.len() - i,
        {
            if is_match(&self.whitelist_functions[i], name) {
                return true;
            }
            i = i + 1;
        }
        false
    }
}

} // verus!
