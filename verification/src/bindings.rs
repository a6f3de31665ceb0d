//! Extraction: taking the foreign functions and statics out of a module.

use crate::syntax::foreign::{
    ForeignArg, ForeignItem, ForeignItemFn, ForeignItemFnView, ForeignItemStatic,
    ForeignItemStaticView, ForeignItemView, ItemForeignMod, ItemForeignModView,
};
use crate::syntax::item::{File, FileView, Item, ItemView};
use crate::text::{copy_optional_text, lemma_deep_view_push};
use vstd::prelude::*;

verus! {

/// A foreign function together with the calling convention of the block it stood in.
#[derive(Debug, Clone, PartialEq, Eq)]
pub struct ExternFunction {
    pub abi: Option<String>,
    pub item: ForeignItemFn,
}

pub ghost struct ExternFunctionView {
    pub abi: Option<Seq<char>>,
    pub item: ForeignItemFnView,
}

impl DeepView for ExternFunction {
    type V = ExternFunctionView;

    open spec fn deep_view(&self) -> ExternFunctionView {
        ExternFunctionView { abi: self.abi.deep_view(), item: self.item.deep_view() }
    }
}

/// What extraction found, in the order in which it was declared.
#[derive(Debug, Clone, PartialEq, Eq)]
pub struct Bindings {
    pub functions: Vec<ExternFunction>,
    pub statics: Vec<ForeignItemStatic>,
}

pub ghost struct BindingsView {
    pub functions: Seq<ExternFunctionView>,
    pub statics: Seq<ForeignItemStaticView>,
}

impl DeepView for Bindings {
    type V = BindingsView;

    open spec fn deep_view(&self) -> BindingsView {
        BindingsView {
            functions: self.functions.deep_view(),
            statics: self.statics.deep_view(),
        }
    }
}

/// Whether every function has the signature of a true foreign function.
pub open spec fn all_well_formed(functions: Seq<ExternFunctionView>) -> bool {
    forall|i: int| 0 <= i < functions.len() ==> (#[trigger] functions[i]).item.sig.well_formed()
}

/// Whether the function at `index` has the name of a function that stands before it.
pub open spec fn repeats_a_name(functions: Seq<ExternFunctionView>, index: int) -> bool {
    exists|earlier: int|
        0 <= earlier < index && (#[trigger] functions[earlier]).item.sig.ident
            == functions[index].item.sig.ident
}

/// Whether no two functions have the same name.
pub open spec fn names_distinct(functions: Seq<ExternFunctionView>) -> bool {
    forall|index: int|
        0 <= index < functions.len() ==> !#[trigger] repeats_a_name(functions, index)
}

/// Whether `index` is the place of the first function whose name an earlier function has.
pub open spec fn is_first_repeat(functions: Seq<ExternFunctionView>, index: int) -> bool {
    &&& 0 <= index < functions.len()
    &&& repeats_a_name(functions, index)
    &&& forall|j: int| 0 <= j < index ==> !#[trigger] repeats_a_name(functions, j)
}

/// The name of the first function whose name an earlier function has. It means something
/// only where the names are not distinct.
pub open spec fn first_repeated_name(functions: Seq<ExternFunctionView>) -> Seq<char> {
    functions[choose|index: int| is_first_repeat(functions, index)].item.sig.ident
}

/// Whether `index` is the place of the first function that is not a true foreign function.
pub open spec fn is_first_malformed(functions: Seq<ExternFunctionView>, index: int) -> bool {
    &&& 0 <= index < functions.len()
    &&& !functions[index].item.sig.well_formed()
    &&& all_well_formed(functions.take(index))
}

/// The name of the first function that is not a true foreign function. It means something
/// only where there is such a function.
pub open spec fn first_malformed_name(functions: Seq<ExternFunctionView>) -> Seq<char> {
    functions[choose|index: int| is_first_malformed(functions, index)].item.sig.ident
}

/// There is one first repeat at most.
pub proof fn lemma_first_repeat_unique(functions: Seq<ExternFunctionView>, a: int, b: int)
    requires
        is_first_repeat(functions, a),
        is_first_repeat(functions, b),
    ensures
        a == b,
{
    if a < b {
        assert(!repeats_a_name(functions, a));
    }
    if b < a {
        assert(!repeats_a_name(functions, b));
    }
}

/// There is one first malformed function at most.
pub proof fn lemma_first_malformed_unique(functions: Seq<ExternFunctionView>, a: int, b: int)
    requires
        is_first_malformed(functions, a),
        is_first_malformed(functions, b),
    ensures
        a == b,
{
    if a < b {
        assert(functions.take(b)[a].item.sig.well_formed());
    }
    if b < a {
        assert(functions.take(a)[b].item.sig.well_formed());
    }
}

/// The functions among the items of one block, in order, each tagged with the block's
/// calling convention.
pub open spec fn block_functions(
    abi: Option<Seq<char>>,
    items: Seq<ForeignItemView>,
) -> Seq<ExternFunctionView>
    decreases items.len(),
{
    if items.len() == 0 {
        Seq::empty()
    } else {
        let before = block_functions(abi, items.drop_last());
        match items.last() {
            ForeignItemView::Fn(f) => before.push(ExternFunctionView { abi, item: f }),
            _ => before,
        }
    }
}

/// The statics among the items of one block, in order.
pub open spec fn block_statics(items: Seq<ForeignItemView>) -> Seq<ForeignItemStaticView>
    decreases items.len(),
{
    if items.len() == 0 {
        Seq::empty()
    } else {
        let before = block_statics(items.drop_last());
        match items.last() {
            ForeignItemView::Static(s) => before.push(s),
            _ => before,
        }
    }
}

/// The items of one block that are neither function nor static, in order.
pub open spec fn block_rest(items: Seq<ForeignItemView>) -> Seq<ForeignItemView>
    decreases items.len(),
{
    if items.len() == 0 {
        Seq::empty()
    } else {
        let before = block_rest(items.drop_last());
        match items.last() {
            ForeignItemView::Verbatim(_) => before.push(items.last()),
            _ => before,
        }
    }
}

/// The functions of all the blocks of a module, in order of declaration.
pub open spec fn extracted_functions(items: Seq<ItemView>) -> Seq<ExternFunctionView>
    decreases items.len(),
{
    if items.len() == 0 {
        Seq::empty()
    } else {
        let before = extracted_functions(items.drop_last());
        match items.last() {
            ItemView::ForeignMod(block) => before + block_functions(block.abi.name, block.items),
            _ => before,
        }
    }
}

/// The statics of all the blocks of a module, in order of declaration.
pub open spec fn extracted_statics(items: Seq<ItemView>) -> Seq<ForeignItemStaticView>
    decreases items.len(),
{
    if items.len() == 0 {
        Seq::empty()
    } else {
        let before = extracted_statics(items.drop_last());
        match items.last() {
            ItemView::ForeignMod(block) => before + block_statics(block.items),
            _ => before,
        }
    }
}

/// What is left of one declaration once its functions and statics are taken out: nothing
/// if it was a block that held nothing else, else the declaration with what remains.
pub open spec fn remaining_item(item: ItemView) -> Option<ItemView> {
    match item {
        ItemView::ForeignMod(block) => {
            let rest = block_rest(block.items);
            if rest.len() == 0 {
                None
            } else {
                Some(ItemView::ForeignMod(ItemForeignModView { items: rest, ..block }))
            }
        },
        other => Some(other),
    }
}

/// What is left of a module once the functions and statics are taken out of its blocks
/// and the blocks that this leaves empty are dropped.
pub open spec fn remaining_items(items: Seq<ItemView>) -> Seq<ItemView>
    decreases items.len(),
{
    if items.len() == 0 {
        Seq::empty()
    } else {
        let before = remaining_items(items.drop_last());
        match remaining_item(items.last()) {
            Some(item) => before.push(item),
            None => before,
        }
    }
}

impl ExternFunction {
    /// Whether this is the declaration of a true foreign function: not generic, neither
    /// `const` nor `async`, and without a `self` parameter.
    pub fn is_well_formed(&self) -> (well_formed: bool)
        ensures
            well_formed == self.deep_view().item.sig.well_formed(),
    {
        let sig = &self.item.sig;
        if sig.constness || sig.asyncness || sig.generics.is_some() {
            return false;
        }
        let mut i: usize = 0;
        while i < sig.inputs.len()
            invariant
                i <= sig.inputs.len(),
                sig.deep_view() == self.deep_view().item.sig,
                forall|j: int| 0 <= j < i ==> #[trigger] sig.deep_view().inputs[j] is Typed,
            decreases sig.inputs.len() - i,
        {
            match &sig.inputs[i] {
                ForeignArg::Receiver(_) => {
                    assert(sig.deep_view().inputs[i as int] is Receiver);
                    return false;
                },
                ForeignArg::Typed(_) => {
                    assert(sig.deep_view().inputs[i as int] is Typed);
                },
            }
            i = i + 1;
        }
        true
    }
}

impl Bindings {
    /// The place of the first function that is not a true foreign function, if there is one.
    pub fn find_malformed(&self) -> (found: Option<usize>)
        ensures
            found is None <==> all_well_formed(self.deep_view().functions),
            found matches Some(index) ==> is_first_malformed(
                self.deep_view().functions,
                index as int,
            ),
    {
        let ghost functions = self.deep_view().functions;
        let mut i: usize = 0;
        while i < self.functions.len()
            invariant
                i <= self.functions.len(),
                functions == self.deep_view().functions,
                all_well_formed(functions.take(i as int)),
            decreases self.functions.len() - i,
        {
            if !self.functions[i].is_well_formed() {
                assert(!functions[i as int].item.sig.well_formed());
                return Some(i);
            }
            assert forall|j: int| 0 <= j < i + 1 implies (#[trigger] functions.take(
                i + 1,
            )[j]).item.sig.well_formed() by {
                if j < i {
                    assert(functions.take(i as int)[j].item.sig.well_formed());
                }
            }
            i = i + 1;
        }
        assert(functions.take(i as int) =~= functions);
        None
    }

    /// The place of the first function whose name an earlier function has, if there is one.
    pub fn find_duplicate(&self) -> (found: Option<usize>)
        ensures
            found is None <==> names_distinct(self.deep_view().functions),
            found matches Some(index) ==> is_first_repeat(self.deep_view().functions, index as int),
    {
        let ghost functions = self.deep_view().functions;
        let mut i: usize = 0;
        while i < self.functions.len()
            invariant
                i <= self.functions.len(),
                functions == self.deep_view().functions,
                forall|j: int| 0 <= j < i ==> !#[trigger] repeats_a_name(functions, j),
            decreases self.functions.len() - i,
        {
            let mut k: usize = 0;
            while k < i
                invariant
                    k <= i,
                    i < self.functions.len(),
                    functions == self.deep_view().functions,
                    forall|j: int| 0 <= j < i ==> !#[trigger] repeats_a_name(functions, j),
                    forall|e: int|
                        0 <= e < k ==> (#[trigger] functions[e]).item.sig.ident
                            != functions[i as int].item.sig.ident,
                decreases i - k,
            {
                if self.functions[k].item.sig.ident == self.functions[i].item.sig.ident {
                    assert(functions[k as int].item.sig.ident
                        == functions[i as int].item.sig.ident);
                    assert(repeats_a_name(functions, i as int));
                    return Some(i);
                }
                k = k + 1;
            }
            i = i + 1;
        }
        None
    }
}

/// What stays in a block is what was neither function nor static, in the order it had.
pub proof fn lemma_block_rest_in_order(items: Seq<ForeignItemView>)
    ensures
        block_rest(items) == items.filter(|item: ForeignItemView| item is Verbatim),
    decreases items.len(),
{
    reveal(Seq::filter);
    if items.len() > 0 {
        lemma_block_rest_in_order(items.drop_last());
    }
}

/// Nothing stays in a block exactly when each of its items is a function or a static.
pub proof fn lemma_block_rest_empty(items: Seq<ForeignItemView>)
    ensures
        block_rest(items).len() == 0 <==> forall|i: int|
            0 <= i < items.len() ==> (#[trigger] items[i]) is Fn || items[i] is Static,
    decreases items.len(),
{
    if items.len() > 0 {
        let before = items.drop_last();
        lemma_block_rest_empty(before);
        if block_rest(items).len() == 0 {
            assert forall|i: int| 0 <= i < items.len() implies (#[trigger] items[i]) is Fn
                || items[i] is Static by {
                if i < items.len() - 1 {
                    assert(before[i] == items[i]);
                }
            }
        } else if !(items.last() is Verbatim) {
            let i = choose|i: int|
                0 <= i < before.len() && !((#[trigger] before[i]) is Fn || before[i] is Static);
            assert(before[i] == items[i]);
        }
    }
}

/// Extraction removes a block from the module if and only if the block held nothing but
/// functions and statics. A block that held something else stays, with its attributes
/// and calling convention, and holds what was neither function nor static, in the order
/// it had. A declaration that is no block stays as it is.
pub proof fn lemma_block_removed_iff_empty(item: ItemView)
    ensures
        item matches ItemView::ForeignMod(block) ==> {
            &&& remaining_item(item) is None <==> forall|i: int|
                0 <= i < block.items.len() ==> (#[trigger] block.items[i]) is Fn
                    || block.items[i] is Static
            &&& remaining_item(item) matches Some(ItemView::ForeignMod(kept)) ==> {
                &&& kept.attrs == block.attrs
                &&& kept.abi == block.abi
                &&& kept.items == block.items.filter(|item: ForeignItemView| item is Verbatim)
            }
            &&& remaining_item(item) is Some ==> remaining_item(item)->0 is ForeignMod
        },
        !(item is ForeignMod) ==> remaining_item(item) == Some(item),
{
    if let ItemView::ForeignMod(block) = item {
        lemma_block_rest_empty(block.items);
        lemma_block_rest_in_order(block.items);
    }
}

/// What is left of a module is what is left of each declaration, in the order of the
/// declarations.
pub proof fn lemma_remaining_in_order(items: Seq<ItemView>)
    ensures
        remaining_items(items) == items.filter_map(|item: ItemView| remaining_item(item)),
    decreases items.len(),
{
    if items.len() > 0 {
        lemma_remaining_in_order(items.drop_last());
        let f = |item: ItemView| remaining_item(item);
        assert(remaining_items(items) =~= items.filter_map(f));
    }
}

/// What stays in a block is neither function nor static.
pub proof fn lemma_block_rest_holds_no_binding(items: Seq<ForeignItemView>)
    ensures
        forall|k: int|
            0 <= k < block_rest(items).len() ==> (#[trigger] block_rest(items)[k]) is Verbatim,
    decreases items.len(),
{
    if items.len() > 0 {
        lemma_block_rest_holds_no_binding(items.drop_last());
    }
}

/// A block that holds neither function nor static gives nothing and stays as it is.
pub proof fn lemma_block_without_bindings(abi: Option<Seq<char>>, items: Seq<ForeignItemView>)
    requires
        forall|k: int| 0 <= k < items.len() ==> (#[trigger] items[k]) is Verbatim,
    ensures
        block_functions(abi, items) == Seq::<ExternFunctionView>::empty(),
        block_statics(items) == Seq::<ForeignItemStaticView>::empty(),
        block_rest(items) == items,
    decreases items.len(),
{
    if items.len() > 0 {
        let before = items.drop_last();
        assert forall|k: int| 0 <= k < before.len() implies (#[trigger] before[k]) is Verbatim by {
            assert(before[k] == items[k]);
        }
        lemma_block_without_bindings(abi, before);
        assert(items[items.len() - 1] is Verbatim);
        assert(block_rest(items) =~= items);
    } else {
        assert(block_rest(items) =~= items);
    }
}

/// After extraction no block of the module is empty, and no block holds a function or a
/// static.
pub proof fn lemma_no_binding_left(items: Seq<ItemView>)
    ensures
        forall|i: int|
            0 <= i < remaining_items(items).len() ==> (#[trigger] remaining_items(
                items,
            )[i] matches ItemView::ForeignMod(block) ==> {
                &&& block.items.len() > 0
                &&& forall|k: int|
                    0 <= k < block.items.len() ==> (#[trigger] block.items[k]) is Verbatim
            }),
    decreases items.len(),
{
    if items.len() > 0 {
        lemma_no_binding_left(items.drop_last());
        if let ItemView::ForeignMod(block) = items.last() {
            lemma_block_rest_holds_no_binding(block.items);
        }
    }
}

/// Extraction has nothing to do a second time: from what it left it takes no function and
/// no static, and it leaves every declaration where it is.
pub proof fn lemma_extraction_is_idempotent(items: Seq<ItemView>)
    ensures
        extracted_functions(remaining_items(items)) == Seq::<ExternFunctionView>::empty(),
        extracted_statics(remaining_items(items)) == Seq::<ForeignItemStaticView>::empty(),
        remaining_items(remaining_items(items)) == remaining_items(items),
{
    lemma_no_binding_left(items);
    lemma_nothing_bound(remaining_items(items));
}

/// A module whose blocks are not empty and hold neither function nor static gives nothing
/// and stays as it is.
proof fn lemma_nothing_bound(items: Seq<ItemView>)
    requires
        forall|i: int|
            0 <= i < items.len() ==> (#[trigger] items[i] matches ItemView::ForeignMod(block)
                ==> {
                &&& block.items.len() > 0
                &&& forall|k: int|
                    0 <= k < block.items.len() ==> (#[trigger] block.items[k]) is Verbatim
            }),
    ensures
        extracted_functions(items) == Seq::<ExternFunctionView>::empty(),
        extracted_statics(items) == Seq::<ForeignItemStaticView>::empty(),
        remaining_items(items) == items,
    decreases items.len(),
{
    if items.len() > 0 {
        let before = items.drop_last();
        assert forall|i: int| 0 <= i < before.len() implies (#[trigger] before[i]
            matches ItemView::ForeignMod(block) ==> {
            &&& block.items.len() > 0
            &&& forall|k: int|
                0 <= k < block.items.len() ==> (#[trigger] block.items[k]) is Verbatim
        }) by {
            assert(before[i] == items[i]);
        }
        lemma_nothing_bound(before);
        let last = items[items.len() - 1];
        if let ItemView::ForeignMod(block) = last {
            lemma_block_without_bindings(block.abi.name, block.items);
            assert(extracted_functions(items) =~= Seq::<ExternFunctionView>::empty());
            assert(extracted_statics(items) =~= Seq::<ForeignItemStaticView>::empty());
        }
        assert(remaining_items(items) =~= items);
    } else {
        assert(remaining_items(items) =~= items);
    }
}

/// A module without `extern` blocks has nothing to bind: extraction finds no function and
/// no static, and leaves every declaration where it is.
pub proof fn lemma_nothing_to_extract(items: Seq<ItemView>)
    requires
        forall|i: int| 0 <= i < items.len() ==> !((#[trigger] items[i]) is ForeignMod),
    ensures
        extracted_functions(items) == Seq::<ExternFunctionView>::empty(),
        extracted_statics(items) == Seq::<ForeignItemStaticView>::empty(),
        remaining_items(items) == items,
    decreases items.len(),
{
    if items.len() > 0 {
        let before = items.drop_last();
        assert forall|i: int| 0 <= i < before.len() implies !((#[trigger] before[i])
            is ForeignMod) by {
            assert(before[i] == items[i]);
        }
        lemma_nothing_to_extract(before);
        assert(!(items[items.len() - 1] is ForeignMod));
        assert(remaining_items(items) =~= items);
    } else {
        assert(remaining_items(items) =~= items);
    }
}

/// The state of one extraction pass over a module.
#[derive(Debug)]
pub struct Generator {
    pub functions: Vec<ExternFunction>,
    pub statics: Vec<ForeignItemStatic>,
    pub current_abi: Option<String>,
}

impl Generator {
    pub fn new() -> (generator: Generator)
        ensures
            generator.functions@.len() == 0,
            generator.statics@.len() == 0,
            generator.current_abi is None,
    {
        Generator { functions: Vec::new(), statics: Vec::new(), current_abi: None }
    }

    /// Takes every function and static out of `extern_block` and records it; whatever else
    /// the block holds stays there, in its order.
    pub fn visit_item_foreign_mod_mut(&mut self, extern_block: &mut ItemForeignMod)
        ensures
            final(extern_block).deep_view() == (ItemForeignModView {
                items: block_rest(old(extern_block).deep_view().items),
                ..old(extern_block).deep_view()
            }),
            final(self).functions.deep_view() == old(self).functions.deep_view() + block_functions(
                old(extern_block).deep_view().abi.name,
                old(extern_block).deep_view().items,
            ),
            final(self).statics.deep_view() == old(self).statics.deep_view() + block_statics(
                old(extern_block).deep_view().items,
            ),
            final(self).current_abi is None,
    {
        let ghost before = extern_block.deep_view();
        let ghost functions_before = self.functions.deep_view();
        let ghost statics_before = self.statics.deep_view();

        self.current_abi = copy_optional_text(&extern_block.abi.name);
        let mut items: Vec<ForeignItem> = Vec::new();
        core::mem::swap(&mut extern_block.items, &mut items);
        let ghost all = items@;
        assert(items.deep_view() == before.items);
        assert(extern_block.items.deep_view() =~= block_rest(before.items.take(0)));
        assert(self.functions.deep_view() =~= functions_before + block_functions(
            before.abi.name,
            before.items.take(0),
        ));
        assert(self.statics.deep_view() =~= statics_before + block_statics(before.items.take(0)));

        for it in iter: items
            invariant
                iter.seq() == all,
                before.items.len() == all.len(),
                forall|i: int| 0 <= i < all.len() ==> before.items[i] == all[i].deep_view(),
                self.current_abi.deep_view() == before.abi.name,
                extern_block.attrs.deep_view() == before.attrs,
                extern_block.abi.deep_view() == before.abi,
                extern_block.items.deep_view() == block_rest(before.items.take(iter.index())),
                self.functions.deep_view() == functions_before + block_functions(
                    before.abi.name,
                    before.items.take(iter.index()),
                ),
                self.statics.deep_view() == statics_before + block_statics(
                    before.items.take(iter.index()),
                ),
        {
            let ghost n = iter.index();
            let ghost kept = extern_block.items@;
            let ghost functions = self.functions@;
            let ghost statics = self.statics@;
            assert(before.items.take(n + 1).drop_last() =~= before.items.take(n));
            assert(before.items.take(n + 1).last() == it.deep_view());
            match it {
                ForeignItem::Fn(item) => {
                    let function = ExternFunction {
                        abi: copy_optional_text(&self.current_abi),
                        item,
                    };
                    self.functions.push(function);
                    proof {
                        lemma_deep_view_push(functions, self.functions, function);
                    }
                    assert(self.functions.deep_view() =~= functions_before + block_functions(
                        before.abi.name,
                        before.items.take(n + 1),
                    ));
                },
                ForeignItem::Static(s) => {
                    self.statics.push(s);
                    proof {
                        lemma_deep_view_push(statics, self.statics, s);
                    }
                    assert(self.statics.deep_view() =~= statics_before + block_statics(
                        before.items.take(n + 1),
                    ));
                },
                other => {
                    extern_block.items.push(other);
                    proof {
                        lemma_deep_view_push(kept, extern_block.items, other);
                    }
                    assert(extern_block.items.deep_view() =~= block_rest(
                        before.items.take(n + 1),
                    ));
                },
            }
        }
        assert(before.items.take(all.len() as int) =~= before.items);
        self.current_abi = None;
    }

    /// Walks the declarations of `file` in order, takes the functions and statics out of
    /// every `extern` block, and drops the blocks that this leaves empty. Every other
    /// declaration stays as it is.
    pub fn visit_file_mut(&mut self, file: &mut File)
        ensures
            final(file).deep_view() == (FileView {
                items: remaining_items(old(file).deep_view().items),
                ..old(file).deep_view()
            }),
            final(self).functions.deep_view() == old(self).functions.deep_view()
                + extracted_functions(old(file).deep_view().items),
            final(self).statics.deep_view() == old(self).statics.deep_view() + extracted_statics(
                old(file).deep_view().items,
            ),
    {
        let ghost before = file.deep_view();
        let ghost functions_before = self.functions.deep_view();
        let ghost statics_before = self.statics.deep_view();

        let mut items: Vec<Item> = Vec::new();
        core::mem::swap(&mut file.items, &mut items);
        let ghost all = items@;
        assert(items.deep_view() == before.items);
        assert(file.items.deep_view() =~= remaining_items(before.items.take(0)));
        assert(self.functions.deep_view() =~= functions_before + extracted_functions(
            before.items.take(0),
        ));
        assert(self.statics.deep_view() =~= statics_before + extracted_statics(
            before.items.take(0),
        ));

        for item in iter: items
            invariant
                iter.seq() == all,
                before.items.len() == all.len(),
                forall|i: int| 0 <= i < all.len() ==> before.items[i] == all[i].deep_view(),
                file.shebang.deep_view() == before.shebang,
                file.attrs.deep_view() == before.attrs,
                file.items.deep_view() == remaining_items(before.items.take(iter.index())),
                self.functions.deep_view() == functions_before + extracted_functions(
                    before.items.take(iter.index()),
                ),
                self.statics.deep_view() == statics_before + extracted_statics(
                    before.items.take(iter.index()),
                ),
        {
            let ghost n = iter.index();
            let ghost kept = file.items@;
            assert(before.items.take(n + 1).drop_last() =~= before.items.take(n));
            assert(before.items.take(n + 1).last() == item.deep_view());
            match item {
                Item::ForeignMod(block) => {
                    let mut block = block;
                    self.visit_item_foreign_mod_mut(&mut block);
                    assert(self.functions.deep_view() =~= functions_before + extracted_functions(
                        before.items.take(n + 1),
                    ));
                    assert(self.statics.deep_view() =~= statics_before + extracted_statics(
                        before.items.take(n + 1),
                    ));
                    if block.items.len() > 0 {
                        let item = Item::ForeignMod(block);
                        file.items.push(item);
                        proof {
                            lemma_deep_view_push(kept, file.items, item);
                        }
                    }
                    assert(file.items.deep_view() =~= remaining_items(before.items.take(n + 1)));
                },
                other => {
                    file.items.push(other);
                    proof {
                        lemma_deep_view_push(kept, file.items, other);
                    }
                    assert(file.items.deep_view() =~= remaining_items(before.items.take(n + 1)));
                },
            }
        }
        assert(before.items.take(all.len() as int) =~= before.items);
    }
}

/// Takes the foreign functions and statics out of `file`.
///
/// Afterwards `file` holds what it held before but for the functions and statics of its
/// `extern` blocks, and but for the blocks that held nothing else. The result lists what
/// was taken out, in the order in which it was declared; each function carries the
/// calling convention of its block.
pub fn extract_raw_bindings(file: &mut File) -> (bindings: Bindings)
    ensures
        final(file).deep_view() == (FileView {
            items: remaining_items(old(file).deep_view().items),
            ..old(file).deep_view()
        }),
        bindings.deep_view() == (BindingsView {
            functions: extracted_functions(old(file).deep_view().items),
            statics: extracted_statics(old(file).deep_view().items),
        }),
{
    let mut generator = Generator::new();
    generator.visit_file_mut(file);
    let Generator { functions, statics, .. } = generator;
    let bindings = Bindings { functions, statics };
    assert(bindings.deep_view().functions =~= extracted_functions(old(file).deep_view().items));
    assert(bindings.deep_view().statics =~= extracted_statics(old(file).deep_view().items));
    bindings
}

} // verus!
