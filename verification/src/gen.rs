//! Synthesis: the declarations that load a library at run time and call into it.

use crate::bindings::{
    all_well_formed, first_repeated_name, is_first_repeat, lemma_first_repeat_unique,
    names_distinct, Bindings, ExternFunction, ExternFunctionView,
};
use crate::strategy::{answers_of, lemma_chosen_well_formed, select, wanted};
use crate::syntax::expr::{
    Expr, ExprView, FieldValue, FieldValueView, Local, LocalView, Stmt, StmtView, UnOp,
};
use crate::syntax::foreign::{
    ForeignArg, ForeignArgView, ForeignItemFn, ForeignItemFnView, ForeignPatType,
    ForeignSignatureView,
};
use crate::syntax::item::{
    Field, FieldView, ImplItemMethod, ImplItemMethodView, Item, ItemImpl, ItemImplView,
    ItemStruct, ItemStructView, ItemView,
};
use crate::syntax::path::{
    lemma_arguments_view, lemma_path_view, Abi, AbiView, Attribute, AttributeView, Lit, LitView,
    Pat, PatIdent, PatIdentView, PatView, Path, PathArguments, PathArgumentsView, PathSegment,
    PathSegmentView, PathView, Visibility,
};
use crate::syntax::types::{
    BareFnArg, BareFnArgView, FnArg, FnArgView, Generics, GenericsView, PatType, PatTypeView,
    Receiver, ReturnType, ReturnTypeView, Signature, SignatureView, Type, TypeBareFn,
    TypeBareFnView, TypeParam, TypeParamView, TypeView, WhereClause, WhereClauseView,
    WherePredicate, WherePredicateView,
};
use crate::text::{copy_optional_text, copy_text, lemma_deep_view_empty, lemma_deep_view_push};
use crate::{BindingStrategy, Error, ErrorView};
use vstd::prelude::*;
use vstd::slice::slice_to_vec;

verus! {

/// The path made of the given names, one segment each, without type arguments.
pub open spec fn plain_path(leading_colon: bool, names: Seq<Seq<char>>) -> PathView {
    PathView {
        leading_colon,
        segments: Seq::new(
            names.len(),
            |i: int| PathSegmentView { ident: names[i], arguments: PathArgumentsView::Plain },
        ),
    }
}

/// The path of one segment `name<args>`.
pub open spec fn generic_path(name: Seq<char>, args: Seq<PathView>) -> PathView {
    PathView {
        leading_colon: false,
        segments: seq![
            PathSegmentView { ident: name, arguments: PathArgumentsView::AngleBracketed(args) },
        ],
    }
}

/// The names that a slice of string slices holds.
pub open spec fn names_of(segments: Seq<&str>) -> Seq<Seq<char>> {
    Seq::new(segments.len(), |i: int| segments[i]@)
}

/// The path `a::b::c` for the segments `a`, `b`, `c`.
pub fn long_path(segments: &[&str]) -> (path: Path)
    ensures
        path.deep_view() == plain_path(false, names_of(segments@)),
{
    let mut parts: Vec<PathSegment> = Vec::new();
    let mut i: usize = 0;
    while i < segments.len()
        invariant
            i <= segments.len(),
            parts@.len() == i,
            forall|j: int|
                0 <= j < i ==> (#[trigger] parts@[j]).deep_view() == (PathSegmentView {
                    ident: segments@[j]@,
                    arguments: PathArgumentsView::Plain,
                }),
        decreases segments.len() - i,
    {
        parts.push(PathSegment { ident: segments[i].to_string(), arguments: PathArguments::Plain });
        i = i + 1;
    }
    let path = Path { leading_colon: false, segments: parts };
    proof {
        lemma_path_view(path);
        assert(path.segments.deep_view() =~= plain_path(false, names_of(segments@)).segments);
    }
    path
}

/// The path that is the single name `name`.
pub fn short_path(name: &str) -> (path: Path)
    ensures
        path.deep_view() == plain_path(false, seq![name@]),
{
    let mut parts: Vec<PathSegment> = Vec::new();
    parts.push(PathSegment { ident: name.to_string(), arguments: PathArguments::Plain });
    let path = Path { leading_colon: false, segments: parts };
    proof {
        lemma_path_view(path);
        assert(path.segments.deep_view() =~= plain_path(false, seq![name@]).segments);
    }
    path
}

/// The path `name<args>`: a generic type applied to the given type arguments.
pub fn generic_type(name: &str, args: Vec<Path>) -> (path: Path)
    ensures
        path.deep_view() == generic_path(name@, args.deep_view()),
{
    let ghost args_view = args.deep_view();
    let segment = PathSegment {
        ident: name.to_string(),
        arguments: PathArguments::AngleBracketed(args),
    };
    let mut parts: Vec<PathSegment> = Vec::new();
    parts.push(segment);
    let path = Path { leading_colon: false, segments: parts };
    proof {
        lemma_arguments_view(args);
        lemma_path_view(path);
        assert(path.segments.deep_view() =~= generic_path(name@, args_view).segments);
    }
    path
}

/// The text of the note on the library handle.
pub open spec fn safety_note() -> Seq<char> {
    "Safety: We need to keep the library handle around because our vtable's pointers point into it."@
}

/// The documentation of the library handle: why the handle must stay in the struct.
pub fn library_safety_docs() -> (docs: Lit)
    ensures
        docs.deep_view() == LitView::Str(safety_note()),
{
    let msg =
        "Safety: We need to keep the library handle around because our vtable's pointers point into it.";
    Lit::Str(msg.to_string())
}

/// Generics without parameters and without a `where` clause.
pub open spec fn no_generics() -> GenericsView {
    GenericsView { params: Seq::empty(), where_clause: None }
}

fn empty_generics() -> (generics: Generics)
    ensures
        generics.deep_view() == no_generics(),
{
    let generics = Generics { params: Vec::new(), where_clause: None };
    proof {
        lemma_deep_view_empty(generics.params);
    }
    generics
}

fn no_attributes() -> (attrs: Vec<Attribute>)
    ensures
        attrs.deep_view() == Seq::<AttributeView>::empty(),
{
    let attrs: Vec<Attribute> = Vec::new();
    proof {
        lemma_deep_view_empty(attrs);
    }
    attrs
}

/// The parameter of a function-pointer type that stands for a parameter of a foreign
/// function: its type, without a name.
pub open spec fn bare_arg_of(arg: ForeignArgView) -> BareFnArgView {
    BareFnArgView { name: None, ty: arg->Typed_0.ty }
}

/// The type of the pointer to a foreign function: the function's own parameter types,
/// return type, calling convention and variadic flag, and `unsafe` to call.
pub open spec fn pointer_type_of(func: ExternFunctionView) -> TypeBareFnView {
    TypeBareFnView {
        unsafety: true,
        abi: Some(AbiView { name: func.abi }),
        inputs: Seq::new(
            func.item.sig.inputs.len(),
            |i: int| bare_arg_of(func.item.sig.inputs[i]),
        ),
        variadic: func.item.sig.variadic,
        output: func.item.sig.output,
    }
}

/// The path `::libloading::Library`.
pub open spec fn library_type_path() -> PathView {
    plain_path(true, seq!["libloading"@, "Library"@])
}

/// The field that owns the loaded library. It carries the note on why it must stay.
pub open spec fn library_field() -> FieldView {
    FieldView {
        attrs: seq![
            AttributeView::NameValue {
                path: plain_path(false, seq!["doc"@]),
                lit: LitView::Str(safety_note()),
            },
        ],
        vis: Visibility::Inherited,
        ident: "_library"@,
        ty: TypeView::Path(library_type_path()),
    }
}

/// The field that holds the pointer to one foreign function, named as the function is.
pub open spec fn function_field(func: ExternFunctionView) -> FieldView {
    FieldView {
        attrs: Seq::empty(),
        vis: Visibility::Inherited,
        ident: func.item.sig.ident,
        ty: TypeView::BareFn(pointer_type_of(func)),
    }
}

/// The struct `Bindings`: the library handle first, then one field for each function, in
/// the order of the functions.
pub open spec fn vtable_of(functions: Seq<ExternFunctionView>) -> ItemStructView {
    ItemStructView {
        attrs: Seq::empty(),
        vis: Visibility::Public,
        ident: "Bindings"@,
        generics: no_generics(),
        fields: seq![library_field()] + Seq::new(
            functions.len(),
            |i: int| function_field(functions[i]),
        ),
    }
}

/// Turns a parameter of a foreign function into a parameter of a function-pointer type.
pub fn to_bare_fn_arg(arg: &ForeignArg) -> (bare: BareFnArg)
    requires
        arg.deep_view() is Typed,
    ensures
        bare.deep_view() == bare_arg_of(arg.deep_view()),
{
    match arg {
        ForeignArg::Receiver(text) => BareFnArg { name: None, ty: copy_text(text) },
        ForeignArg::Typed(typed) => BareFnArg { name: None, ty: copy_text(&typed.ty) },
    }
}

/// The type of the pointer through which `func` is called.
pub fn function_signature(func: &ExternFunction) -> (signature: TypeBareFn)
    requires
        func.deep_view().item.sig.well_formed(),
    ensures
        signature.deep_view() == pointer_type_of(func.deep_view()),
{
    let sig = &func.item.sig;
    let mut inputs: Vec<BareFnArg> = Vec::new();
    let mut i: usize = 0;
    while i < sig.inputs.len()
        invariant
            i <= sig.inputs.len(),
            inputs@.len() == i,
            sig.deep_view().well_formed(),
            forall|j: int|
                0 <= j < i ==> (#[trigger] inputs@[j]).deep_view() == bare_arg_of(
                    sig.inputs@[j].deep_view(),
                ),
        decreases sig.inputs.len() - i,
    {
        assert(sig.deep_view().inputs[i as int] is Typed);
        inputs.push(to_bare_fn_arg(&sig.inputs[i]));
        i = i + 1;
    }
    let signature = TypeBareFn {
        unsafety: true,
        abi: Some(Abi { name: copy_optional_text(&func.abi) }),
        inputs,
        variadic: sig.variadic,
        output: copy_optional_text(&sig.output),
    };
    assert(signature.deep_view().inputs =~= pointer_type_of(func.deep_view()).inputs);
    signature
}

/// The struct that holds the loaded library and a pointer to each function of `bindings`.
///
/// Two fields of one name would be no struct: where two functions share a name, the
/// result is the error that names the first function whose name was seen before.
pub fn bindings_vtable(bindings: &Bindings) -> (vtable: Result<ItemStruct, Error>)
    requires
        all_well_formed(bindings.deep_view().functions),
    ensures
        names_distinct(bindings.deep_view().functions) ==> vtable is Ok
            && vtable.unwrap().deep_view() == vtable_of(bindings.deep_view().functions),
        !names_distinct(bindings.deep_view().functions) ==> vtable is Err
            && vtable.unwrap_err().deep_view() == ErrorView::DuplicateSymbol(
            first_repeated_name(bindings.deep_view().functions),
        ),
{
    let ghost functions = bindings.deep_view().functions;
    match bindings.find_duplicate() {
        Some(index) => {
            proof {
                let first = choose|first: int| is_first_repeat(functions, first);
                lemma_first_repeat_unique(functions, index as int, first);
            }
            let name = copy_text(&bindings.functions[index].item.sig.ident);
            return Err(Error::DuplicateSymbol(name));
        },
        None => {},
    }
    let mut fields: Vec<Field> = Vec::new();

    let mut library = long_path(&["libloading", "Library"]);
    library.leading_colon = true;
    let mut docs: Vec<Attribute> = Vec::new();
    docs.push(Attribute::NameValue { path: short_path("doc"), lit: library_safety_docs() });
    let handle = Field {
        attrs: docs,
        vis: Visibility::Inherited,
        ident: "_library".to_string(),
        ty: Type::Path(library),
    };
    proof {
        lemma_path_view(library);
        assert(library.deep_view().segments =~= library_type_path().segments);
        assert(handle.deep_view().attrs =~= library_field().attrs);
    }
    fields.push(handle);

    let mut i: usize = 0;
    while i < bindings.functions.len()
        invariant
            i <= bindings.functions.len(),
            functions == bindings.deep_view().functions,
            all_well_formed(functions),
            fields@.len() == i + 1,
            fields@[0].deep_view() == library_field(),
            forall|j: int|
                1 <= j <= i ==> (#[trigger] fields@[j]).deep_view() == function_field(
                    functions[j - 1],
                ),
        decreases bindings.functions.len() - i,
    {
        let func = &bindings.functions[i];
        assert(func.deep_view() == functions[i as int]);
        let sig = function_signature(func);
        fields.push(
            Field {
                attrs: no_attributes(),
                vis: Visibility::Inherited,
                ident: copy_text(&func.item.sig.ident),
                ty: Type::BareFn(sig),
            },
        );
        i = i + 1;
    }

    let vtable = ItemStruct {
        attrs: no_attributes(),
        vis: Visibility::Public,
        ident: "Bindings".to_string(),
        generics: empty_generics(),
        fields,
    };
    assert(vtable.deep_view().fields =~= vtable_of(functions).fields);
    Ok(vtable)
}

/// The pattern that binds the plain name `name`.
pub open spec fn binding(name: Seq<char>) -> PatView {
    PatView::Ident(PatIdentView { by_ref: false, mutability: false, ident: name, subpat: None })
}

fn bind(name: String) -> (pat: Pat)
    ensures
        pat.deep_view() == binding(name@),
{
    Pat::Ident(PatIdent { by_ref: false, mutability: false, ident: name, subpat: None })
}

/// The expression that is the single name `name`.
pub open spec fn variable(name: Seq<char>) -> ExprView {
    ExprView::Path(plain_path(false, seq![name]))
}

/// The type named by the single name `name`.
pub open spec fn named_type(name: Seq<char>) -> TypeView {
    TypeView::Path(plain_path(false, seq![name]))
}

/// The self type of the generated `impl` blocks: `Bindings`.
pub open spec fn vtable_type() -> TypeView {
    named_type("Bindings"@)
}

/// The signature of the loader:
///
/// ```text
/// unsafe fn load_from_path<P>(path: P) -> Result<Self, ::libloading::Error>
/// where
///     P: AsRef<::std::ffi::OsStr>
/// ```
pub open spec fn loader_signature() -> SignatureView {
    SignatureView {
        constness: false,
        asyncness: false,
        unsafety: true,
        abi: None,
        ident: "load_from_path"@,
        generics: GenericsView {
            params: seq![TypeParamView { ident: "P"@ }],
            where_clause: Some(
                WhereClauseView::Predicates(
                    seq![
                        WherePredicateView {
                            bounded_ty: named_type("P"@),
                            bounds: seq![
                                generic_path(
                                    "AsRef"@,
                                    seq![plain_path(true, seq!["std"@, "ffi"@, "OsStr"@])],
                                ),
                            ],
                        },
                    ],
                ),
            ),
        },
        inputs: seq![
            FnArgView::Typed(
                PatTypeView {
                    attrs: Seq::empty(),
                    pat: binding("path"@),
                    ty: named_type("P"@),
                },
            ),
        ],
        variadic: false,
        output: ReturnTypeView::Type(
            TypeView::Path(
                generic_path(
                    "Result"@,
                    seq![
                        plain_path(false, seq!["Self"@]),
                        plain_path(true, seq!["libloading"@, "Error"@]),
                    ],
                ),
            ),
        ),
    }
}

/// `let library = ::libloading::Library::new(path)?;`
pub open spec fn open_library() -> StmtView {
    StmtView::Local(
        LocalView {
            pat: binding("library"@),
            init: Some(
                ExprView::Try(
                    Box::new(
                        ExprView::Call {
                            func: Box::new(
                                ExprView::Path(
                                    plain_path(true, seq!["libloading"@, "Library"@, "new"@]),
                                ),
                            ),
                            args: seq![variable("path"@)],
                        },
                    ),
                ),
            ),
        },
    )
}

/// `let name = *library.get(b"name")?;`: the symbol is looked up by the bytes of the
/// function's name and bound to a variable of that name.
pub open spec fn resolve_symbol(name: Seq<char>) -> StmtView {
    StmtView::Local(
        LocalView {
            pat: binding(name),
            init: Some(
                ExprView::Unary {
                    op: UnOp::Deref,
                    expr: Box::new(
                        ExprView::Try(
                            Box::new(
                                ExprView::MethodCall {
                                    receiver: Box::new(variable("library"@)),
                                    method: "get"@,
                                    args: seq![
                                        ExprView::Lit(
                                            LitView::ByteStr(vstd::utf8::encode_utf8(name)),
                                        ),
                                    ],
                                },
                            ),
                        ),
                    ),
                },
            ),
        },
    )
}

/// `_library: library`
pub open spec fn library_field_value() -> FieldValueView {
    FieldValueView { member: "_library"@, colon: true, expr: variable("library"@) }
}

/// `name`, short for `name: name`
pub open spec fn function_field_value(name: Seq<char>) -> FieldValueView {
    FieldValueView { member: name, colon: false, expr: variable(name) }
}

/// `Ok(Bindings { _library: library, first, second, .. })`
pub open spec fn assemble_vtable(functions: Seq<ExternFunctionView>) -> StmtView {
    StmtView::Expr(
        ExprView::Call {
            func: Box::new(variable("Ok"@)),
            args: seq![
                ExprView::Struct {
                    path: plain_path(false, seq!["Bindings"@]),
                    fields: seq![library_field_value()] + Seq::new(
                        functions.len(),
                        |i: int| function_field_value(functions[i].item.sig.ident),
                    ),
                },
            ],
        },
    )
}

/// The body of the loader: open the library, resolve the symbol of every function in
/// order, then hand back the struct with the library and all the pointers.
pub open spec fn loader_body(functions: Seq<ExternFunctionView>) -> Seq<StmtView> {
    seq![open_library()] + Seq::new(
        functions.len(),
        |i: int| resolve_symbol(functions[i].item.sig.ident),
    ) + seq![assemble_vtable(functions)]
}

/// The loader: the public method `load_from_path`.
pub open spec fn loader_of(functions: Seq<ExternFunctionView>) -> ImplItemMethodView {
    ImplItemMethodView {
        attrs: Seq::empty(),
        vis: Visibility::Public,
        sig: loader_signature(),
        block: loader_body(functions),
    }
}

/// The `impl Bindings` block that holds the loader and nothing else.
pub open spec fn constructor_of(functions: Seq<ExternFunctionView>) -> ItemImplView {
    ItemImplView {
        attrs: Seq::empty(),
        generics: no_generics(),
        self_ty: vtable_type(),
        items: seq![loader_of(functions)],
    }
}

fn rooted_path(segments: &[&str]) -> (path: Path)
    ensures
        path.deep_view() == plain_path(true, names_of(segments@)),
{
    let mut path = long_path(segments);
    proof {
        lemma_path_view(path);
    }
    path.leading_colon = true;
    proof {
        lemma_path_view(path);
    }
    path
}

fn variable_expr(name: &str) -> (e: Expr)
    ensures
        e.deep_view() == variable(name@),
{
    Expr::path(short_path(name))
}

fn type_named(name: &str) -> (ty: Type)
    ensures
        ty.deep_view() == named_type(name@),
{
    Type::Path(short_path(name))
}

/// The signature of the loader.
pub fn load_from_path_signature() -> (sig: Signature)
    ensures
        sig.deep_view() == loader_signature(),
{
    let libloading_error = rooted_path(&["libloading", "Error"]);
    let mut result_args: Vec<Path> = Vec::new();
    result_args.push(short_path("Self"));
    result_args.push(libloading_error);
    assert(result_args.deep_view() =~= seq![
        plain_path(false, seq!["Self"@]),
        plain_path(true, seq!["libloading"@, "Error"@]),
    ]) by {
        assert(names_of((["libloading", "Error"])@) =~= seq!["libloading"@, "Error"@]);
    }
    let output = ReturnType::Type(Type::Path(generic_type("Result", result_args)));

    let mut as_ref_args: Vec<Path> = Vec::new();
    as_ref_args.push(rooted_path(&["std", "ffi", "OsStr"]));
    assert(as_ref_args.deep_view() =~= seq![plain_path(true, seq!["std"@, "ffi"@, "OsStr"@])]) by {
        assert(names_of((["std", "ffi", "OsStr"])@) =~= seq!["std"@, "ffi"@, "OsStr"@]);
    }
    let as_ref_os_str = generic_type("AsRef", as_ref_args);

    let mut bounds: Vec<Path> = Vec::new();
    bounds.push(as_ref_os_str);
    let predicate = WherePredicate { bounded_ty: type_named("P"), bounds };
    assert(predicate.deep_view().bounds =~= seq![
        generic_path("AsRef"@, seq![plain_path(true, seq!["std"@, "ffi"@, "OsStr"@])]),
    ]);
    let mut predicates: Vec<WherePredicate> = Vec::new();
    predicates.push(predicate);
    let mut params: Vec<TypeParam> = Vec::new();
    params.push(TypeParam { ident: "P".to_string() });
    let generics = Generics { params, where_clause: Some(WhereClause::Predicates(predicates)) };
    assert(generics.deep_view().params =~= loader_signature().generics.params);
    assert(generics.deep_view().where_clause->0->Predicates_0
        =~= loader_signature().generics.where_clause->0->Predicates_0);

    let mut inputs: Vec<FnArg> = Vec::new();
    inputs.push(
        FnArg::Typed(
            PatType { attrs: no_attributes(), pat: bind("path".to_string()), ty: type_named("P") },
        ),
    );
    assert(inputs.deep_view() =~= loader_signature().inputs);

    Signature {
        constness: false,
        asyncness: false,
        unsafety: true,
        abi: None,
        ident: "load_from_path".to_string(),
        generics,
        inputs,
        variadic: false,
        output,
    }
}

/// The loader for `bindings`: it opens the library at the given path, resolves the
/// symbol of every function by its name, and hands back the filled struct. Every failure
/// is handed to the caller with `?`, so nothing is built unless everything was found.
pub fn load_from_path(bindings: &Bindings) -> (method: ImplItemMethod)
    ensures
        method.deep_view() == loader_of(bindings.deep_view().functions),
{
    let ghost functions = bindings.deep_view().functions;
    let sig = load_from_path_signature();

    let mut new_args: Vec<Expr> = Vec::new();
    new_args.push(variable_expr("path"));
    assert(new_args.deep_view() =~= seq![variable("path"@)]);
    let library_new = Expr::call(
        Expr::path(rooted_path(&["libloading", "Library", "new"])),
        new_args,
    );
    assert(names_of((["libloading", "Library", "new"])@) =~= seq![
        "libloading"@,
        "Library"@,
        "new"@,
    ]);
    let opening_the_library = Stmt::Local(
        Local { pat: bind("library".to_string()), init: Some(Expr::try_(library_new)) },
    );
    assert(opening_the_library.deep_view() == open_library());

    let mut stmts: Vec<Stmt> = Vec::new();
    stmts.push(opening_the_library);
    let mut binding_struct_fields: Vec<FieldValue> = Vec::new();
    binding_struct_fields.push(
        FieldValue { member: "_library".to_string(), colon: true, expr: variable_expr("library") },
    );

    let mut i: usize = 0;
    while i < bindings.functions.len()
        invariant
            i <= bindings.functions.len(),
            functions == bindings.deep_view().functions,
            stmts@.len() == i + 1,
            binding_struct_fields@.len() == i + 1,
            stmts@[0].deep_view() == open_library(),
            binding_struct_fields@[0].deep_view() == library_field_value(),
            forall|j: int|
                1 <= j <= i ==> (#[trigger] stmts@[j]).deep_view() == resolve_symbol(
                    functions[j - 1].item.sig.ident,
                ),
            forall|j: int|
                1 <= j <= i ==> (#[trigger] binding_struct_fields@[j]).deep_view()
                    == function_field_value(functions[j - 1].item.sig.ident),
        decreases bindings.functions.len() - i,
    {
        let func = &bindings.functions[i];
        assert(func.deep_view() == functions[i as int]);
        let argument = &func.item.sig.ident;

        let mut get_args: Vec<Expr> = Vec::new();
        get_args.push(Expr::lit(Lit::ByteStr(slice_to_vec(argument.as_str().as_bytes()))));
        assert(get_args.deep_view() =~= seq![
            ExprView::Lit(LitView::ByteStr(vstd::utf8::encode_utf8(argument@))),
        ]);
        let library_get = Expr::method_call(variable_expr("library"), "get".to_string(), get_args);
        let assignment = Stmt::Local(
            Local {
                pat: bind(copy_text(argument)),
                init: Some(Expr::unary(UnOp::Deref, Expr::try_(library_get))),
            },
        );
        assert(assignment.deep_view() == resolve_symbol(argument@));
        stmts.push(assignment);

        let name = copy_text(argument);
        let value = Expr::path(short_path(name.as_str()));
        binding_struct_fields.push(FieldValue { member: name, colon: false, expr: value });
        i = i + 1;
    }

    assert(binding_struct_fields.deep_view() =~= seq![library_field_value()] + Seq::new(
        functions.len(),
        |i: int| function_field_value(functions[i].item.sig.ident),
    ));
    let binding_struct_literal = Expr::struct_(short_path("Bindings"), binding_struct_fields);
    let mut ok_args: Vec<Expr> = Vec::new();
    ok_args.push(binding_struct_literal);
    assert(ok_args.deep_view() =~= seq![binding_struct_literal.deep_view()]);
    let last = Stmt::Expr(Expr::call(variable_expr("Ok"), ok_args));
    assert(last.deep_view() == assemble_vtable(functions));
    stmts.push(last);
    assert(stmts.deep_view() =~= loader_body(functions));

    ImplItemMethod { attrs: no_attributes(), vis: Visibility::Public, sig, block: stmts }
}

/// The `impl Bindings` block with the loader for `bindings`.
pub fn bindings_constructor(bindings: &Bindings) -> (constructor: ItemImpl)
    ensures
        constructor.deep_view() == constructor_of(bindings.deep_view().functions),
{
    let load_from_path = load_from_path(bindings);
    let mut items: Vec<ImplItemMethod> = Vec::new();
    items.push(load_from_path);
    let constructor = ItemImpl {
        attrs: no_attributes(),
        generics: empty_generics(),
        self_ty: type_named("Bindings"),
        items,
    };
    assert(constructor.deep_view().items =~= seq![loader_of(bindings.deep_view().functions)]);
    constructor
}

/// `&self`
pub open spec fn self_reference() -> FnArgView {
    FnArgView::Receiver(Receiver { reference: true, mutability: false })
}

/// The parameter of a method that stands for a parameter of a foreign function: the same
/// attributes, pattern and type.
pub open spec fn method_arg_of(arg: ForeignArgView) -> FnArgView {
    FnArgView::Typed(
        PatTypeView {
            attrs: Seq::new(
                arg->Typed_0.attrs.len(),
                |i: int| AttributeView::Verbatim(arg->Typed_0.attrs[i]),
            ),
            pat: arg->Typed_0.pat,
            ty: TypeView::Verbatim(arg->Typed_0.ty),
        },
    )
}

/// The return type of a method that hands back what a foreign function returns.
pub open spec fn method_output_of(output: Option<Seq<char>>) -> ReturnTypeView {
    match output {
        Some(ty) => ReturnTypeView::Type(TypeView::Verbatim(ty)),
        None => ReturnTypeView::Unit,
    }
}

/// The signature of the method that forwards to a foreign function: the function's own
/// signature, made `unsafe`, with `&self` in front of its parameters.
pub open spec fn proxy_signature(sig: ForeignSignatureView) -> SignatureView {
    SignatureView {
        constness: sig.constness,
        asyncness: sig.asyncness,
        unsafety: true,
        abi: sig.abi,
        ident: sig.ident,
        generics: GenericsView {
            params: Seq::empty(),
            where_clause: match sig.where_clause {
                Some(text) => Some(WhereClauseView::Verbatim(text)),
                None => None,
            },
        },
        inputs: seq![self_reference()] + Seq::new(
            sig.inputs.len(),
            |i: int| method_arg_of(sig.inputs[i]),
        ),
        variadic: sig.variadic,
        output: method_output_of(sig.output),
    }
}

/// The arguments that a forwarding method hands on: one for each parameter that is bound
/// by name, in order.
pub open spec fn forwarded_arguments(inputs: Seq<ForeignArgView>) -> Seq<ExprView>
    decreases inputs.len(),
{
    if inputs.len() == 0 {
        Seq::empty()
    } else {
        let before = forwarded_arguments(inputs.drop_last());
        match inputs.last() {
            ForeignArgView::Typed(typed) => match typed.pat {
                PatView::Ident(pat) => before.push(variable(pat.ident)),
                _ => before,
            },
            _ => before,
        }
    }
}

/// `(self.name)(arguments)`: the call through the stored pointer.
pub open spec fn forwarding_call(sig: ForeignSignatureView) -> StmtView {
    StmtView::Expr(
        ExprView::Call {
            func: Box::new(
                ExprView::Paren(
                    Box::new(
                        ExprView::Field {
                            base: Box::new(variable("self"@)),
                            member: sig.ident,
                        },
                    ),
                ),
            ),
            args: forwarded_arguments(sig.inputs),
        },
    )
}

/// The method that forwards to `func` through the pointer that the struct holds.
pub open spec fn proxy_of(func: ForeignItemFnView) -> ImplItemMethodView {
    ImplItemMethodView {
        attrs: Seq::empty(),
        vis: Visibility::Public,
        sig: proxy_signature(func.sig),
        block: seq![forwarding_call(func.sig)],
    }
}

/// The `impl Bindings` block with one forwarding method for each function, in order.
pub open spec fn methods_of(functions: Seq<ExternFunctionView>) -> ItemImplView {
    ItemImplView {
        attrs: Seq::empty(),
        generics: no_generics(),
        self_ty: vtable_type(),
        items: Seq::new(functions.len(), |i: int| proxy_of(functions[i].item)),
    }
}

fn copy_pat(pat: &Pat) -> (copy: Pat)
    ensures
        copy.deep_view() == pat.deep_view(),
{
    match pat {
        Pat::Ident(p) => Pat::Ident(
            PatIdent {
                by_ref: p.by_ref,
                mutability: p.mutability,
                ident: copy_text(&p.ident),
                subpat: copy_optional_text(&p.subpat),
            },
        ),
        Pat::Verbatim(text) => Pat::Verbatim(copy_text(text)),
    }
}

fn method_arg(typed: &ForeignPatType) -> (arg: FnArg)
    ensures
        arg.deep_view() == method_arg_of(ForeignArgView::Typed(typed.deep_view())),
{
    let mut attrs: Vec<Attribute> = Vec::new();
    let mut i: usize = 0;
    while i < typed.attrs.len()
        invariant
            i <= typed.attrs.len(),
            attrs@.len() == i,
            forall|j: int|
                0 <= j < i ==> (#[trigger] attrs@[j]).deep_view() == AttributeView::Verbatim(
                    typed.attrs@[j]@,
                ),
        decreases typed.attrs.len() - i,
    {
        attrs.push(Attribute::Verbatim(copy_text(&typed.attrs[i])));
        i = i + 1;
    }
    let ty = Type::Verbatim(copy_text(&typed.ty));
    let arg = PatType { attrs, pat: copy_pat(&typed.pat), ty };
    assert(arg.deep_view().attrs =~= method_arg_of(
        ForeignArgView::Typed(typed.deep_view()),
    )->Typed_0.attrs);
    FnArg::Typed(arg)
}

/// The method that forwards to `func`: it takes `&self` and then what `func` takes, returns
/// what `func` returns, and calls the pointer stored under the function's name with the
/// parameters that are bound by name.
pub fn defer_to_function(func: &ForeignItemFn) -> (method: ImplItemMethod)
    requires
        func.deep_view().sig.well_formed(),
    ensures
        method.deep_view() == proxy_of(func.deep_view()),
{
    let ghost sig_view = func.deep_view().sig;
    let mut inputs: Vec<FnArg> = Vec::new();
    inputs.push(FnArg::Receiver(Receiver { reference: true, mutability: false }));
    let mut call_args: Vec<Expr> = Vec::new();
    assert(call_args.deep_view() =~= forwarded_arguments(sig_view.inputs.take(0)));

    let mut i: usize = 0;
    while i < func.sig.inputs.len()
        invariant
            i <= func.sig.inputs.len(),
            sig_view == func.deep_view().sig,
            sig_view.well_formed(),
            inputs@.len() == i + 1,
            inputs@[0].deep_view() == self_reference(),
            forall|j: int|
                1 <= j <= i ==> (#[trigger] inputs@[j]).deep_view() == method_arg_of(
                    sig_view.inputs[j - 1],
                ),
            call_args.deep_view() == forwarded_arguments(sig_view.inputs.take(i as int)),
        decreases func.sig.inputs.len() - i,
    {
        let ghost forwarded = call_args@;
        assert(sig_view.inputs.take(i + 1).drop_last() =~= sig_view.inputs.take(i as int));
        assert(sig_view.inputs.take(i + 1).last() == func.sig.inputs@[i as int].deep_view());
        assert(sig_view.inputs[i as int] is Typed);
        match &func.sig.inputs[i] {
            ForeignArg::Typed(typed) => {
                inputs.push(method_arg(typed));
                match &typed.pat {
                    Pat::Ident(pat) => {
                        let argument = Expr::path(short_path(pat.ident.as_str()));
                        call_args.push(argument);
                        proof {
                            lemma_deep_view_push(forwarded, call_args, argument);
                        }
                        assert(call_args.deep_view() =~= forwarded_arguments(
                            sig_view.inputs.take(i + 1),
                        ));
                    },
                    _ => {},
                }
            },
            ForeignArg::Receiver(_) => {},
        }
        i = i + 1;
    }
    assert(sig_view.inputs.take(func.sig.inputs.len() as int) =~= sig_view.inputs);

    let sig = Signature {
        constness: func.sig.constness,
        asyncness: func.sig.asyncness,
        unsafety: true,
        abi: match &func.sig.abi {
            Some(abi) => Some(Abi { name: copy_optional_text(&abi.name) }),
            None => None,
        },
        ident: copy_text(&func.sig.ident),
        generics: Generics {
            params: Vec::new(),
            where_clause: match &func.sig.where_clause {
                Some(text) => Some(WhereClause::Verbatim(copy_text(text))),
                None => None,
            },
        },
        inputs,
        variadic: func.sig.variadic,
        output: match &func.sig.output {
            Some(ty) => ReturnType::Type(Type::Verbatim(copy_text(ty))),
            None => ReturnType::Unit,
        },
    };
    proof {
        lemma_deep_view_empty(sig.generics.params);
        assert(sig.deep_view().inputs =~= proxy_signature(sig_view).inputs);
    }

    let field = Expr::paren(Expr::field(variable_expr("self"), copy_text(&func.sig.ident)));
    let mut stmts: Vec<Stmt> = Vec::new();
    stmts.push(Stmt::Expr(Expr::call(field, call_args)));
    assert(stmts.deep_view() =~= seq![forwarding_call(sig_view)]);

    ImplItemMethod { attrs: no_attributes(), vis: Visibility::Public, sig, block: stmts }
}

/// The `impl Bindings` block with the forwarding methods for `bindings`.
pub fn bindings_methods(bindings: &Bindings) -> (methods: ItemImpl)
    requires
        all_well_formed(bindings.deep_view().functions),
    ensures
        methods.deep_view() == methods_of(bindings.deep_view().functions),
{
    let ghost functions = bindings.deep_view().functions;
    let mut items: Vec<ImplItemMethod> = Vec::new();
    let mut i: usize = 0;
    while i < bindings.functions.len()
        invariant
            i <= bindings.functions.len(),
            functions == bindings.deep_view().functions,
            all_well_formed(functions),
            items@.len() == i,
            forall|j: int|
                0 <= j < i ==> (#[trigger] items@[j]).deep_view() == proxy_of(functions[j].item),
        decreases bindings.functions.len() - i,
    {
        let func = &bindings.functions[i];
        assert(func.deep_view() == functions[i as int]);
        items.push(defer_to_function(&func.item));
        i = i + 1;
    }
    let methods = ItemImpl {
        attrs: no_attributes(),
        generics: empty_generics(),
        self_ty: type_named("Bindings"),
        items,
    };
    assert(methods.deep_view().items =~= methods_of(functions).items);
    methods
}

/// With no function chosen the struct has one field, the library handle; the loader
/// opens the library, looks up no symbol and hands back the struct; and there is no
/// forwarding method.
pub proof fn lemma_nothing_selected()
    ensures
        vtable_of(Seq::empty()).fields == seq![library_field()],
        loader_body(Seq::empty()) == seq![open_library(), assemble_vtable(Seq::empty())],
        methods_of(Seq::empty()).items == Seq::<ImplItemMethodView>::empty(),
{
    let none = Seq::<ExternFunctionView>::empty();
    assert(vtable_of(none).fields =~= seq![library_field()]);
    assert(loader_body(none) =~= seq![open_library(), assemble_vtable(none)]);
    assert(methods_of(none).items =~= Seq::<ImplItemMethodView>::empty());
}

/// The field made for a function has the function's name and the type of a pointer to
/// it: the same parameter types in the same order, the same return type, the same
/// variadic flag, and the calling convention of the block the function stood in.
pub proof fn lemma_field_keeps_signature(functions: Seq<ExternFunctionView>, index: int)
    requires
        0 <= index < functions.len(),
        functions[index].item.sig.well_formed(),
    ensures
        vtable_of(functions).fields.len() == functions.len() + 1,
        vtable_of(functions).fields[index + 1].ident == functions[index].item.sig.ident,
        vtable_of(functions).fields[index + 1].ty matches TypeView::BareFn(pointer) && {
            &&& pointer.unsafety
            &&& pointer.abi == Some(AbiView { name: functions[index].abi })
            &&& pointer.inputs.len() == functions[index].item.sig.inputs.len()
            &&& forall|k: int|
                0 <= k < pointer.inputs.len() ==> (#[trigger] pointer.inputs[k]).ty
                    == functions[index].item.sig.inputs[k]->Typed_0.ty
            &&& pointer.variadic == functions[index].item.sig.variadic
            &&& pointer.output == functions[index].item.sig.output
        },
{
}

/// The loader looks the functions up in their order, each under the bytes of its own
/// name, between opening the library and handing back the struct.
pub proof fn lemma_loader_resolves_in_order(functions: Seq<ExternFunctionView>, index: int)
    requires
        0 <= index < functions.len(),
    ensures
        loader_body(functions).len() == functions.len() + 2,
        loader_body(functions)[0] == open_library(),
        loader_body(functions)[index + 1] == resolve_symbol(functions[index].item.sig.ident),
        loader_body(functions)[functions.len() as int + 1] == assemble_vtable(functions),
{
}

/// The method made for a function has the function's name, takes `&self` and then the
/// function's parameters with their patterns and types, and returns what it returns.
pub proof fn lemma_proxy_keeps_signature(functions: Seq<ExternFunctionView>, index: int)
    requires
        0 <= index < functions.len(),
    ensures
        methods_of(functions).items.len() == functions.len(),
        ({
            let sig = functions[index].item.sig;
            let proxy = methods_of(functions).items[index].sig;
            &&& proxy.ident == sig.ident
            &&& proxy.unsafety
            &&& proxy.inputs.len() == sig.inputs.len() + 1
            &&& proxy.inputs[0] == self_reference()
            &&& forall|k: int|
                0 <= k < sig.inputs.len() ==> #[trigger] proxy.inputs[k + 1] == method_arg_of(
                    sig.inputs[k],
                )
            &&& proxy.output == method_output_of(sig.output)
        }),
{
}

/// The declarations that are synthesized for `functions`: the struct, then the block with
/// the loader, then, if `proxies` is set, the block with the forwarding methods.
pub open spec fn synthesized(functions: Seq<ExternFunctionView>, proxies: bool) -> Seq<ItemView> {
    let always = seq![
        ItemView::Struct(vtable_of(functions)),
        ItemView::Impl(constructor_of(functions)),
    ];
    if proxies {
        always.push(ItemView::Impl(methods_of(functions)))
    } else {
        always
    }
}

/// What appending the declarations for `functions` makes of `items`: `items` with the
/// synthesized declarations behind them, or the error that names the first repeated name,
/// in which case nothing is appended.
pub open spec fn appended(
    items: Seq<ItemView>,
    functions: Seq<ExternFunctionView>,
    proxies: bool,
) -> Result<Seq<ItemView>, ErrorView> {
    if names_distinct(functions) {
        Ok(items + synthesized(functions, proxies))
    } else {
        Err(ErrorView::DuplicateSymbol(first_repeated_name(functions)))
    }
}

/// Appends to `items` the declarations that load and call the functions of `selected`.
///
/// Where two functions share a name, `items` stays as it is and the error names the first
/// function whose name was seen before.
pub fn append_selected(items: &mut Vec<Item>, selected: &Bindings, proxies: bool) -> (outcome:
    Result<(), Error>)
    requires
        all_well_formed(selected.deep_view().functions),
    ensures
        match appended(old(items).deep_view(), selected.deep_view().functions, proxies) {
            Ok(all) => outcome is Ok && final(items).deep_view() == all,
            Err(error) => {
                &&& outcome is Err
                &&& outcome.unwrap_err().deep_view() == error
                &&& final(items).deep_view() == old(items).deep_view()
            },
        },
{
    let ghost before = items.deep_view();
    let ghost functions = selected.deep_view().functions;
    let vtable = match bindings_vtable(selected) {
        Ok(vtable) => vtable,
        Err(error) => {
            return Err(error);
        },
    };
    let ghost start = items@;
    let first = Item::Struct(vtable);
    items.push(first);
    proof {
        lemma_deep_view_push(start, *items, first);
    }
    let ghost with_vtable = items@;
    let second = Item::Impl(bindings_constructor(selected));
    items.push(second);
    proof {
        lemma_deep_view_push(with_vtable, *items, second);
        assert(items.deep_view() =~= before + synthesized(functions, false));
    }
    if proxies {
        let ghost with_loader = items@;
        let third = Item::Impl(bindings_methods(selected));
        items.push(third);
        proof {
            lemma_deep_view_push(with_loader, *items, third);
            assert(items.deep_view() =~= before + synthesized(functions, true));
        }
    }
    Ok(())
}

/// Appends to `items` the declarations that load and call those functions of `bindings`
/// that `strategy` wants. The strategy is asked once about each function, in order.
///
/// Where two of the wanted functions share a name, `items` stays as it is and the error
/// names the first function whose name was seen before.
pub fn append_new_bindings<S: BindingStrategy>(
    items: &mut Vec<Item>,
    bindings: Bindings,
    strategy: &S,
    proxies: bool,
) -> (outcome: Result<(), Error>)
    requires
        all_well_formed(bindings.deep_view().functions),
    ensures
        match appended(
            old(items).deep_view(),
            wanted(*strategy, bindings.deep_view().functions),
            proxies,
        ) {
            Ok(all) => outcome is Ok && final(items).deep_view() == all,
            Err(error) => {
                &&& outcome is Err
                &&& outcome.unwrap_err().deep_view() == error
                &&& final(items).deep_view() == old(items).deep_view()
            },
        },
{
    let ghost functions = bindings.deep_view().functions;
    let selected = select(bindings, strategy);
    proof {
        lemma_chosen_well_formed(
            functions,
            answers_of(*strategy, functions),
            functions.len() as int,
        );
    }
    append_selected(items, &selected, proxies)
}

} // verus!
