use libloading_bindgen::bindings::{Bindings, ExternFunction};
use libloading_bindgen::gen::{
    append_new_bindings, append_selected, bindings_constructor, bindings_methods,
    bindings_vtable, defer_to_function, function_signature, generic_type, library_safety_docs,
    load_from_path, load_from_path_signature, long_path, short_path, to_bare_fn_arg,
};
use libloading_bindgen::pipeline::{bind_module, bind_module_with};
use libloading_bindgen::strategy::{ask, retain_chosen, select, InvalidPattern, Strategy};
use libloading_bindgen::syntax::{
    Abi, Attribute, BareFnArg, Expr, Field, FieldValue, File, FnArg, ForeignArg, ForeignItem,
    ForeignItemFn, ForeignItemStatic, ForeignPatType, ForeignSignature, Generics,
    ImplItemMethod, Item, ItemForeignMod, ItemImpl, ItemStruct, Lit, Local, Pat, PatIdent,
    PatType, Path, PathArguments, PathSegment, Receiver, ReturnType, Signature, Stmt, Type,
    TypeBareFn, TypeParam, UnOp, Visibility, WhereClause, WherePredicate,
};
use libloading_bindgen::{generate_bindings, BindingStrategy, Error, ParseError};

const SAFETY: &str =
    "Safety: We need to keep the library handle around because our vtable's pointers point into it.";

struct Always;

impl BindingStrategy for Always {
    fn should_include(&self, _item: &ForeignItemFn) -> bool {
        true
    }
}

struct Never;

impl BindingStrategy for Never {
    fn should_include(&self, _item: &ForeignItemFn) -> bool {
        false
    }
}

struct StartsWithName<'a> {
    name: &'a str,
}

impl<'a> BindingStrategy for StartsWithName<'a> {
    fn should_include(&self, item: &ForeignItemFn) -> bool {
        item.sig.ident.starts_with(self.name)
    }
}

fn text(s: &str) -> String {
    s.to_string()
}

fn named(name: &str) -> Pat {
    Pat::Ident(PatIdent { by_ref: false, mutability: false, ident: text(name), subpat: None })
}

fn param(name: &str, ty: &str) -> ForeignArg {
    ForeignArg::Typed(ForeignPatType { attrs: vec![], pat: named(name), ty: text(ty) })
}

fn function(name: &str, inputs: Vec<ForeignArg>, output: Option<&str>) -> ForeignItemFn {
    ForeignItemFn {
        attrs: vec![],
        vis: text(""),
        sig: ForeignSignature {
            constness: false,
            asyncness: false,
            unsafety: false,
            abi: None,
            ident: text(name),
            generics: None,
            where_clause: None,
            inputs,
            variadic: false,
            output: output.map(text),
        },
    }
}

fn add() -> ForeignItemFn {
    function("add", vec![param("left", "c_int"), param("right", "c_int")], Some("c_int"))
}

fn c(item: ForeignItemFn) -> ExternFunction {
    ExternFunction { abi: Some(text("C")), item }
}

fn version() -> ForeignItemStatic {
    ForeignItemStatic {
        attrs: vec![],
        vis: text(""),
        mutability: false,
        ident: text("VERSION"),
        ty: text("*const c_char"),
    }
}

/// `extern "C" { static VERSION: *const c_char; fn add(left: c_int, right: c_int) -> c_int; }`
fn header() -> File {
    File {
        shebang: None,
        attrs: vec![],
        items: vec![Item::ForeignMod(ItemForeignMod {
            attrs: vec![],
            abi: Abi { name: Some(text("C")) },
            items: vec![ForeignItem::Static(version()), ForeignItem::Fn(add())],
        })],
    }
}

fn path(leading_colon: bool, names: &[&str]) -> Path {
    Path {
        leading_colon,
        segments: names
            .iter()
            .map(|name| PathSegment { ident: text(name), arguments: PathArguments::Plain })
            .collect(),
    }
}

fn variable(name: &str) -> Expr {
    Expr::Path(path(false, &[name]))
}

fn type_named(name: &str) -> Type {
    Type::Path(path(false, &[name]))
}

fn no_generics() -> Generics {
    Generics { params: vec![], where_clause: None }
}

fn library_field() -> Field {
    Field {
        attrs: vec![Attribute::NameValue {
            path: path(false, &["doc"]),
            lit: Lit::Str(text(SAFETY)),
        }],
        vis: Visibility::Inherited,
        ident: text("_library"),
        ty: Type::Path(path(true, &["libloading", "Library"])),
    }
}

fn add_pointer() -> TypeBareFn {
    TypeBareFn {
        unsafety: true,
        abi: Some(Abi { name: Some(text("C")) }),
        inputs: vec![
            BareFnArg { name: None, ty: text("c_int") },
            BareFnArg { name: None, ty: text("c_int") },
        ],
        variadic: false,
        output: Some(text("c_int")),
    }
}

fn vtable(fields: Vec<Field>) -> ItemStruct {
    ItemStruct {
        attrs: vec![],
        vis: Visibility::Public,
        ident: text("Bindings"),
        generics: no_generics(),
        fields,
    }
}

fn add_field() -> Field {
    Field {
        attrs: vec![],
        vis: Visibility::Inherited,
        ident: text("add"),
        ty: Type::BareFn(add_pointer()),
    }
}

/// `unsafe fn load_from_path<P>(path: P) -> Result<Self, ::libloading::Error> where P: AsRef<::std::ffi::OsStr>`
fn loader_signature() -> Signature {
    Signature {
        constness: false,
        asyncness: false,
        unsafety: true,
        abi: None,
        ident: text("load_from_path"),
        generics: Generics {
            params: vec![TypeParam { ident: text("P") }],
            where_clause: Some(WhereClause::Predicates(vec![WherePredicate {
                bounded_ty: type_named("P"),
                bounds: vec![Path {
                    leading_colon: false,
                    segments: vec![PathSegment {
                        ident: text("AsRef"),
                        arguments: PathArguments::AngleBracketed(vec![path(
                            true,
                            &["std", "ffi", "OsStr"],
                        )]),
                    }],
                }],
            }])),
        },
        inputs: vec![FnArg::Typed(PatType {
            attrs: vec![],
            pat: named("path"),
            ty: type_named("P"),
        })],
        variadic: false,
        output: ReturnType::Type(Type::Path(Path {
            leading_colon: false,
            segments: vec![PathSegment {
                ident: text("Result"),
                arguments: PathArguments::AngleBracketed(vec![
                    path(false, &["Self"]),
                    path(true, &["libloading", "Error"]),
                ]),
            }],
        })),
    }
}

/// `let library = ::libloading::Library::new(path)?;`
fn open_library() -> Stmt {
    Stmt::Local(Local {
        pat: named("library"),
        init: Some(Expr::Try(Box::new(Expr::Call {
            func: Box::new(Expr::Path(path(true, &["libloading", "Library", "new"]))),
            args: vec![variable("path")],
        }))),
    })
}

/// `let name = *library.get(b"name")?;`
fn resolve(name: &str) -> Stmt {
    Stmt::Local(Local {
        pat: named(name),
        init: Some(Expr::Unary {
            op: UnOp::Deref,
            expr: Box::new(Expr::Try(Box::new(Expr::MethodCall {
                receiver: Box::new(variable("library")),
                method: text("get"),
                args: vec![Expr::Lit(Lit::ByteStr(name.as_bytes().to_vec()))],
            }))),
        }),
    })
}

/// `Ok(Bindings { _library: library, names.. })`
fn assemble(names: &[&str]) -> Stmt {
    let mut fields = vec![FieldValue {
        member: text("_library"),
        colon: true,
        expr: variable("library"),
    }];
    for name in names {
        fields.push(FieldValue { member: text(name), colon: false, expr: variable(name) });
    }
    Stmt::Expr(Expr::Call {
        func: Box::new(variable("Ok")),
        args: vec![Expr::Struct { path: path(false, &["Bindings"]), fields }],
    })
}

fn loader(names: &[&str]) -> ImplItemMethod {
    let mut block = vec![open_library()];
    for name in names {
        block.push(resolve(name));
    }
    block.push(assemble(names));
    ImplItemMethod { attrs: vec![], vis: Visibility::Public, sig: loader_signature(), block }
}

fn impl_bindings(items: Vec<ImplItemMethod>) -> ItemImpl {
    ItemImpl { attrs: vec![], generics: no_generics(), self_ty: type_named("Bindings"), items }
}

/// `pub unsafe fn add(&self, left: c_int, right: c_int) -> c_int { (self.add)(left, right) }`
fn add_proxy() -> ImplItemMethod {
    ImplItemMethod {
        attrs: vec![],
        vis: Visibility::Public,
        sig: Signature {
            constness: false,
            asyncness: false,
            unsafety: true,
            abi: None,
            ident: text("add"),
            generics: no_generics(),
            inputs: vec![
                FnArg::Receiver(Receiver { reference: true, mutability: false }),
                FnArg::Typed(PatType {
                    attrs: vec![],
                    pat: named("left"),
                    ty: Type::Verbatim(text("c_int")),
                }),
                FnArg::Typed(PatType {
                    attrs: vec![],
                    pat: named("right"),
                    ty: Type::Verbatim(text("c_int")),
                }),
            ],
            variadic: false,
            output: ReturnType::Type(Type::Verbatim(text("c_int"))),
        },
        block: vec![Stmt::Expr(Expr::Call {
            func: Box::new(Expr::Paren(Box::new(Expr::Field {
                base: Box::new(variable("self")),
                member: text("add"),
            }))),
            args: vec![variable("left"), variable("right")],
        })],
    }
}

fn only_add() -> Bindings {
    Bindings { functions: vec![c(add())], statics: vec![version()] }
}

fn nothing() -> Bindings {
    Bindings { functions: vec![], statics: vec![] }
}

#[test]
fn paths_are_built_segment_by_segment() {
    assert_eq!(short_path("doc"), path(false, &["doc"]));
    assert_eq!(long_path(&["libloading", "Library"]), path(false, &["libloading", "Library"]));
    assert_eq!(long_path(&[]), path(false, &[]));
    assert_eq!(
        generic_type("Result", vec![short_path("Self"), long_path(&["libloading", "Error"])]),
        Path {
            leading_colon: false,
            segments: vec![PathSegment {
                ident: text("Result"),
                arguments: PathArguments::AngleBracketed(vec![
                    path(false, &["Self"]),
                    path(false, &["libloading", "Error"]),
                ]),
            }],
        }
    );
}

#[test]
fn the_handle_is_documented() {
    assert_eq!(library_safety_docs(), Lit::Str(text(SAFETY)));
}

#[test]
fn a_parameter_becomes_a_nameless_pointer_parameter() {
    assert_eq!(
        to_bare_fn_arg(&param("left", "c_int")),
        BareFnArg { name: None, ty: text("c_int") }
    );
}

#[test]
fn the_pointer_type_repeats_the_declaration() {
    assert_eq!(function_signature(&c(add())), add_pointer());

    let mut printf = function("printf", vec![param("format", "*const c_char")], Some("c_int"));
    printf.sig.variadic = true;
    assert_eq!(
        function_signature(&ExternFunction { abi: None, item: printf }),
        TypeBareFn {
            unsafety: true,
            abi: Some(Abi { name: None }),
            inputs: vec![BareFnArg { name: None, ty: text("*const c_char") }],
            variadic: true,
            output: Some(text("c_int")),
        }
    );
}

#[test]
fn the_vtable_has_the_handle_and_one_field_for_each_function() {
    assert_eq!(bindings_vtable(&only_add()), Ok(vtable(vec![library_field(), add_field()])));
}

#[test]
fn the_vtable_of_no_function_has_the_handle_alone() {
    assert_eq!(bindings_vtable(&nothing()), Ok(vtable(vec![library_field()])));
}

#[test]
fn the_vtable_refuses_two_functions_of_one_name() {
    let bindings = Bindings {
        functions: vec![
            c(function("a", vec![], None)),
            c(function("b", vec![], None)),
            c(function("b", vec![param("x", "u8")], None)),
            c(function("a", vec![], None)),
        ],
        statics: vec![],
    };
    assert_eq!(bindings_vtable(&bindings), Err(Error::DuplicateSymbol(text("b"))));
}

#[test]
fn the_loader_signature_takes_a_path_and_gives_the_vtable() {
    assert_eq!(load_from_path_signature(), loader_signature());
}

#[test]
fn the_loader_resolves_every_function_by_its_name() {
    assert_eq!(load_from_path(&only_add()), loader(&["add"]));

    let three = Bindings {
        functions: vec![
            c(function("first", vec![], None)),
            c(function("second", vec![], None)),
            c(function("third", vec![], None)),
        ],
        statics: vec![],
    };
    assert_eq!(load_from_path(&three), loader(&["first", "second", "third"]));
}

#[test]
fn the_loader_of_no_function_looks_nothing_up() {
    let method = load_from_path(&nothing());
    assert_eq!(method.block, vec![open_library(), assemble(&[])]);
    assert_eq!(method, loader(&[]));
}

#[test]
fn the_symbol_is_the_name_in_bytes() {
    let bindings =
        Bindings { functions: vec![c(function("größe", vec![], None))], statics: vec![] };
    let method = load_from_path(&bindings);
    assert_eq!(method.block[1], resolve("größe"));
    match &method.block[1] {
        Stmt::Local(Local { init: Some(Expr::Unary { expr, .. }), .. }) => match &**expr {
            Expr::Try(inner) => match &**inner {
                Expr::MethodCall { args, .. } => assert_eq!(
                    args,
                    &vec![Expr::Lit(Lit::ByteStr(vec![
                        b'g', b'r', 0xc3, 0xb6, 0xc3, 0x9f, b'e'
                    ]))]
                ),
                other => panic!("not a method call: {:?}", other),
            },
            other => panic!("not a try: {:?}", other),
        },
        other => panic!("not a lookup: {:?}", other),
    }
}

#[test]
fn the_constructor_block_holds_the_loader() {
    assert_eq!(bindings_constructor(&only_add()), impl_bindings(vec![loader(&["add"])]));
}

#[test]
fn a_proxy_forwards_to_the_stored_pointer() {
    assert_eq!(defer_to_function(&add()), add_proxy());
}

#[test]
fn a_proxy_keeps_what_the_declaration_says() {
    let mut declared = function(
        "log",
        vec![
            ForeignArg::Typed(ForeignPatType {
                attrs: vec![text("#[cfg(unix)]")],
                pat: named("level"),
                ty: text("u8"),
            }),
            ForeignArg::Typed(ForeignPatType {
                attrs: vec![],
                pat: Pat::Verbatim(text("_")),
                ty: text("*const c_char"),
            }),
            ForeignArg::Typed(ForeignPatType {
                attrs: vec![],
                pat: Pat::Ident(PatIdent {
                    by_ref: false,
                    mutability: true,
                    ident: text("count"),
                    subpat: None,
                }),
                ty: text("usize"),
            }),
        ],
        None,
    );
    declared.sig.variadic = true;
    declared.sig.abi = Some(Abi { name: Some(text("C")) });
    declared.sig.where_clause = Some(text("where u8 : Copy"));

    let proxy = defer_to_function(&declared);
    assert_eq!(
        proxy.sig,
        Signature {
            constness: false,
            asyncness: false,
            unsafety: true,
            abi: Some(Abi { name: Some(text("C")) }),
            ident: text("log"),
            generics: Generics {
                params: vec![],
                where_clause: Some(WhereClause::Verbatim(text("where u8 : Copy"))),
            },
            inputs: vec![
                FnArg::Receiver(Receiver { reference: true, mutability: false }),
                FnArg::Typed(PatType {
                    attrs: vec![Attribute::Verbatim(text("#[cfg(unix)]"))],
                    pat: named("level"),
                    ty: Type::Verbatim(text("u8")),
                }),
                FnArg::Typed(PatType {
                    attrs: vec![],
                    pat: Pat::Verbatim(text("_")),
                    ty: Type::Verbatim(text("*const c_char")),
                }),
                FnArg::Typed(PatType {
                    attrs: vec![],
                    pat: Pat::Ident(PatIdent {
                        by_ref: false,
                        mutability: true,
                        ident: text("count"),
                        subpat: None,
                    }),
                    ty: Type::Verbatim(text("usize")),
                }),
            ],
            variadic: true,
            output: ReturnType::Unit,
        }
    );
    // only the parameters that are bound by name are handed on
    assert_eq!(
        proxy.block,
        vec![Stmt::Expr(Expr::Call {
            func: Box::new(Expr::Paren(Box::new(Expr::Field {
                base: Box::new(variable("self")),
                member: text("log"),
            }))),
            args: vec![variable("level"), variable("count")],
        })]
    );
}

#[test]
fn the_methods_block_has_one_proxy_for_each_function() {
    assert_eq!(bindings_methods(&only_add()), impl_bindings(vec![add_proxy()]));
    assert_eq!(bindings_methods(&nothing()), impl_bindings(vec![]));
}

#[test]
fn expressions_are_built_from_their_parts() {
    assert_eq!(Expr::path(short_path("x")), variable("x"));
    assert_eq!(Expr::lit(Lit::Str(text("s"))), Expr::Lit(Lit::Str(text("s"))));
    assert_eq!(
        Expr::call(variable("f"), vec![variable("a")]),
        Expr::Call { func: Box::new(variable("f")), args: vec![variable("a")] }
    );
    assert_eq!(
        Expr::method_call(variable("r"), text("m"), vec![]),
        Expr::MethodCall { receiver: Box::new(variable("r")), method: text("m"), args: vec![] }
    );
    assert_eq!(Expr::try_(variable("x")), Expr::Try(Box::new(variable("x"))));
    assert_eq!(
        Expr::unary(UnOp::Not, variable("x")),
        Expr::Unary { op: UnOp::Not, expr: Box::new(variable("x")) }
    );
    assert_eq!(Expr::paren(variable("x")), Expr::Paren(Box::new(variable("x"))));
    assert_eq!(
        Expr::field(variable("x"), text("y")),
        Expr::Field { base: Box::new(variable("x")), member: text("y") }
    );
    assert_eq!(
        Expr::struct_(short_path("S"), vec![]),
        Expr::Struct { path: path(false, &["S"]), fields: vec![] }
    );
}

#[test]
fn the_strategy_is_asked_once_about_each_function_in_order() {
    struct Recording(std::cell::RefCell<Vec<String>>);
    impl BindingStrategy for Recording {
        fn should_include(&self, item: &ForeignItemFn) -> bool {
            self.0.borrow_mut().push(item.sig.ident.clone());
            item.sig.ident != "b"
        }
    }
    let functions = vec![
        c(function("a", vec![], None)),
        c(function("b", vec![], None)),
        c(function("c", vec![], None)),
    ];
    let recording = Recording(std::cell::RefCell::new(vec![]));
    assert_eq!(ask(&functions, &recording), vec![true, false, true]);
    assert_eq!(*recording.0.borrow(), vec![text("a"), text("b"), text("c")]);
}

#[test]
fn the_answers_decide_what_is_kept() {
    let bindings = Bindings {
        functions: vec![
            c(function("a", vec![], None)),
            c(function("b", vec![], None)),
            c(function("c", vec![], None)),
        ],
        statics: vec![version()],
    };
    assert_eq!(
        retain_chosen(bindings.clone(), &vec![true, false, true]),
        Bindings {
            functions: vec![c(function("a", vec![], None)), c(function("c", vec![], None))],
            statics: vec![version()],
        }
    );
    // a function without an answer is not wanted
    assert_eq!(
        retain_chosen(bindings.clone(), &vec![false, true]),
        Bindings { functions: vec![c(function("b", vec![], None))], statics: vec![version()] }
    );
    assert_eq!(retain_chosen(bindings.clone(), &vec![true, true, true, true]), bindings);
    assert_eq!(
        retain_chosen(bindings, &vec![]),
        Bindings { functions: vec![], statics: vec![version()] }
    );
}

#[test]
fn selection_keeps_the_order_of_declaration() {
    let bindings = Bindings {
        functions: vec![
            c(function("smoke_test_add", vec![], None)),
            c(function("other", vec![], None)),
            c(function("smoke_test_sub", vec![], None)),
        ],
        statics: vec![],
    };
    assert_eq!(
        select(bindings.clone(), &StartsWithName { name: "smoke_test" }),
        Bindings {
            functions: vec![
                c(function("smoke_test_add", vec![], None)),
                c(function("smoke_test_sub", vec![], None)),
            ],
            statics: vec![],
        }
    );
    assert_eq!(select(bindings.clone(), &Always), bindings);
    assert_eq!(select(bindings, &Never), nothing());
}

#[test]
fn a_regular_expression_chooses_by_name() {
    let strategy = Strategy::new(&vec![text("^smoke_"), text("add$")]).unwrap();
    assert_eq!(strategy.whitelist_functions.len(), 2);
    assert!(strategy.should_include(&function("smoke_test", vec![], None)));
    assert!(strategy.should_include(&function("vector_add", vec![], None)));
    assert!(!strategy.should_include(&function("vector_sub", vec![], None)));
    // the whole name is searched, not only its beginning
    let anywhere = Strategy::new(&vec![text("dd")]).unwrap();
    assert!(anywhere.should_include(&add()));
    assert!(!anywhere.should_include(&function("sub", vec![], None)));
}

#[test]
fn every_expression_stems_from_the_pattern_at_its_place() {
    let patterns = vec![text("^smoke_"), text("add$"), text("a|b")];
    let strategy = Strategy::new(&patterns).unwrap();
    let sources: Vec<&str> = strategy.whitelist_functions.iter().map(|re| re.as_str()).collect();
    assert_eq!(sources, vec!["^smoke_", "add$", "a|b"]);
}

#[test]
fn without_patterns_nothing_is_wanted() {
    let strategy = Strategy::new(&vec![]).unwrap();
    assert!(!strategy.should_include(&add()));
}

#[test]
fn a_pattern_that_does_not_compile_is_reported() {
    match Strategy::new(&vec![text("fine"), text("foo(bar"), text("(")]) {
        Err(InvalidPattern { index, pattern, reason }) => {
            assert_eq!(index, 1);
            assert_eq!(pattern, "foo(bar");
            assert!(!reason.is_empty());
        },
        Ok(_) => panic!("the second pattern is no regular expression"),
    }
}

#[test]
fn appending_puts_the_vtable_the_loader_and_the_proxies_last() {
    let mut items = vec![Item::Verbatim(text("struct Before;"))];
    assert_eq!(append_selected(&mut items, &only_add(), true), Ok(()));
    assert_eq!(
        items,
        vec![
            Item::Verbatim(text("struct Before;")),
            Item::Struct(vtable(vec![library_field(), add_field()])),
            Item::Impl(impl_bindings(vec![loader(&["add"])])),
            Item::Impl(impl_bindings(vec![add_proxy()])),
        ]
    );
}

#[test]
fn proxies_are_left_out_on_request() {
    let mut items = vec![];
    assert_eq!(append_selected(&mut items, &only_add(), false), Ok(()));
    assert_eq!(
        items,
        vec![
            Item::Struct(vtable(vec![library_field(), add_field()])),
            Item::Impl(impl_bindings(vec![loader(&["add"])])),
        ]
    );
}

#[test]
fn nothing_is_appended_when_names_repeat() {
    let twice = Bindings { functions: vec![c(add()), c(add())], statics: vec![] };
    let mut items = vec![Item::Verbatim(text("struct Before;"))];
    assert_eq!(
        append_selected(&mut items, &twice, true),
        Err(Error::DuplicateSymbol(text("add")))
    );
    assert_eq!(items, vec![Item::Verbatim(text("struct Before;"))]);
}

#[test]
fn appending_asks_the_strategy() {
    let bindings = Bindings {
        functions: vec![c(function("other", vec![], None)), c(add())],
        statics: vec![],
    };
    let mut items = vec![];
    assert_eq!(
        append_new_bindings(&mut items, bindings, &StartsWithName { name: "a" }, true),
        Ok(())
    );
    assert_eq!(
        items,
        vec![
            Item::Struct(vtable(vec![library_field(), add_field()])),
            Item::Impl(impl_bindings(vec![loader(&["add"])])),
            Item::Impl(impl_bindings(vec![add_proxy()])),
        ]
    );
}

#[test]
fn a_repeated_name_that_is_not_chosen_does_no_harm() {
    let bindings = Bindings {
        functions: vec![
            c(function("other", vec![], None)),
            c(add()),
            c(function("other", vec![], None)),
        ],
        statics: vec![],
    };
    let mut items = vec![];
    assert_eq!(
        append_new_bindings(&mut items, bindings, &StartsWithName { name: "a" }, false),
        Ok(())
    );
    assert_eq!(items.len(), 2);
}

#[test]
fn every_function_of_the_header_is_bound() {
    let expected = File {
        shebang: None,
        attrs: vec![],
        items: vec![
            Item::Struct(vtable(vec![library_field(), add_field()])),
            Item::Impl(impl_bindings(vec![loader(&["add"])])),
            Item::Impl(impl_bindings(vec![add_proxy()])),
        ],
    };
    assert_eq!(generate_bindings(Some(Ok(header())), &Always), Ok(expected));
}

#[test]
fn binding_no_function_leaves_the_handle_and_an_empty_loader() {
    let expected = File {
        shebang: None,
        attrs: vec![],
        items: vec![
            Item::Struct(vtable(vec![library_field()])),
            Item::Impl(impl_bindings(vec![loader(&[])])),
            Item::Impl(impl_bindings(vec![])),
        ],
    };
    assert_eq!(generate_bindings(Some(Ok(header())), &Never), Ok(expected));
}

#[test]
fn a_strategy_without_patterns_binds_no_function() {
    let strategy = Strategy::new(&vec![]).unwrap();
    let expected = File {
        shebang: None,
        attrs: vec![],
        items: vec![
            Item::Struct(vtable(vec![library_field()])),
            Item::Impl(impl_bindings(vec![loader(&[])])),
            Item::Impl(impl_bindings(vec![])),
        ],
    };
    assert_eq!(generate_bindings(Some(Ok(header())), &strategy), Ok(expected));
}

#[test]
fn the_functions_bound_are_those_the_strategy_wants() {
    let input = || File {
        shebang: None,
        attrs: vec![],
        items: vec![Item::ForeignMod(ItemForeignMod {
            attrs: vec![],
            abi: Abi { name: Some(text("C")) },
            items: vec![
                ForeignItem::Fn(function("sub", vec![], None)),
                ForeignItem::Fn(add()),
                ForeignItem::Fn(function("mul", vec![], None)),
            ],
        })],
    };
    let strategy = Strategy::new(&vec![text("^add$")]).unwrap();
    assert_eq!(
        generate_bindings(Some(Ok(input())), &strategy),
        bind_module_with(input(), &vec![false, true, false], true)
    );
    assert_eq!(
        generate_bindings(Some(Ok(input())), &strategy),
        Ok(File {
            shebang: None,
            attrs: vec![],
            items: vec![
                Item::Struct(vtable(vec![library_field(), add_field()])),
                Item::Impl(impl_bindings(vec![loader(&["add"])])),
                Item::Impl(impl_bindings(vec![add_proxy()])),
            ],
        })
    );
}

#[test]
fn strategies_that_agree_give_the_same_module() {
    let by_prefix = StartsWithName { name: "add" };
    let by_pattern = Strategy::new(&vec![text("^add")]).unwrap();
    assert_eq!(
        generate_bindings(Some(Ok(header())), &by_prefix),
        generate_bindings(Some(Ok(header())), &by_pattern)
    );
}

#[test]
fn two_runs_give_the_same_module() {
    let first = generate_bindings(Some(Ok(header())), &Always);
    let second = generate_bindings(Some(Ok(header())), &Always);
    assert_eq!(first, second);
    assert_eq!(
        bind_module_with(header(), &vec![true], true),
        bind_module_with(header(), &vec![true], true)
    );
}

#[test]
fn a_module_without_blocks_gets_the_declarations_for_no_function() {
    let input = || File {
        shebang: None,
        attrs: vec![text("#![allow(foo)]")],
        items: vec![Item::Verbatim(text("fn normal_rust() -> u32 { 42 }"))],
    };
    let expected = File {
        shebang: None,
        attrs: vec![text("#![allow(foo)]")],
        items: vec![
            Item::Verbatim(text("fn normal_rust() -> u32 { 42 }")),
            Item::Struct(vtable(vec![library_field()])),
            Item::Impl(impl_bindings(vec![loader(&[])])),
            Item::Impl(impl_bindings(vec![])),
        ],
    };
    assert_eq!(generate_bindings(Some(Ok(input())), &Always), Ok(expected));
}

#[test]
fn the_answers_given_decide_the_pass() {
    let two = || File {
        shebang: None,
        attrs: vec![],
        items: vec![
            Item::ForeignMod(ItemForeignMod {
                attrs: vec![],
                abi: Abi { name: Some(text("C")) },
                items: vec![
                    ForeignItem::Fn(function("sub", vec![], None)),
                    ForeignItem::Verbatim(text("type Opaque;")),
                    ForeignItem::Fn(add()),
                ],
            }),
            Item::Verbatim(text("struct Tail;")),
        ],
    };
    let kept_block = Item::ForeignMod(ItemForeignMod {
        attrs: vec![],
        abi: Abi { name: Some(text("C")) },
        items: vec![ForeignItem::Verbatim(text("type Opaque;"))],
    });
    assert_eq!(
        bind_module_with(two(), &vec![false, true], false),
        Ok(File {
            shebang: None,
            attrs: vec![],
            items: vec![
                kept_block,
                Item::Verbatim(text("struct Tail;")),
                Item::Struct(vtable(vec![library_field(), add_field()])),
                Item::Impl(impl_bindings(vec![loader(&["add"])])),
            ],
        })
    );
    assert_eq!(
        bind_module(two(), &StartsWithName { name: "add" }, false),
        bind_module_with(two(), &vec![false, true], false)
    );
}

#[test]
fn a_malformed_declaration_stops_the_pass() {
    let mut generic = function("generic", vec![], None);
    generic.sig.generics = Some(text("T"));
    let mut method = function("method", vec![ForeignArg::Receiver(text("self"))], None);
    method.sig.asyncness = true;
    let input = || File {
        shebang: None,
        attrs: vec![],
        items: vec![Item::ForeignMod(ItemForeignMod {
            attrs: vec![],
            abi: Abi { name: Some(text("C")) },
            items: vec![
                ForeignItem::Fn(add()),
                ForeignItem::Fn(generic.clone()),
                ForeignItem::Fn(method.clone()),
            ],
        })],
    };
    assert_eq!(
        generate_bindings(Some(Ok(input())), &Always),
        Err(Error::MalformedDeclaration(text("generic")))
    );
    // also when the declaration is not wanted
    assert_eq!(
        generate_bindings(Some(Ok(input())), &Never),
        Err(Error::MalformedDeclaration(text("generic")))
    );
}

#[test]
fn two_chosen_functions_of_one_name_stop_the_pass() {
    let input = || File {
        shebang: None,
        attrs: vec![],
        items: vec![
            Item::ForeignMod(ItemForeignMod {
                attrs: vec![],
                abi: Abi { name: Some(text("C")) },
                items: vec![ForeignItem::Fn(add())],
            }),
            Item::ForeignMod(ItemForeignMod {
                attrs: vec![],
                abi: Abi { name: Some(text("system")) },
                items: vec![ForeignItem::Fn(add())],
            }),
        ],
    };
    assert_eq!(
        generate_bindings(Some(Ok(input())), &Always),
        Err(Error::DuplicateSymbol(text("add")))
    );
    assert!(bind_module_with(input(), &vec![true, false], true).is_ok());
    assert!(generate_bindings(Some(Ok(input())), &Never).is_ok());
}

#[test]
fn a_generator_that_produced_nothing_is_reported() {
    assert_eq!(generate_bindings(None, &Always), Err(Error::BindgenFailed));
}

#[test]
fn text_that_is_no_module_is_reported_with_the_complaint() {
    let complaint = ParseError { message: text("expected `;`") };
    assert_eq!(
        generate_bindings(Some(Err(complaint.clone())), &Always),
        Err(Error::Parse(complaint))
    );
}

#[test]
fn errors_say_what_went_wrong() {
    assert_eq!(Error::BindgenFailed.message(), "Bindgen was unable to generate bindings");
    assert_eq!(
        Error::Parse(ParseError { message: text("expected `;`") }).message(),
        "Unable to parse the bindings emitted by bindgen"
    );
    assert_eq!(
        Error::MalformedDeclaration(text("generic")).message(),
        "Not a foreign function declaration: generic"
    );
    assert_eq!(
        Error::DuplicateSymbol(text("add")).message(),
        "More than one function is named add"
    );
}
