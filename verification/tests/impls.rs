use minifmt::fmt;
use minifmt::punct::{Colon2, Comma, Or, Pair, Punctuated};
use minifmt::syntax::{
    ArgCaptured, ArgSelfRef, Arm, AttrStyle, Attribute, BinOp, Block, Expr, ExprBinary,
    ExprBlock, ExprCall, ExprField, ExprForLoop, ExprIf, ExprLit, ExprMacro, ExprMatch,
    ExprMethodCall, ExprPath, ExprReference, ExprStruct, ExprUnary, FieldValue, File, FnArg,
    FnDecl, Generics, ImplItem, ImplItemMethod, IntSuffix, Item, ItemImpl, ItemUse, Lit, LitInt,
    Local, Macro, MacroDelimiter, Member, Meta, MethodSig, Pat, PatIdent, PatTuple,
    PatTupleStruct, Path, PathArguments, PathSegment, ReturnType, Stmt, Type, TypePath,
    TypeReference, TypeSlice, UnOp, UsePath, UseTree, Visibility,
};

fn check(expect: &str, file: File) {
    let actual = match fmt(&file) {
        Ok(actual) => actual,
        Err(e) => panic!("failed; error = {:?}", e),
    };
    if actual != &expect[1..] {
        panic!(
            "assertion failed. \n\n=== Expected: ===\n\n---\n{}---\n\n=== Actual: ===\n\n---\n{}---\n\n",
            &expect[1..],
            actual
        );
    }
}

fn file(items: Vec<Item>) -> File {
    File { shebang: false, attrs: Vec::new(), items }
}

fn commas<T>(values: Vec<T>, trailing: bool) -> Punctuated<T, Comma> {
    let n = values.len();
    let mut pairs = Vec::new();
    for (pos, value) in values.into_iter().enumerate() {
        let punct = if pos + 1 < n || trailing { Some(Comma) } else { None };
        pairs.push(Pair { value, punct });
    }
    Punctuated { pairs }
}

fn path(names: &[&str]) -> Path {
    let n = names.len();
    let mut pairs = Vec::new();
    for (pos, name) in names.iter().enumerate() {
        let value = PathSegment { ident: name.to_string(), arguments: PathArguments::Empty };
        let punct = if pos + 1 < n { Some(Colon2) } else { None };
        pairs.push(Pair { value, punct });
    }
    Path { leading_colon: false, segments: Punctuated { pairs } }
}

fn ty(names: &[&str]) -> Type {
    Type::Path(TypePath { qself: false, path: path(names) })
}

fn no_generics() -> Generics {
    Generics { params: Punctuated { pairs: Vec::new() }, where_clause: None }
}

fn impl_block(attrs: Vec<Attribute>, name: &str, items: Vec<ImplItem>) -> Item {
    Item::Impl(ItemImpl {
        attrs,
        defaultness: false,
        unsafety: false,
        generics: no_generics(),
        trait_: false,
        self_ty: Box::new(ty(&[name])),
        items,
    })
}

fn method(name: &str, inputs: Vec<FnArg>, output: ReturnType, stmts: Vec<Stmt>) -> ImplItem {
    ImplItem::Method(ImplItemMethod {
        attrs: Vec::new(),
        vis: Visibility::Inherited,
        defaultness: false,
        sig: MethodSig {
            constness: false,
            unsafety: false,
            asyncness: false,
            abi: false,
            ident: name.to_string(),
            decl: FnDecl {
                generics: no_generics(),
                inputs: commas(inputs, false),
                variadic: false,
                output,
            },
        },
        block: Block { stmts },
    })
}

fn result_type(names: &[&str]) -> ReturnType {
    ReturnType::Type(Box::new(ty(names)))
}

fn name(ident: &str) -> Expr {
    Expr::Path(ExprPath { attrs: Vec::new(), qself: false, path: path(&[ident]) })
}

fn int_lit(value: u64) -> Expr {
    Expr::Lit(ExprLit {
        attrs: Vec::new(),
        lit: Lit::Int(LitInt { value, suffix: IntSuffix::Unsuffixed }),
    })
}

fn str_lit(value: &str) -> Expr {
    Expr::Lit(ExprLit { attrs: Vec::new(), lit: Lit::Str(value.to_string()) })
}

fn call(func: &str, args: Vec<Expr>) -> Expr {
    Expr::Call(ExprCall {
        attrs: Vec::new(),
        func: Box::new(name(func)),
        args: commas(args, false),
    })
}

fn method_call(receiver: Expr, method: &str, args: Vec<Expr>) -> Expr {
    Expr::MethodCall(ExprMethodCall {
        attrs: Vec::new(),
        receiver: Box::new(receiver),
        method: method.to_string(),
        turbofish: false,
        args: commas(args, false),
    })
}

fn binding(ident: &str) -> Pat {
    Pat::Ident(PatIdent {
        by_ref: false,
        mutability: false,
        ident: ident.to_string(),
        subpat: false,
    })
}

fn one_pat(pat: Pat) -> Punctuated<Pat, Or> {
    Punctuated { pairs: vec![Pair { value: pat, punct: None }] }
}

fn variant(ident: &str, inner: &str) -> Pat {
    Pat::TupleStruct(PatTupleStruct {
        path: path(&[ident]),
        pat: PatTuple {
            front: commas(vec![binding(inner)], false),
            dot2_token: false,
            comma_token: false,
            back: commas(Vec::new(), false),
        },
    })
}

fn arm(pat: Pat, body: Expr, comma: bool) -> Arm {
    Arm {
        attrs: Vec::new(),
        leading_vert: false,
        pats: one_pat(pat),
        body: Box::new(body),
        comma,
    }
}

fn block(stmts: Vec<Stmt>) -> Expr {
    Expr::Block(ExprBlock { attrs: Vec::new(), label: false, block: Block { stmts } })
}

fn panic_call() -> Expr {
    Expr::Macro(ExprMacro {
        attrs: Vec::new(),
        mac: Macro {
            path: path(&["panic"]),
            delimiter: MacroDelimiter::Paren,
            tts: String::new(),
        },
    })
}

fn mut_self() -> FnArg {
    FnArg::SelfRef(ArgSelfRef { lifetime: None, mutability: true })
}

fn attrs_arg() -> FnArg {
    FnArg::Captured(ArgCaptured {
        pat: binding("i"),
        ty: Type::Reference(TypeReference {
            lifetime: None,
            mutability: false,
            elem: Box::new(Type::Slice(TypeSlice {
                elem: Box::new(ty(&["syn", "Attribute"])),
            })),
        }),
    })
}

fn attr_arg() -> FnArg {
    FnArg::Captured(ArgCaptured {
        pat: binding("i"),
        ty: Type::Reference(TypeReference {
            lifetime: None,
            mutability: false,
            elem: Box::new(ty(&["syn", "Attribute"])),
        }),
    })
}

fn for_attr(body: Vec<Stmt>) -> Stmt {
    Stmt::Expr(Expr::ForLoop(ExprForLoop {
        attrs: Vec::new(),
        label: false,
        pat: Box::new(binding("attr")),
        expr: Box::new(name("i")),
        body: Block { stmts: body },
    }))
}

fn visit_attr() -> Stmt {
    Stmt::Semi(method_call(name("self"), "visit_attribute", vec![name("attr")]))
}

fn if_then(cond: Expr, then_branch: Vec<Stmt>) -> Stmt {
    Stmt::Expr(Expr::If(ExprIf {
        attrs: Vec::new(),
        cond: Box::new(cond),
        then_branch: Block { stmts: then_branch },
        else_branch: None,
    }))
}

fn use_glob(first: &str, second: &str) -> Stmt {
    Stmt::Item(Item::Use(ItemUse {
        attrs: Vec::new(),
        vis: Visibility::Inherited,
        leading_colon: false,
        tree: UseTree::Path(UsePath {
            ident: first.to_string(),
            tree: Box::new(UseTree::Path(UsePath {
                ident: second.to_string(),
                tree: Box::new(UseTree::Glob),
            })),
        }),
    }))
}

#[test]
fn empty_impl_block() {
    check(
        r#"
impl MyStruct {
}
"#,
        file(vec![impl_block(Vec::new(), "MyStruct", Vec::new())]),
    );
}

#[test]
fn attributes() {
    let foo = Attribute { style: AttrStyle::Outer, meta: Meta::Word("foo".to_string()) };
    let bar = Attribute { style: AttrStyle::Inner, meta: Meta::Word("bar".to_string()) };
    check(
        r#"
#[foo]
impl MyStruct {
    #![bar]
}
"#,
        file(vec![impl_block(vec![foo, bar], "MyStruct", Vec::new())]),
    );
}

#[test]
fn init_tuple_struct() {
    let sum = Expr::Binary(ExprBinary {
        attrs: Vec::new(),
        left: Box::new(int_lit(2)),
        op: BinOp::Add,
        right: Box::new(int_lit(3)),
    });
    let body = call("Foo", vec![int_lit(1), str_lit("two"), call("foo", Vec::new()), sum]);
    check(
        r#"
impl Foo {
    fn new() -> Self {
        Foo(1, "two", foo(), 2 + 3)
    }
}
"#,
        file(vec![impl_block(
            Vec::new(),
            "Foo",
            vec![method("new", Vec::new(), result_type(&["Self"]), vec![Stmt::Expr(body)])],
        )]),
    );
}

#[test]
fn basic_functions() {
    let new = method(
        "new",
        Vec::new(),
        result_type(&["FormatFile"]),
        vec![Stmt::Expr(Expr::Struct(ExprStruct {
            attrs: Vec::new(),
            path: path(&["FormatFile"]),
            fields: commas(
                vec![
                    FieldValue {
                        attrs: Vec::new(),
                        member: Member::Named("out".to_string()),
                        expr: method_call(str_lit(""), "to_string", Vec::new()),
                    },
                    FieldValue {
                        attrs: Vec::new(),
                        member: Member::Named("indent".to_string()),
                        expr: int_lit(0),
                    },
                ],
                true,
            ),
            dot2_token: false,
            rest: None,
        }))],
    );

    let visit_attributes = method(
        "visit_attributes",
        vec![mut_self(), attrs_arg()],
        ReturnType::Default,
        vec![for_attr(vec![visit_attr()])],
    );

    let visit_inner_attributes = method(
        "visit_inner_attributes",
        vec![mut_self(), attrs_arg()],
        ReturnType::Default,
        vec![for_attr(vec![if_then(
            call("is_inner_attr", vec![name("attr")]),
            vec![visit_attr()],
        )])],
    );

    let visit_outer_attributes = method(
        "visit_outer_attributes",
        vec![mut_self(), attrs_arg()],
        ReturnType::Default,
        vec![for_attr(vec![if_then(
            Expr::Unary(ExprUnary {
                attrs: Vec::new(),
                op: UnOp::Not,
                expr: Box::new(call("is_inner_attr", vec![name("attr")])),
            }),
            vec![visit_attr()],
        )])],
    );

    let doc_comment = Stmt::Semi(method_call(
        name("self"),
        "visit_doc_comment",
        vec![
            call("is_inner_attr", vec![name("i")]),
            Expr::Reference(ExprReference {
                attrs: Vec::new(),
                mutability: false,
                expr: Box::new(method_call(name("s"), "value", Vec::new())),
            }),
        ],
    ));
    let inner_match = Expr::Match(ExprMatch {
        attrs: Vec::new(),
        expr: Box::new(Expr::Field(ExprField {
            attrs: Vec::new(),
            base: Box::new(name("name_value")),
            member: Member::Named("lit".to_string()),
        })),
        arms: vec![
            arm(variant("Str", "s"), block(vec![doc_comment]), false),
            arm(Pat::Wild, panic_call(), true),
        ],
    });
    let outer_match = Expr::Match(ExprMatch {
        attrs: Vec::new(),
        expr: Box::new(name("meta")),
        arms: vec![
            arm(
                variant("NameValue", "name_value"),
                block(vec![Stmt::Expr(inner_match)]),
                false,
            ),
            arm(Pat::Wild, panic_call(), true),
        ],
    });
    let visit_doc_attribute = method(
        "visit_doc_attribute",
        vec![mut_self(), attr_arg()],
        ReturnType::Default,
        vec![
            use_glob("syn", "Meta"),
            use_glob("syn", "Lit"),
            Stmt::Local(Local {
                attrs: Vec::new(),
                pats: one_pat(binding("meta")),
                ty: None,
                init: Some(method_call(
                    method_call(name("i"), "parse_meta", Vec::new()),
                    "unwrap",
                    Vec::new(),
                )),
            }),
            Stmt::Expr(outer_match),
        ],
    );

    check(
        r#"
impl MyStruct {
    fn new() -> FormatFile {
        FormatFile {
            out: "".to_string(),
            indent: 0,
        }
    }

    fn visit_attributes(&mut self, i: &[syn::Attribute]) {
        for attr in i {
            self.visit_attribute(attr);
        }
    }

    fn visit_inner_attributes(&mut self, i: &[syn::Attribute]) {
        for attr in i {
            if is_inner_attr(attr) {
                self.visit_attribute(attr);
            }
        }
    }

    fn visit_outer_attributes(&mut self, i: &[syn::Attribute]) {
        for attr in i {
            if !is_inner_attr(attr) {
                self.visit_attribute(attr);
            }
        }
    }

    fn visit_doc_attribute(&mut self, i: &syn::Attribute) {
        use syn::Meta::*;
        use syn::Lit::*;

        let meta = i.parse_meta().unwrap();
        match meta {
            NameValue(name_value) => {
                match name_value.lit {
                    Str(s) => {
                        self.visit_doc_comment(is_inner_attr(i), &s.value());
                    }
                    _ => panic!(),
                }
            }
            _ => panic!(),
        }
    }
}
"#,
        file(vec![impl_block(
            Vec::new(),
            "MyStruct",
            vec![
                new,
                visit_attributes,
                visit_inner_attributes,
                visit_outer_attributes,
                visit_doc_attribute,
            ],
        )]),
    );
}
