#![allow(dead_code)]

use minifmt::fmt;
use minifmt::punct::{Add, Colon2, Comma, Or, Pair, Punctuated};
use minifmt::syntax::{
    ArgCaptured, ArgSelfRef, Arm, AttrStyle, Attribute, BinOp, Block, Expr, ExprBinary, ExprBlock,
    ExprCall, ExprIf, ExprLit, ExprMacro, ExprMatch, ExprPath, ExprStruct, Field, FieldValue,
    Fields, FieldsNamed, File, FnArg, FnDecl, GenericParam, Generics, ImplItem, ImplItemMethod,
    IntSuffix, Item, ItemImpl, ItemMod, ItemStruct, ItemUse, Lifetime, Lit, LitInt, Local, Macro,
    MacroDelimiter, Member, Meta, MetaNameValue, MethodSig, Pat, PatIdent, Path, PathArguments,
    PathSegment, PredicateType, ReturnType, Stmt, TraitBound, Type, TypeParam, TypeParamBound,
    TypePath, TypeReference, UsePath, UseTree, Visibility, WhereClause, WherePredicate,
};
use proc_macro2::TokenStream;

fn seq<T, U: Copy>(values: Vec<T>, separator: U, trailing: bool) -> Punctuated<T, U> {
    let n = values.len();
    let mut pairs = Vec::new();
    for (pos, value) in values.into_iter().enumerate() {
        let punct = if pos + 1 < n || trailing { Some(separator) } else { None };
        pairs.push(Pair { value, punct });
    }
    Punctuated { pairs }
}

fn commas<T>(values: Vec<T>) -> Punctuated<T, Comma> {
    seq(values, Comma, false)
}

fn path(names: &[&str]) -> Path {
    let segments = names
        .iter()
        .map(|name| PathSegment { ident: name.to_string(), arguments: PathArguments::Empty })
        .collect();
    Path { leading_colon: false, segments: seq(segments, Colon2, false) }
}

fn ty(name: &str) -> Type {
    Type::Path(TypePath { qself: false, path: path(&[name]) })
}

fn name(ident: &str) -> Expr {
    Expr::Path(ExprPath { attrs: Vec::new(), qself: false, path: path(&[ident]) })
}

fn num(value: u64, suffix: IntSuffix) -> Expr {
    Expr::Lit(ExprLit { attrs: Vec::new(), lit: Lit::Int(LitInt { value, suffix }) })
}

fn text(value: &str) -> Expr {
    Expr::Lit(ExprLit { attrs: Vec::new(), lit: Lit::Str(value.to_string()) })
}

fn binding(ident: &str) -> Pat {
    Pat::Ident(PatIdent {
        by_ref: false,
        mutability: false,
        ident: ident.to_string(),
        subpat: false,
    })
}

fn block(stmts: Vec<Stmt>) -> Expr {
    Expr::Block(ExprBlock { attrs: Vec::new(), label: false, block: Block { stmts } })
}

fn bound(ident: &str) -> TypeParamBound {
    TypeParamBound::Trait(TraitBound {
        paren_token: false,
        maybe: false,
        lifetimes: false,
        path: path(&[ident]),
    })
}

fn method(ident: &str, inputs: Vec<FnArg>, output: ReturnType, stmts: Vec<Stmt>) -> ImplItem {
    ImplItem::Method(ImplItemMethod {
        attrs: Vec::new(),
        vis: Visibility::Public,
        defaultness: false,
        sig: MethodSig {
            constness: false,
            unsafety: false,
            asyncness: false,
            abi: false,
            ident: ident.to_string(),
            decl: FnDecl {
                generics: Generics { params: commas(Vec::new()), where_clause: None },
                inputs: commas(inputs),
                variadic: false,
                output,
            },
        },
        block: Block { stmts },
    })
}

fn reference(lifetime: Option<&str>, mutability: bool, elem: Type) -> Type {
    Type::Reference(TypeReference {
        lifetime: lifetime.map(|ident| Lifetime { ident: ident.to_string() }),
        mutability,
        elem: Box::new(elem),
    })
}

fn tokens(source: &str) -> String {
    match source.parse::<TokenStream>() {
        Ok(stream) => stream.to_string(),
        Err(_) => panic!("no token stream: {}", source),
    }
}

/// Formats the tree, checks that the text parses as a file and that its
/// tokens are those of `source`, and returns the text.
fn keeps_tokens(source: &str, tree: File) -> String {
    let formatted = fmt(&tree).unwrap();
    if let Err(e) = syn::parse_str::<syn::File>(&formatted) {
        panic!("the output does not parse: {}\n---\n{}---", e, formatted);
    }
    assert_eq!(tokens(&formatted), tokens(source));
    formatted
}

fn sample_struct() -> Item {
    let field = |ident: &str, ty: Type| Field {
        attrs: Vec::new(),
        vis: Visibility::Public,
        ident: Some(ident.to_string()),
        colon_token: true,
        ty,
    };
    Item::Struct(ItemStruct {
        attrs: vec![Attribute {
            style: AttrStyle::Outer,
            meta: Meta::NameValue(MetaNameValue {
                ident: "doc".to_string(),
                lit: Lit::Str(" A pair.".to_string()),
            }),
        }],
        vis: Visibility::Public,
        ident: "Pair".to_string(),
        generics: Generics {
            params: commas(vec![GenericParam::Type(TypeParam {
                attrs: Vec::new(),
                ident: "T".to_string(),
                colon_token: true,
                bounds: seq(vec![bound("Clone"), bound("Send")], Add, false),
                eq_token: false,
                default: None,
            })]),
            where_clause: Some(WhereClause {
                predicates: seq(
                    vec![WherePredicate::Type(PredicateType {
                        lifetimes: false,
                        bounded_ty: ty("T"),
                        bounds: seq(vec![bound("Sync")], Add, false),
                    })],
                    Comma,
                    true,
                ),
            }),
        },
        fields: Fields::Named(FieldsNamed {
            named: seq(
                vec![field("left", ty("T")), field("right", reference(Some("a"), true, ty("T")))],
                Comma,
                true,
            ),
        }),
        semi_token: false,
    })
}

fn sample_impl() -> Item {
    let cond = Expr::Binary(ExprBinary {
        attrs: Vec::new(),
        left: Box::new(name("x")),
        op: BinOp::Le,
        right: Box::new(num(10, IntSuffix::U32)),
    });
    let branch = Expr::If(ExprIf {
        attrs: Vec::new(),
        cond: Box::new(cond),
        then_branch: Block { stmts: vec![Stmt::Expr(text("small"))] },
        else_branch: Some(Box::new(block(vec![Stmt::Expr(Expr::Macro(ExprMacro {
            attrs: Vec::new(),
            mac: Macro {
                path: path(&["format"]),
                delimiter: MacroDelimiter::Paren,
                tts: tokens("\"{}\" , x"),
            },
        }))]))),
    });
    let matched = Expr::Match(ExprMatch {
        attrs: Vec::new(),
        expr: Box::new(name("y")),
        arms: vec![
            Arm {
                attrs: Vec::new(),
                leading_vert: false,
                pats: seq(vec![binding("a"), binding("b")], Or, false),
                body: Box::new(block(vec![Stmt::Semi(name("a"))])),
                comma: false,
            },
            Arm {
                attrs: Vec::new(),
                leading_vert: false,
                pats: seq(vec![Pat::Wild], Or, false),
                body: Box::new(Expr::Struct(ExprStruct {
                    attrs: Vec::new(),
                    path: path(&["S"]),
                    fields: seq(
                        vec![FieldValue {
                            attrs: Vec::new(),
                            member: Member::Named("a".to_string()),
                            expr: num(1, IntSuffix::Unsuffixed),
                        }],
                        Comma,
                        true,
                    ),
                    dot2_token: true,
                    rest: Some(Box::new(name("d"))),
                })),
                comma: true,
            },
        ],
    });
    let make = Expr::Call(ExprCall {
        attrs: Vec::new(),
        func: Box::new(name("make")),
        args: commas(vec![name("x"), text("two")]),
    });
    let body = vec![
        Stmt::Item(Item::Use(ItemUse {
            attrs: Vec::new(),
            vis: Visibility::Inherited,
            leading_colon: false,
            tree: UseTree::Path(UsePath {
                ident: "std".to_string(),
                tree: Box::new(UseTree::Glob),
            }),
        })),
        Stmt::Local(Local {
            attrs: Vec::new(),
            pats: seq(vec![binding("y")], Or, false),
            ty: Some(ty("u8")),
            init: Some(make),
        }),
        Stmt::Semi(matched),
        Stmt::Expr(branch),
    ];
    Item::Impl(ItemImpl {
        attrs: vec![Attribute {
            style: AttrStyle::Outer,
            meta: Meta::Word("inline".to_string()),
        }],
        defaultness: false,
        unsafety: false,
        generics: Generics { params: commas(Vec::new()), where_clause: None },
        trait_: false,
        self_ty: Box::new(ty("Thing")),
        items: vec![
            method(
                "pick",
                vec![
                    FnArg::SelfRef(ArgSelfRef {
                        lifetime: Some(Lifetime { ident: "a".to_string() }),
                        mutability: true,
                    }),
                    FnArg::Captured(ArgCaptured {
                        pat: binding("x"),
                        ty: reference(Some("a"), true, ty("u32")),
                    }),
                ],
                ReturnType::Type(Box::new(ty("String"))),
                body,
            ),
            method("none", Vec::new(), ReturnType::Default, Vec::new()),
        ],
    })
}

#[test]
fn a_formatted_struct_parses_again_with_the_same_tokens() {
    let source = "#[doc = \" A pair.\"]
        pub struct Pair<T: Clone + Send> where T: Sync, { pub left: T, pub right: &'a mut T, }";
    let formatted = keeps_tokens(
        source,
        File { shebang: false, attrs: Vec::new(), items: vec![sample_struct()] },
    );
    assert_eq!(
        formatted,
        "/// A pair.\npub struct Pair<T: Clone + Send>\nwhere\n    T: Sync,\n{\n    pub left: T,\n    pub right: &'a mut T,\n}\n"
    );
}

#[test]
fn a_formatted_impl_block_parses_again_with_the_same_tokens() {
    let source = "#[inline] impl Thing {
        pub fn pick(&'a mut self, x: &'a mut u32) -> String {
            use std::*;
            let y: u8 = make(x, \"two\");
            match y { a | b => { a; } _ => S { a: 1, ..d }, };
            if x <= 10u32 { \"small\" } else { format!(\"{}\", x) }
        }
        pub fn none() {}
    }";
    let formatted = keeps_tokens(
        source,
        File { shebang: false, attrs: Vec::new(), items: vec![sample_impl()] },
    );
    let expect = r#"
#[inline]
impl Thing {
    pub fn pick(&'a mut self, x: &'a mut u32) -> String {
        use std::*;

        let y: u8 = make(x, "two");
        match y {
            a | b => {
                a;
            }
            _ => S {
                a: 1,
                .. d},
        };
        if x <= 10u32 {
            "small"
        } else {
            format!("{}" , x)
        }
    }

    pub fn none() {
    }
}
"#;
    assert_eq!(formatted, &expect[1..]);
}

#[test]
fn a_formatted_module_parses_again_with_the_same_tokens() {
    let module = Item::Mod(ItemMod {
        attrs: Vec::new(),
        vis: Visibility::Public,
        ident: "outer".to_string(),
        content: Some(vec![
            Item::Mod(ItemMod {
                attrs: Vec::new(),
                vis: Visibility::Inherited,
                ident: "file".to_string(),
                content: None,
            }),
            sample_struct(),
            sample_impl(),
        ]),
    });
    let source = "pub mod outer { mod file;
        #[doc = \" A pair.\"]
        pub struct Pair<T: Clone + Send> where T: Sync, { pub left: T, pub right: &'a mut T, }
        #[inline] impl Thing {
            pub fn pick(&'a mut self, x: &'a mut u32) -> String {
                use std::*;
                let y: u8 = make(x, \"two\");
                match y { a | b => { a; } _ => S { a: 1, ..d }, };
                if x <= 10u32 { \"small\" } else { format!(\"{}\", x) }
            }
            pub fn none() {}
        }
    }";
    let formatted = keeps_tokens(
        source,
        File { shebang: false, attrs: Vec::new(), items: vec![module] },
    );
    assert!(formatted.starts_with("pub mod outer {\n    mod file;/// A pair.\n    pub struct"));
    assert!(formatted.ends_with("        pub fn none() {\n        }\n    }\n}\n"));
}

fn impl_with(body: Vec<Stmt>, inputs: Vec<FnArg>) -> File {
    let item = Item::Impl(ItemImpl {
        attrs: Vec::new(),
        defaultness: false,
        unsafety: false,
        generics: Generics { params: commas(Vec::new()), where_clause: None },
        trait_: false,
        self_ty: Box::new(ty("T")),
        items: vec![method("f", inputs, ReturnType::Default, body)],
    });
    File { shebang: false, attrs: Vec::new(), items: vec![item] }
}

fn invoke(delimiter: MacroDelimiter) -> Stmt {
    Stmt::Semi(Expr::Macro(ExprMacro {
        attrs: Vec::new(),
        mac: Macro { path: path(&["m"]), delimiter, tts: tokens("1 , 2") },
    }))
}

#[test]
fn a_macro_keeps_its_delimiters() {
    let body = vec![
        invoke(MacroDelimiter::Paren),
        invoke(MacroDelimiter::Bracket),
        invoke(MacroDelimiter::Brace),
    ];
    let formatted = keeps_tokens(
        "impl T { pub fn f() { m!(1, 2); m![1, 2]; m!{1, 2}; } }",
        impl_with(body, Vec::new()),
    );
    assert_eq!(
        formatted,
        "impl T {\n    pub fn f() {\n        m!(1 , 2);\n        m![1 , 2];\n        m! {\n            1 , 2};\n    }\n}\n"
    );
}

#[test]
fn a_macro_in_braces_and_one_in_brackets_give_different_text() {
    let braces = fmt(&impl_with(vec![invoke(MacroDelimiter::Brace)], Vec::new())).unwrap();
    let brackets = fmt(&impl_with(vec![invoke(MacroDelimiter::Bracket)], Vec::new())).unwrap();
    assert_ne!(braces, brackets);
    assert_eq!(tokens(&braces), tokens("impl T { pub fn f() { m!{1, 2}; } }"));
    assert_eq!(tokens(&brackets), tokens("impl T { pub fn f() { m![1, 2]; } }"));
}

#[test]
fn a_lifetime_is_parted_from_what_it_refers_to() {
    let inputs = vec![
        FnArg::SelfRef(ArgSelfRef {
            lifetime: Some(Lifetime { ident: "a".to_string() }),
            mutability: false,
        }),
        FnArg::Captured(ArgCaptured {
            pat: binding("x"),
            ty: reference(Some("a"), false, ty("u8")),
        }),
        FnArg::Captured(ArgCaptured {
            pat: binding("y"),
            ty: reference(Some("b"), true, reference(None, false, ty("u8"))),
        }),
    ];
    let formatted = keeps_tokens(
        "impl T { pub fn f(&'a self, x: &'a u8, y: &'b mut &u8) {} }",
        impl_with(Vec::new(), inputs),
    );
    assert_eq!(
        formatted,
        "impl T {\n    pub fn f(&'a self, x: &'a u8, y: &'b mut &u8) {\n    }\n}\n"
    );
}
