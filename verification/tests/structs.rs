use minifmt::fmt;
use minifmt::punct::{Add, Colon2, Comma, Pair, Punctuated};
use minifmt::syntax::{
    AngleBracketedGenericArguments, AttrStyle, Attribute, Expr, ExprLit, Field, Fields,
    FieldsNamed, File, GenericArgument, GenericParam, Generics, IntSuffix, Item, ItemStruct, Lit,
    LitInt, Meta, MetaList, NestedMeta, Path, PathArguments, PathSegment, TraitBound, Type,
    TypeArray, TypeParam, TypeParamBound, TypePath, TypeTuple, Visibility,
};

fn check(expect: &str, file: File) {
    let actual = match fmt(&file) {
        Ok(actual) => actual,
        Err(e) => panic!("failed; error = {:?}", e),
    };
    if actual != &expect[1..] {
        panic!(
            "assertion failed. \n\n=== Expected: ===\n\n---\n{}---\n\n=== Actual: ===\n\n---\n{}---\n\n",
            &expect[1..],
            actual
        );
    }
}

fn file(items: Vec<Item>) -> File {
    File { shebang: false, attrs: Vec::new(), items }
}

fn commas<T>(values: Vec<T>, trailing: bool) -> Punctuated<T, Comma> {
    let n = values.len();
    let mut pairs = Vec::new();
    for (pos, value) in values.into_iter().enumerate() {
        let punct = if pos + 1 < n || trailing { Some(Comma) } else { None };
        pairs.push(Pair { value, punct });
    }
    Punctuated { pairs }
}

fn segment(name: &str) -> PathSegment {
    PathSegment { ident: name.to_string(), arguments: PathArguments::Empty }
}

fn path_of(segments: Vec<PathSegment>) -> Path {
    let n = segments.len();
    let mut pairs = Vec::new();
    for (pos, value) in segments.into_iter().enumerate() {
        let punct = if pos + 1 < n { Some(Colon2) } else { None };
        pairs.push(Pair { value, punct });
    }
    Path { leading_colon: false, segments: Punctuated { pairs } }
}

fn ty(name: &str) -> Type {
    Type::Path(TypePath { qself: false, path: path_of(vec![segment(name)]) })
}

fn no_generics() -> Generics {
    Generics { params: Punctuated { pairs: Vec::new() }, where_clause: None }
}

fn named(fields: Vec<Field>) -> Fields {
    Fields::Named(FieldsNamed { named: commas(fields, true) })
}

fn field(name: &str, ty: Type) -> Field {
    Field {
        attrs: Vec::new(),
        vis: Visibility::Inherited,
        ident: Some(name.to_string()),
        colon_token: true,
        ty,
    }
}

fn my_struct(vis: Visibility, generics: Generics, fields: Fields, semi_token: bool) -> Item {
    Item::Struct(ItemStruct {
        attrs: Vec::new(),
        vis,
        ident: "MyStruct".to_string(),
        generics,
        fields,
        semi_token,
    })
}

fn tuple(elems: Vec<Type>) -> Type {
    Type::Tuple(TypeTuple { elems: commas(elems, false) })
}

fn type_param(name: &str, bounds: Vec<Path>) -> GenericParam {
    let n = bounds.len();
    let mut pairs = Vec::new();
    for (pos, path) in bounds.into_iter().enumerate() {
        let value = TypeParamBound::Trait(TraitBound {
            paren_token: false,
            maybe: false,
            lifetimes: false,
            path,
        });
        let punct = if pos + 1 < n { Some(Add) } else { None };
        pairs.push(Pair { value, punct });
    }
    GenericParam::Type(TypeParam {
        attrs: Vec::new(),
        ident: name.to_string(),
        colon_token: n > 0,
        bounds: Punctuated { pairs },
        eq_token: false,
        default: None,
    })
}

#[test]
fn empty_struct() {
    check(
        r#"
struct MyStruct;
"#,
        file(vec![my_struct(Visibility::Inherited, no_generics(), Fields::Unit, true)]),
    );

    check(
        r#"
pub struct MyStruct;
"#,
        file(vec![my_struct(Visibility::Public, no_generics(), Fields::Unit, true)]),
    );

    check(
        r#"
pub struct MyStruct {
}
"#,
        file(vec![my_struct(Visibility::Public, no_generics(), named(Vec::new()), false)]),
    );
}

#[test]
fn fields() {
    let len = Expr::Lit(ExprLit {
        attrs: Vec::new(),
        lit: Lit::Int(LitInt { value: 64, suffix: IntSuffix::Unsuffixed }),
    });
    check(
        r#"
struct MyStruct {
    foo: Bar,
    baz: usize,
    wut: (A, u32),
    arr: [u8; 64],
}
"#,
        file(vec![my_struct(
            Visibility::Inherited,
            no_generics(),
            named(vec![
                field("foo", ty("Bar")),
                field("baz", ty("usize")),
                field("wut", tuple(vec![ty("A"), ty("u32")])),
                field("arr", Type::Array(TypeArray { elem: Box::new(ty("u8")), len })),
            ]),
            false,
        )]),
    );
}

#[test]
fn generics() {
    let two = PathSegment {
        ident: "Two".to_string(),
        arguments: PathArguments::AngleBracketed(AngleBracketedGenericArguments {
            colon2_token: false,
            args: commas(vec![GenericArgument::Type(ty("U"))], false),
        }),
    };
    let generics = Generics {
        params: commas(
            vec![
                type_param("T", Vec::new()),
                type_param("U", vec![path_of(vec![segment("One")])]),
                type_param("V", vec![path_of(vec![two])]),
            ],
            false,
        ),
        where_clause: None,
    };
    check(
        r#"
struct MyStruct<T, U: One, V: Two<U>> {
    _p: (T, U, V),
}
"#,
        file(vec![my_struct(
            Visibility::Inherited,
            generics,
            named(vec![field("_p", tuple(vec![ty("T"), ty("U"), ty("V")]))]),
            false,
        )]),
    );
}

#[test]
fn derive() {
    let names = vec!["Foo", "Bar", "Baz"]
        .into_iter()
        .map(|name| NestedMeta::Meta(Meta::Word(name.to_string())))
        .collect();
    let derive = Attribute {
        style: AttrStyle::Outer,
        meta: Meta::List(MetaList { ident: "derive".to_string(), nested: commas(names, false) }),
    };
    check(
        r#"
#[derive(Foo, Bar, Baz)]
struct MyStruct {
}
"#,
        file(vec![Item::Struct(ItemStruct {
            attrs: vec![derive],
            vis: Visibility::Inherited,
            ident: "MyStruct".to_string(),
            generics: no_generics(),
            fields: named(Vec::new()),
            semi_token: false,
        })]),
    );
}
