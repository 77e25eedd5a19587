use minifmt::fmt;
use minifmt::syntax::{
    AttrStyle, Attribute, File, Item, ItemMod, ItemUse, Lit, Meta, MetaNameValue, UsePath,
    UseTree, Visibility,
};

fn check(expect: &str, file: File) {
    let actual = match fmt(&file) {
        Ok(actual) => actual,
        Err(e) => panic!("failed; error = {:?}", e),
    };
    if actual != &expect[1..] {
        panic!(
            "assertion failed. \n\n=== Expected: ===\n\n---\n{}---\n\n=== Actual: ===\n\n---\n{}---\n\n",
            &expect[1..],
            actual
        );
    }
}

fn file(items: Vec<Item>) -> File {
    File { shebang: false, attrs: Vec::new(), items }
}

fn my_module(vis: Visibility, content: Option<Vec<Item>>) -> Item {
    Item::Mod(ItemMod { attrs: Vec::new(), vis, ident: "my_module".to_string(), content })
}

fn use_std_io(attrs: Vec<Attribute>, vis: Visibility) -> Item {
    Item::Use(ItemUse {
        attrs,
        vis,
        leading_colon: false,
        tree: UseTree::Path(UsePath {
            ident: "std".to_string(),
            tree: Box::new(UseTree::Name("io".to_string())),
        }),
    })
}

#[test]
fn empty_module() {
    check(
        r#"
mod my_module;
"#,
        file(vec![my_module(Visibility::Inherited, None)]),
    );

    check(
        r#"
pub mod my_module;
"#,
        file(vec![my_module(Visibility::Public, None)]),
    );

    check(
        r#"
pub mod my_module {
}
"#,
        file(vec![my_module(Visibility::Public, Some(Vec::new()))]),
    );
}

#[test]
fn use_statements() {
    check(
        r#"
mod my_module {
    use std::io;
}
"#,
        file(vec![my_module(
            Visibility::Inherited,
            Some(vec![use_std_io(Vec::new(), Visibility::Inherited)]),
        )]),
    );

    let foo = Attribute { style: AttrStyle::Outer, meta: Meta::Word("foo".to_string()) };
    let bar = Attribute {
        style: AttrStyle::Outer,
        meta: Meta::NameValue(MetaNameValue {
            ident: "bar".to_string(),
            lit: Lit::Str("baz".to_string()),
        }),
    };
    check(
        r#"
mod my_module {
    #[foo]
    #[bar = "baz"]
    use std::io;
}
"#,
        file(vec![my_module(
            Visibility::Inherited,
            Some(vec![use_std_io(vec![foo, bar], Visibility::Inherited)]),
        )]),
    );

    check(
        r#"
mod my_module {
    pub use std::io;
}
"#,
        file(vec![my_module(
            Visibility::Inherited,
            Some(vec![use_std_io(Vec::new(), Visibility::Public)]),
        )]),
    );
}
