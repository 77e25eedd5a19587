//! Rendering of declarations and whole files.

use crate::error::Error;
use crate::laws::lemma_file_text_ends_line;
use crate::punct::{lemma_take_all, lemma_take_next, Punctuated, Punctuation, Space};
use crate::render::{
    arg_captured_supported, attrs_supported, emit_arg_captured, emit_arg_self, emit_arg_self_ref,
    emit_attrs, emit_field, emit_fields, emit_fields_named, emit_file, emit_fn_arg, emit_fn_args,
    emit_fn_decl, emit_impl_item, emit_impl_item_method, emit_impl_items, emit_item,
    emit_item_impl, emit_item_mod, emit_item_struct, emit_item_use, emit_items, emit_method_sig,
    emit_return_type, emit_use_path, emit_use_tree, field_supported, fields_named_supported,
    fields_supported, file_supported, file_text, fn_arg_supported, fn_args_supported,
    fn_decl_supported, impl_item_method_supported, impl_item_supported, impl_items_supported,
    item_impl_supported, item_mod_supported, item_struct_supported, item_supported,
    item_use_supported, items_supported, method_sig_supported, return_type_supported,
    use_tree_supported,
};
use crate::sink::{FormatFile, Sink};
use crate::syntax::{
    ArgCaptured, ArgSelf, ArgSelfRef, AttrStyle, Field, Fields, FieldsNamed, File, FnArg, FnDecl,
    ImplItem, ImplItemMethod, Item, ItemImpl, ItemMod, ItemStruct, ItemUse, MethodSig,
    ReturnType, UsePath, UseTree,
};
use vstd::prelude::*;

verus! {

impl FormatFile {
    /// Renders a declaration.
    pub fn visit_item(&mut self, i: &Item) -> (r: Result<(), Error>)
        ensures
            final(self)@.margin == old(self)@.margin,
            r is Ok <==> item_supported(*i),
            r is Ok ==> final(self)@ == emit_item(old(self)@, *i),
        decreases i, 0int,
    {
        match i {
            Item::Use(u) => self.visit_item_use(u),
            Item::Mod(m) => self.visit_item_mod(m),
            Item::Struct(s) => self.visit_item_struct(s),
            Item::Impl(b) => self.visit_item_impl(b),
            Item::Other => Err(Error::unsupported()),
        }
    }

    /// Renders declarations in turn.
    pub fn visit_items(&mut self, i: &Vec<Item>) -> (r: Result<(), Error>)
        ensures
            final(self)@.margin == old(self)@.margin,
            r is Ok <==> items_supported(i@),
            r is Ok ==> final(self)@ == emit_items(old(self)@, i@),
        decreases i, 0int,
    {
        let mut n: usize = 0;
        while n < i.len()
            invariant
                n <= i.len(),
                self@.margin == old(self)@.margin,
                items_supported(i@.take(n as int)),
                self@ == emit_items(old(self)@, i@.take(n as int)),
            decreases i.len() - n,
        {
            proof {
                lemma_take_next(i@, n as int);
            }
            self.visit_item(&i[n])?;
            n = n + 1;
        }
        proof {
            lemma_take_all(i@);
        }
        Ok(())
    }

    /// Renders what an import names.
    pub fn visit_use_tree(&mut self, i: &UseTree) -> (r: Result<(), Error>)
        ensures
            final(self)@.margin == old(self)@.margin,
            r is Ok <==> use_tree_supported(*i),
            r is Ok ==> final(self)@ == emit_use_tree(old(self)@, *i),
        decreases i, 0int,
    {
        match i {
            UseTree::Path(p) => self.visit_use_path(p),
            UseTree::Name(ident) => {
                self.visit_ident(ident.as_str());
                Ok(())
            },
            UseTree::Glob => {
                self.visit_use_glob();
                Ok(())
            },
            UseTree::Other => Err(Error::unsupported()),
        }
    }

    /// Writes the `*` of a glob import.
    pub fn visit_use_glob(&mut self)
        ensures
            final(self)@.margin == old(self)@.margin,
            final(self)@ == old(self)@.write("*"@),
    {
        self.write_str("*");
    }

    /// Renders a path prefix of an import.
    pub fn visit_use_path(&mut self, i: &UsePath) -> (r: Result<(), Error>)
        ensures
            final(self)@.margin == old(self)@.margin,
            r is Ok <==> use_tree_supported(*i.tree),
            r is Ok ==> final(self)@ == emit_use_path(old(self)@, *i),
        decreases i, 0int,
    {
        self.visit_ident(i.ident.as_str());
        self.write_str("::");
        self.visit_use_tree(&i.tree)
    }

    /// Renders an import.
    pub fn visit_item_use(&mut self, i: &ItemUse) -> (r: Result<(), Error>)
        ensures
            final(self)@.margin == old(self)@.margin,
            r is Ok <==> item_use_supported(*i),
            r is Ok ==> final(self)@ == emit_item_use(old(self)@, *i),
    {
        self.visit_attributes(&i.attrs)?;
        self.visit_visibility(&i.vis)?;
        self.write_str("use ");
        if i.leading_colon {
            self.write_str("::");
        }
        self.visit_use_tree(&i.tree)?;
        self.write_str(";\n");
        Ok(())
    }

    /// Renders a module.
    pub fn visit_item_mod(&mut self, i: &ItemMod) -> (r: Result<(), Error>)
        ensures
            final(self)@.margin == old(self)@.margin,
            r is Ok <==> item_mod_supported(*i),
            r is Ok ==> final(self)@ == emit_item_mod(old(self)@, *i),
        decreases i, 0int,
    {
        self.visit_outer_attributes(&i.attrs)?;
        self.visit_visibility(&i.vis)?;
        self.write_str("mod ");
        self.visit_ident(i.ident.as_str());
        match &i.content {
            Some(items) => {
                self.block(
                    |me: &mut FormatFile| -> (r: Result<(), Error>)
                        ensures
                            final(me)@.margin == old(me)@.margin,
                            r is Ok <==> items_supported(items@),
                            r is Ok ==> final(me)@ == emit_items(old(me)@, items@),
                        { me.visit_items(items) }
                )
            },
            None => {
                self.write_str(";");
                Ok(())
            },
        }
    }

    /// Renders a field of a struct.
    pub fn visit_field(&mut self, i: &Field) -> (r: Result<(), Error>)
        ensures
            final(self)@.margin == old(self)@.margin,
            r is Ok <==> field_supported(*i),
            r is Ok ==> final(self)@ == emit_field(old(self)@, *i),
        decreases i, 0int,
    {
        self.visit_attributes(&i.attrs)?;
        self.visit_visibility(&i.vis)?;
        match &i.ident {
            Some(ident) => {
                if !i.colon_token {
                    return Err(Error::unsupported());
                }
                self.visit_ident(ident.as_str());
                self.write_str(": ");
                self.visit_type(&i.ty)
            },
            None => Err(Error::unsupported()),
        }
    }

    /// Renders the named fields of a struct as a scope.
    pub fn visit_fields_named(&mut self, i: &FieldsNamed) -> (r: Result<(), Error>)
        ensures
            final(self)@.margin == old(self)@.margin,
            r is Ok <==> fields_named_supported(*i),
            r is Ok ==> final(self)@ == emit_fields_named(old(self)@, *i),
        decreases i, 0int,
    {
        self.block(
            |v: &mut FormatFile| -> (r: Result<usize, Error>)
                ensures
                    final(v)@.margin == old(v)@.margin,
                    r is Ok <==> fields_supported(i.named.pairs@),
                    r is Ok ==> final(v)@ == emit_fields(old(v)@, i.named.pairs@, Space::NewLine),
                { v.visit_punctuated_fields(&i.named, Space::NewLine) }
        )?;
        Ok(())
    }

    /// Renders a struct.
    pub fn visit_item_struct(&mut self, i: &ItemStruct) -> (r: Result<(), Error>)
        ensures
            final(self)@.margin == old(self)@.margin,
            r is Ok <==> item_struct_supported(*i),
            r is Ok ==> final(self)@ == emit_item_struct(old(self)@, *i),
        decreases i, 0int,
    {
        self.visit_attributes(&i.attrs)?;
        self.visit_visibility(&i.vis)?;
        self.write_str("struct ");
        self.visit_ident(i.ident.as_str());
        self.visit_generics(&i.generics)?;
        match &i.fields {
            Fields::Named(fields_named) => {
                self.visit_where_clause_if_present(&i.generics)?;
                self.visit_fields_named(fields_named)?;
            },
            Fields::Unnamed => {
                return Err(Error::unsupported());
            },
            Fields::Unit => {},
        }
        if i.semi_token {
            self.write_str(";");
        }
        Ok(())
    }

    /// Renders the result type of a function.
    pub fn visit_return_type(&mut self, i: &ReturnType) -> (r: Result<(), Error>)
        ensures
            final(self)@.margin == old(self)@.margin,
            r is Ok <==> return_type_supported(*i),
            r is Ok ==> final(self)@ == emit_return_type(old(self)@, *i),
        decreases i, 0int,
    {
        match i {
            ReturnType::Type(ty) => {
                self.write_str(" -> ");
                self.visit_type(ty)
            },
            ReturnType::Default => Ok(()),
        }
    }

    /// Renders a borrowed receiver.
    pub fn visit_arg_self_ref(&mut self, i: &ArgSelfRef)
        ensures
            final(self)@.margin == old(self)@.margin,
            final(self)@ == emit_arg_self_ref(old(self)@, *i),
    {
        self.visit_reference_head(&i.lifetime, i.mutability);
        self.write_str("self");
    }

    /// Renders a receiver by value.
    pub fn visit_arg_self(&mut self, i: &ArgSelf)
        ensures
            final(self)@.margin == old(self)@.margin,
            final(self)@ == emit_arg_self(old(self)@, *i),
    {
        if i.mutability {
            self.write_str("mut ");
        }
        self.write_str("self");
    }

    /// Renders a parameter with its type.
    pub fn visit_arg_captured(&mut self, i: &ArgCaptured) -> (r: Result<(), Error>)
        ensures
            final(self)@.margin == old(self)@.margin,
            r is Ok <==> arg_captured_supported(*i),
            r is Ok ==> final(self)@ == emit_arg_captured(old(self)@, *i),
        decreases i, 0int,
    {
        self.visit_pat(&i.pat)?;
        self.write_str(": ");
        self.visit_type(&i.ty)
    }

    /// Renders a parameter of a function.
    pub fn visit_fn_arg(&mut self, i: &FnArg) -> (r: Result<(), Error>)
        ensures
            final(self)@.margin == old(self)@.margin,
            r is Ok <==> fn_arg_supported(*i),
            r is Ok ==> final(self)@ == emit_fn_arg(old(self)@, *i),
        decreases i, 0int,
    {
        match i {
            FnArg::SelfRef(a) => {
                self.visit_arg_self_ref(a);
                Ok(())
            },
            FnArg::SelfValue(a) => {
                self.visit_arg_self(a);
                Ok(())
            },
            FnArg::Captured(a) => self.visit_arg_captured(a),
            FnArg::Inferred(p) => self.visit_pat(p),
            FnArg::Ignored(t) => self.visit_type(t),
        }
    }

    /// Renders what follows the name of a function.
    pub fn visit_fn_decl(&mut self, i: &FnDecl) -> (r: Result<(), Error>)
        ensures
            final(self)@.margin == old(self)@.margin,
            r is Ok <==> fn_decl_supported(*i),
            r is Ok ==> final(self)@ == emit_fn_decl(old(self)@, *i),
        decreases i, 0int,
    {
        self.visit_generics(&i.generics)?;
        self.write_str("(");
        self.visit_punctuated_fn_args(&i.inputs, Space::SpaceRight)?;
        if i.variadic {
            return Err(Error::unsupported());
        }
        self.write_str(")");
        self.visit_return_type(&i.output)?;
        self.visit_where_clause_if_present(&i.generics)?;
        Ok(())
    }

    /// Renders the signature of a method.
    pub fn visit_method_sig(&mut self, i: &MethodSig) -> (r: Result<(), Error>)
        ensures
            final(self)@.margin == old(self)@.margin,
            r is Ok <==> method_sig_supported(*i),
            r is Ok ==> final(self)@ == emit_method_sig(old(self)@, *i),
        decreases i, 0int,
    {
        if i.constness || i.abi {
            return Err(Error::unsupported());
        }
        if i.unsafety {
            self.write_str("unsafe ");
        }
        if i.asyncness {
            self.write_str("async ");
        }
        self.write_str("fn ");
        self.visit_ident(i.ident.as_str());
        self.visit_fn_decl(&i.decl)
    }

    /// Renders a method.
    pub fn visit_impl_item_method(&mut self, i: &ImplItemMethod) -> (r: Result<(), Error>)
        ensures
            final(self)@.margin == old(self)@.margin,
            r is Ok <==> impl_item_method_supported(*i),
            r is Ok ==> final(self)@ == emit_impl_item_method(old(self)@, *i),
        decreases i, 0int,
    {
        if i.defaultness {
            return Err(Error::unsupported());
        }
        self.visit_attributes(&i.attrs)?;
        self.visit_visibility(&i.vis)?;
        self.visit_method_sig(&i.sig)?;
        self.visit_block(&i.block)
    }

    /// Renders an item of an `impl` block.
    pub fn visit_impl_item(&mut self, i: &ImplItem) -> (r: Result<(), Error>)
        ensures
            final(self)@.margin == old(self)@.margin,
            r is Ok <==> impl_item_supported(*i),
            r is Ok ==> final(self)@ == emit_impl_item(old(self)@, *i),
        decreases i, 0int,
    {
        match i {
            ImplItem::Method(m) => self.visit_impl_item_method(m),
            ImplItem::Other => Err(Error::unsupported()),
        }
    }

    /// Renders the items of an `impl` block: each ends its line, and a blank
    /// line parts it from the next.
    pub fn visit_impl_items(&mut self, i: &Vec<ImplItem>) -> (r: Result<(), Error>)
        ensures
            final(self)@.margin == old(self)@.margin,
            r is Ok <==> impl_items_supported(i@),
            r is Ok ==> final(self)@ == emit_impl_items(old(self)@, i@, i@.len() as int),
        decreases i, 0int,
    {
        let mut pos: usize = 0;
        while pos < i.len()
            invariant
                pos <= i.len(),
                self@.margin == old(self)@.margin,
                forall|k: int| 0 <= k < pos ==> impl_item_supported(#[trigger] i@[k]),
                self@ == emit_impl_items(old(self)@, i@, pos as int),
            decreases i.len() - pos,
        {
            self.visit_impl_item(&i[pos])?;
            if pos + 1 < i.len() {
                self.write_str("\n");
            }
            self.write_str("\n");
            pos = pos + 1;
        }
        Ok(())
    }

    /// Renders an `impl` block.
    pub fn visit_item_impl(&mut self, i: &ItemImpl) -> (r: Result<(), Error>)
        ensures
            final(self)@.margin == old(self)@.margin,
            r is Ok <==> item_impl_supported(*i),
            r is Ok ==> final(self)@ == emit_item_impl(old(self)@, *i),
        decreases i, 0int,
    {
        self.visit_outer_attributes(&i.attrs)?;
        if i.defaultness {
            return Err(Error::unsupported());
        }
        if i.unsafety {
            self.write_str("unsafe ");
        }
        self.write_str("impl");
        self.visit_generics(&i.generics)?;
        if i.trait_ {
            return Err(Error::unsupported());
        }
        self.write_str(" ");
        self.visit_type(&i.self_ty)?;
        self.visit_where_clause_if_present(&i.generics)?;
        self.block(
            |v: &mut FormatFile| -> (r: Result<(), Error>)
                ensures
                    final(v)@.margin == old(v)@.margin,
                    r is Ok <==> attrs_supported(i.attrs@, Some(AttrStyle::Inner))
                        && impl_items_supported(i.items@),
                    r is Ok ==> final(v)@ == emit_impl_items(
                        emit_attrs(old(v)@, i.attrs@, Some(AttrStyle::Inner)),
                        i.items@,
                        i.items@.len() as int,
                    ),
                {
                    match v.visit_inner_attributes(&i.attrs) {
                        Ok(()) => v.visit_impl_items(&i.items),
                        Err(e) => Err(e),
                    }
                }
        )
    }

    /// Renders a file.
    pub fn visit_file(&mut self, i: &File) -> (r: Result<(), Error>)
        ensures
            final(self)@.margin == old(self)@.margin,
            r is Ok <==> file_supported(*i),
            r is Ok ==> final(self)@ == emit_file(old(self)@, *i),
    {
        if i.shebang {
            return Err(Error::unsupported());
        }
        self.visit_attributes(&i.attrs)?;
        self.visit_items(&i.items)
    }

    /// Renders a delimited sequence of struct fields: each element in turn, and
    /// behind it its separator, if it has one, as the policy says.  The
    /// result is the number of separators written.
    pub fn visit_punctuated_fields<U: Punctuation>(
        &mut self,
        punctuated: &Punctuated<Field, U>,
        space: Space,
    ) -> (r: Result<usize, Error>)
        ensures
            final(self)@.margin == old(self)@.margin,
            r is Ok <==> fields_supported(punctuated.pairs@),
            r is Ok ==> final(self)@ == emit_fields(old(self)@, punctuated.pairs@, space),
            r is Ok ==> r->Ok_0 == Punctuated::<Field, U>::separators(punctuated.pairs@),
        decreases punctuated, 0int,
    {
        let mut written: usize = 0;
        let mut n: usize = 0;
        while n < punctuated.pairs.len()
            invariant
                n <= punctuated.pairs.len(),
                written <= n,
                written == Punctuated::<Field, U>::separators(punctuated.pairs@.take(n as int)),
                self@.margin == old(self)@.margin,
                fields_supported(punctuated.pairs@.take(n as int)),
                self@ == emit_fields(old(self)@, punctuated.pairs@.take(n as int), space),
            decreases punctuated.pairs.len() - n,
        {
            let pair = &punctuated.pairs[n];
            proof {
                lemma_take_next(punctuated.pairs@, n as int);
            }
            self.visit_field(&pair.value)?;
            if self.visit_separator(&pair.punct, space) {
                written = written + 1;
            }
            n = n + 1;
        }
        proof {
            lemma_take_all(punctuated.pairs@);
        }
        Ok(written)
    }

    /// Renders a delimited sequence of function parameters: each element in turn, and
    /// behind it its separator, if it has one, as the policy says.  The
    /// result is the number of separators written.
    pub fn visit_punctuated_fn_args<U: Punctuation>(
        &mut self,
        punctuated: &Punctuated<FnArg, U>,
        space: Space,
    ) -> (r: Result<usize, Error>)
        ensures
            final(self)@.margin == old(self)@.margin,
            r is Ok <==> fn_args_supported(punctuated.pairs@),
            r is Ok ==> final(self)@ == emit_fn_args(old(self)@, punctuated.pairs@, space),
            r is Ok ==> r->Ok_0 == Punctuated::<FnArg, U>::separators(punctuated.pairs@),
        decreases punctuated, 0int,
    {
        let mut written: usize = 0;
        let mut n: usize = 0;
        while n < punctuated.pairs.len()
            invariant
                n <= punctuated.pairs.len(),
                written <= n,
                written == Punctuated::<FnArg, U>::separators(punctuated.pairs@.take(n as int)),
                self@.margin == old(self)@.margin,
                fn_args_supported(punctuated.pairs@.take(n as int)),
                self@ == emit_fn_args(old(self)@, punctuated.pairs@.take(n as int), space),
            decreases punctuated.pairs.len() - n,
        {
            let pair = &punctuated.pairs[n];
            proof {
                lemma_take_next(punctuated.pairs@, n as int);
            }
            self.visit_fn_arg(&pair.value)?;
            if self.visit_separator(&pair.punct, space) {
                written = written + 1;
            }
            n = n + 1;
        }
        proof {
            lemma_take_all(punctuated.pairs@);
        }
        Ok(written)
    }
}

/// Formats a file.
///
/// The result is the text that the rendering rules give for the file, ended
/// by a line break unless it is empty; it is empty only for a file that
/// holds nothing.  A line break is added only where the text does not end
/// with one.  Formatting fails exactly where the file holds a construct
/// without a rendering rule.
pub fn fmt(file: &File) -> (r: Result<String, Error>)
    ensures
        r is Ok <==> file_supported(*file),
        r is Ok ==> r->Ok_0@ == file_text(*file),
        r is Ok ==> r->Ok_0@.len() == 0 || r->Ok_0@.last() == '\n',
        r is Ok && (file.attrs@.len() > 0 || file.items@.len() > 0) ==> r->Ok_0@.len() > 0,
        r is Ok ==> ({
            let written = emit_file(Sink::start(), *file).text;
            ||| r->Ok_0@ == written
            ||| r->Ok_0@ == written.push('\n') && written.len() > 0 && written.last() != '\n'
        }),
{
    let mut visitor = FormatFile::new();
    visitor.visit_file(file)?;
    proof {
        if file.attrs@.len() > 0 || file.items@.len() > 0 {
            lemma_file_text_ends_line(*file);
        }
    }
    Ok(visitor.finish())
}

} // verus!
