//! Rendering of literals and attributes.

use crate::error::Error;
use crate::literal::{decimal_string, quote_str, suffix_str};
use crate::punct::{lemma_take_all, lemma_take_next, Punctuated, Punctuation, Space};
use crate::render::{
    attr_selected, attribute_supported, attrs_supported, doc_attribute_supported, emit_attribute,
    emit_attrs, emit_doc_attribute, emit_lit, emit_lit_int, emit_lit_str, emit_meta,
    emit_meta_list, emit_meta_name_value, emit_nested_meta, emit_nested_metas, emit_separator,
    attr_is_doc, attr_is_inner, lit_supported, meta_name, meta_supported, nested_meta_supported,
    nested_metas_supported,
};
use crate::sink::FormatFile;
use crate::syntax::{
    AttrStyle, Attribute, Lit, LitInt, Meta, MetaList, MetaNameValue, NestedMeta,
};
use vstd::prelude::*;

verus! {

/// Whether the attribute applies to what encloses it.
pub fn is_inner_attr(attr: &Attribute) -> (b: bool)
    ensures
        b == attr_is_inner(*attr),
{
    match attr.style {
        AttrStyle::Inner => true,
        _ => false,
    }
}

/// Whether the attribute is a documentation attribute.
pub fn is_doc_attr(attr: &Attribute) -> (b: bool)
    ensures
        b == attr_is_doc(*attr),
{
    let doc = "doc".to_owned();
    match &attr.meta {
        Meta::Word(ident) => *ident == doc,
        Meta::List(l) => l.ident == doc,
        Meta::NameValue(nv) => nv.ident == doc,
        Meta::Other => false,
    }
}

impl FormatFile {
    /// Writes the separator of a pair, if it has one, with the whitespace
    /// that the policy puts around it, and says whether it wrote one.
    pub fn visit_separator<U: Punctuation>(&mut self, punct: &Option<U>, space: Space) -> (written:
        bool)
        ensures
            final(self)@.margin == old(self)@.margin,
            final(self)@ == emit_separator(old(self)@, *punct, space),
            written == (punct is Some),
    {
        match punct {
            Some(p) => {
                self.write_str(space.left());
                self.write_str(p.as_str());
                self.write_str(space.right());
                true
            },
            None => false,
        }
    }

    /// Renders an integer literal.
    pub fn visit_lit_int(&mut self, i: &LitInt)
        ensures
            final(self)@.margin == old(self)@.margin,
            final(self)@ == emit_lit_int(old(self)@, *i),
    {
        let digits = decimal_string(i.value);
        self.write_str(digits.as_str());
        self.write_str(suffix_str(i.suffix));
    }

    /// Renders a string literal from the value that it denotes.
    pub fn visit_lit_str(&mut self, value: &str)
        ensures
            final(self)@.margin == old(self)@.margin,
            final(self)@ == emit_lit_str(old(self)@, value@),
    {
        let quoted = quote_str(value);
        self.write_str(quoted.as_str());
    }

    /// Renders a literal.
    pub fn visit_lit(&mut self, i: &Lit) -> (r: Result<(), Error>)
        ensures
            final(self)@.margin == old(self)@.margin,
            r is Ok <==> lit_supported(*i),
            r is Ok ==> final(self)@ == emit_lit(old(self)@, *i),
    {
        match i {
            Lit::Str(s) => {
                self.visit_lit_str(s.as_str());
                Ok(())
            },
            Lit::Int(n) => {
                self.visit_lit_int(n);
                Ok(())
            },
            Lit::Other => Err(Error::unsupported()),
        }
    }

    /// Renders the content of an attribute.
    pub fn visit_meta(&mut self, i: &Meta) -> (r: Result<(), Error>)
        ensures
            final(self)@.margin == old(self)@.margin,
            r is Ok <==> meta_supported(*i),
            r is Ok ==> final(self)@ == emit_meta(old(self)@, *i),
        decreases i, 0int,
    {
        match i {
            Meta::Word(ident) => {
                self.write_str(ident.as_str());
                Ok(())
            },
            Meta::List(l) => self.visit_meta_list(l),
            Meta::NameValue(nv) => self.visit_meta_name_value(nv),
            Meta::Other => Err(Error::unsupported()),
        }
    }

    /// Renders a name applied to a list.
    pub fn visit_meta_list(&mut self, i: &MetaList) -> (r: Result<(), Error>)
        ensures
            final(self)@.margin == old(self)@.margin,
            r is Ok <==> nested_metas_supported(i.nested.pairs@),
            r is Ok ==> final(self)@ == emit_meta_list(old(self)@, *i),
        decreases i, 0int,
    {
        self.write_str(i.ident.as_str());
        self.write_str("(");
        self.visit_punctuated_nested_metas(&i.nested, Space::SpaceRight)?;
        self.write_str(")");
        Ok(())
    }

    /// Renders a name set to a literal.
    pub fn visit_meta_name_value(&mut self, i: &MetaNameValue) -> (r: Result<(), Error>)
        ensures
            final(self)@.margin == old(self)@.margin,
            r is Ok <==> lit_supported(i.lit),
            r is Ok ==> final(self)@ == emit_meta_name_value(old(self)@, *i),
    {
        self.write_str(i.ident.as_str());
        self.write_str(" = ");
        self.visit_lit(&i.lit)
    }

    /// Renders an element of an attribute's list.
    pub fn visit_nested_meta(&mut self, i: &NestedMeta) -> (r: Result<(), Error>)
        ensures
            final(self)@.margin == old(self)@.margin,
            r is Ok <==> nested_meta_supported(*i),
            r is Ok ==> final(self)@ == emit_nested_meta(old(self)@, *i),
        decreases i, 0int,
    {
        match i {
            NestedMeta::Meta(m) => self.visit_meta(m),
            NestedMeta::Literal(l) => self.visit_lit(l),
        }
    }

    /// Renders a delimited sequence of attribute arguments: each element in
    /// turn, and behind it its separator, if it has one, as the policy says.
    /// The result is the number of separators written.
    pub fn visit_punctuated_nested_metas<U: Punctuation>(
        &mut self,
        punctuated: &Punctuated<NestedMeta, U>,
        space: Space,
    ) -> (r: Result<usize, Error>)
        ensures
            final(self)@.margin == old(self)@.margin,
            r is Ok <==> nested_metas_supported(punctuated.pairs@),
            r is Ok ==> final(self)@ == emit_nested_metas(old(self)@, punctuated.pairs@, space),
            r is Ok ==> r->Ok_0 == Punctuated::<NestedMeta, U>::separators(punctuated.pairs@),
        decreases punctuated, 0int,
    {
        let mut written: usize = 0;
        let mut n: usize = 0;
        while n < punctuated.pairs.len()
            invariant
                n <= punctuated.pairs.len(),
                written <= n,
                written == Punctuated::<NestedMeta, U>::separators(punctuated.pairs@.take(n as int)),
                self@.margin == old(self)@.margin,
                nested_metas_supported(punctuated.pairs@.take(n as int)),
                self@ == emit_nested_metas(old(self)@, punctuated.pairs@.take(n as int), space),
            decreases punctuated.pairs.len() - n,
        {
            let pair = &punctuated.pairs[n];
            proof {
                lemma_take_next(punctuated.pairs@, n as int);
            }
            self.visit_nested_meta(&pair.value)?;
            if self.visit_separator(&pair.punct, space) {
                written = written + 1;
            }
            n = n + 1;
        }
        proof {
            lemma_take_all(punctuated.pairs@);
        }
        Ok(written)
    }

    /// Renders a documentation attribute as a comment.
    pub fn visit_doc_attribute(&mut self, i: &Attribute) -> (r: Result<(), Error>)
        ensures
            final(self)@.margin == old(self)@.margin,
            r is Ok <==> doc_attribute_supported(*i),
            r is Ok ==> final(self)@ == emit_doc_attribute(old(self)@, *i),
    {
        match &i.meta {
            Meta::NameValue(name_value) => {
                match &name_value.lit {
                    Lit::Str(s) => {
                        self.visit_doc_comment(is_inner_attr(i), s.as_str());
                        Ok(())
                    },
                    _ => Err(Error::unsupported()),
                }
            },
            _ => Err(Error::unsupported()),
        }
    }

    /// Renders the content of an attribute.
    pub fn visit_attribute_body(&mut self, i: &Attribute) -> (r: Result<(), Error>)
        ensures
            final(self)@.margin == old(self)@.margin,
            r is Ok <==> meta_supported(i.meta),
            r is Ok ==> final(self)@ == emit_meta(old(self)@, i.meta),
    {
        self.visit_meta(&i.meta)
    }

    /// Renders an attribute: a documentation attribute as a comment, any
    /// other between `#[` or `#![` and `]`, on a line of its own.
    pub fn visit_attribute(&mut self, i: &Attribute) -> (r: Result<(), Error>)
        ensures
            final(self)@.margin == old(self)@.margin,
            r is Ok <==> attribute_supported(*i),
            r is Ok ==> final(self)@ == emit_attribute(old(self)@, *i),
    {
        if is_doc_attr(i) {
            self.visit_doc_attribute(i)
        } else if is_inner_attr(i) {
            self.write_str("#![");
            self.visit_attribute_body(i)?;
            self.write_str("]\n");
            Ok(())
        } else {
            self.write_str("#[");
            self.visit_attribute_body(i)?;
            self.write_str("]\n");
            Ok(())
        }
    }

    /// Renders the attributes of the given style, or all of them where
    /// `only` is `None`, in the order in which they stand.
    pub fn visit_selected_attributes(&mut self, i: &Vec<Attribute>, only: Option<AttrStyle>) -> (r:
        Result<(), Error>)
        ensures
            final(self)@.margin == old(self)@.margin,
            r is Ok <==> attrs_supported(i@, only),
            r is Ok ==> final(self)@ == emit_attrs(old(self)@, i@, only),
    {
        let mut n: usize = 0;
        while n < i.len()
            invariant
                n <= i.len(),
                self@.margin == old(self)@.margin,
                attrs_supported(i@.take(n as int), only),
                self@ == emit_attrs(old(self)@, i@.take(n as int), only),
            decreases i.len() - n,
        {
            let attr = &i[n];
            proof {
                lemma_take_next(i@, n as int);
            }
            let selected = match only {
                None => true,
                Some(AttrStyle::Inner) => is_inner_attr(attr),
                Some(AttrStyle::Outer) => !is_inner_attr(attr),
            };
            if selected {
                self.visit_attribute(attr)?;
            }
            n = n + 1;
        }
        proof {
            lemma_take_all(i@);
        }
        Ok(())
    }

    /// Renders every attribute.
    pub fn visit_attributes(&mut self, i: &Vec<Attribute>) -> (r: Result<(), Error>)
        ensures
            final(self)@.margin == old(self)@.margin,
            r is Ok <==> attrs_supported(i@, None),
            r is Ok ==> final(self)@ == emit_attrs(old(self)@, i@, None),
    {
        self.visit_selected_attributes(i, None)
    }

    /// Renders the attributes that apply to what encloses them.
    pub fn visit_inner_attributes(&mut self, i: &Vec<Attribute>) -> (r: Result<(), Error>)
        ensures
            final(self)@.margin == old(self)@.margin,
            r is Ok <==> attrs_supported(i@, Some(AttrStyle::Inner)),
            r is Ok ==> final(self)@ == emit_attrs(old(self)@, i@, Some(AttrStyle::Inner)),
    {
        self.visit_selected_attributes(i, Some(AttrStyle::Inner))
    }

    /// Renders the attributes that apply to what follows them.
    pub fn visit_outer_attributes(&mut self, i: &Vec<Attribute>) -> (r: Result<(), Error>)
        ensures
            final(self)@.margin == old(self)@.margin,
            r is Ok <==> attrs_supported(i@, Some(AttrStyle::Outer)),
            r is Ok ==> final(self)@ == emit_attrs(old(self)@, i@, Some(AttrStyle::Outer)),
    {
        self.visit_selected_attributes(i, Some(AttrStyle::Outer))
    }
}

} // verus!
