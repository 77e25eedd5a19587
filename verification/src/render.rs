//! The rendering rules, as functions on the model of the output.
//!
//! For every kind of node there are two functions.  `*_supported` says
//! whether the node and everything below it has a rendering rule.
//! `emit_*` takes the state of the sink before the node is rendered and
//! gives its state afterwards; it is meant for supported nodes.

use crate::literal::{debug_quoted, decimal, suffix_text};
use crate::punct::{Pair, Punctuation, Space};
use crate::sink::Sink;
use crate::syntax::{
    AngleBracketedGenericArguments, ArgCaptured, ArgSelf, ArgSelfRef, Arm, AttrStyle, Attribute,
    BinOp, Block, Expr, ExprBinary, ExprBlock, ExprCall, ExprField, ExprForLoop, ExprIf, ExprLit,
    ExprMacro, ExprMatch, ExprMethodCall, ExprPath, ExprReference, ExprStruct, ExprUnary, Field,
    FieldValue, Fields, FieldsNamed, File, FnArg, FnDecl, GenericArgument, GenericParam, Generics,
    ImplItem, ImplItemMethod, Item, ItemImpl, ItemMod, ItemStruct, ItemUse, Lifetime, Lit, LitInt,
    Local, Macro, MacroDelimiter, Member, Meta, MetaList, MetaNameValue, MethodSig, NestedMeta,
    Pat, PatIdent, PatTuple, PatTupleStruct, Path, PathArguments, PathSegment, PredicateType,
    ReturnType, Stmt, TraitBound, Type, TypeArray, TypeParam, TypeParamBound, TypePath,
    TypeReference, TypeSlice, TypeTuple, UnOp, UsePath, UseTree, Visibility, WhereClause,
    WherePredicate,
};
use vstd::prelude::*;

verus! {

// ===== Separators =====

/// The sink after the separator of a pair is written, if the pair has one:
/// the separator stands between what the policy puts before and after it.
pub open spec fn emit_separator<U: Punctuation>(st: Sink, punct: Option<U>, space: Space) -> Sink {
    match punct {
        Some(p) => st.write(space.before()).write(p.text()).write(space.after()),
        None => st,
    }
}

// ===== Literals =====

/// Strings and integers have a rule.
pub open spec fn lit_supported(l: Lit) -> bool {
    !(l is Other)
}

/// An integer: its decimal numeral and, directly behind it, its suffix.
pub open spec fn emit_lit_int(st: Sink, i: LitInt) -> Sink {
    st.write(decimal(i.value as nat)).write(suffix_text(i.suffix))
}

/// A string: its value, quoted and escaped.
pub open spec fn emit_lit_str(st: Sink, value: Seq<char>) -> Sink {
    st.write(debug_quoted(value))
}

/// A literal.
pub open spec fn emit_lit(st: Sink, l: Lit) -> Sink {
    match l {
        Lit::Str(s) => emit_lit_str(st, s@),
        Lit::Int(i) => emit_lit_int(st, i),
        Lit::Other => st,
    }
}

// ===== Attributes =====

/// The name that the content of an attribute begins with.
pub open spec fn meta_name(m: Meta) -> Seq<char> {
    match m {
        Meta::Word(ident) => ident@,
        Meta::List(l) => l.ident@,
        Meta::NameValue(nv) => nv.ident@,
        Meta::Other => Seq::empty(),
    }
}

/// Whether the attribute applies to what encloses it.
pub open spec fn attr_is_inner(a: Attribute) -> bool {
    a.style is Inner
}

/// Whether the attribute is a documentation attribute: one named `doc`.
pub open spec fn attr_is_doc(a: Attribute) -> bool {
    !(a.meta is Other) && meta_name(a.meta) == "doc"@
}

/// The content of an attribute has a rule where it is a name, a name with a
/// list of supported elements, or a name set to a supported literal.
pub open spec fn meta_supported(m: Meta) -> bool
    decreases m, 0int,
{
    match m {
        Meta::Word(_) => true,
        Meta::List(l) => nested_metas_supported(l.nested.pairs@),
        Meta::NameValue(nv) => lit_supported(nv.lit),
        Meta::Other => false,
    }
}

/// An element of an attribute's list.
pub open spec fn nested_meta_supported(n: NestedMeta) -> bool
    decreases n, 0int,
{
    match n {
        NestedMeta::Meta(m) => meta_supported(m),
        NestedMeta::Literal(l) => lit_supported(l),
    }
}

/// Every element of the list has a rule.
pub open spec fn nested_metas_supported<U>(pairs: Seq<Pair<NestedMeta, U>>) -> bool
    decreases pairs, 0int,
{
    forall|i: int| 0 <= i < pairs.len() ==> nested_meta_supported((#[trigger] pairs[i]).value)
}

/// The content of an attribute.
pub open spec fn emit_meta(st: Sink, m: Meta) -> Sink
    decreases m, 0int,
{
    match m {
        Meta::Word(ident) => st.write(ident@),
        Meta::List(l) => emit_meta_list(st, l),
        Meta::NameValue(nv) => emit_meta_name_value(st, nv),
        Meta::Other => st,
    }
}

/// A name applied to a list: the name, and in parentheses the elements with
/// a space after each comma.
pub open spec fn emit_meta_list(st: Sink, l: MetaList) -> Sink
    decreases l, 0int,
{
    emit_nested_metas(st.write(l.ident@).write("("@), l.nested.pairs@, Space::SpaceRight).write(
        ")"@,
    )
}

/// A name set to a literal: the name, ` = `, the literal.
pub open spec fn emit_meta_name_value(st: Sink, nv: MetaNameValue) -> Sink {
    emit_lit(st.write(nv.ident@).write(" = "@), nv.lit)
}

/// An element of an attribute's list.
pub open spec fn emit_nested_meta(st: Sink, n: NestedMeta) -> Sink
    decreases n, 0int,
{
    match n {
        NestedMeta::Meta(m) => emit_meta(st, m),
        NestedMeta::Literal(l) => emit_lit(st, l),
    }
}

/// The elements of an attribute's list, each followed by its separator.
pub open spec fn emit_nested_metas<U: Punctuation>(
    st: Sink,
    pairs: Seq<Pair<NestedMeta, U>>,
    space: Space,
) -> Sink
    decreases pairs, 0int,
{
    if pairs.len() == 0 {
        st
    } else {
        emit_separator(
            emit_nested_meta(emit_nested_metas(st, pairs.drop_last(), space), pairs.last().value),
            pairs.last().punct,
            space,
        )
    }
}

/// A documentation comment: the marker, the text as it is, a line break.
pub open spec fn emit_doc_comment(st: Sink, is_inner: bool, value: Seq<char>) -> Sink {
    if is_inner {
        st.write("//!"@).write(value).write("\n"@)
    } else {
        st.write("///"@).write(value).write("\n"@)
    }
}

/// A documentation attribute has a rule only where it sets `doc` to a string.
pub open spec fn doc_attribute_supported(a: Attribute) -> bool {
    a.meta is NameValue && a.meta->NameValue_0.lit is Str
}

/// A documentation attribute: the comment with the string it sets.
pub open spec fn emit_doc_attribute(st: Sink, a: Attribute) -> Sink {
    emit_doc_comment(st, attr_is_inner(a), a.meta->NameValue_0.lit->Str_0@)
}

/// Whether the attribute has a rule.
pub open spec fn attribute_supported(a: Attribute) -> bool {
    if attr_is_doc(a) {
        doc_attribute_supported(a)
    } else {
        meta_supported(a.meta)
    }
}

/// An attribute: a documentation attribute as a comment, any other between
/// `#[` or `#![` and `]`, on a line of its own.
pub open spec fn emit_attribute(st: Sink, a: Attribute) -> Sink {
    if attr_is_doc(a) {
        emit_doc_attribute(st, a)
    } else if attr_is_inner(a) {
        emit_meta(st.write("#!["@), a.meta).write("]\n"@)
    } else {
        emit_meta(st.write("#["@), a.meta).write("]\n"@)
    }
}

/// Whether an attribute is among those that a rule renders: all of them where
/// `only` is `None`, else those of the given style.
pub open spec fn attr_selected(a: Attribute, only: Option<AttrStyle>) -> bool {
    match only {
        None => true,
        Some(style) => a.style == style,
    }
}

/// Every selected attribute has a rule.
pub open spec fn attrs_supported(attrs: Seq<Attribute>, only: Option<AttrStyle>) -> bool {
    forall|i: int|
        0 <= i < attrs.len() && attr_selected(#[trigger] attrs[i], only) ==> attribute_supported(
            attrs[i],
        )
}

/// The selected attributes, in the order in which they stand.
pub open spec fn emit_attrs(st: Sink, attrs: Seq<Attribute>, only: Option<AttrStyle>) -> Sink
    decreases attrs.len(),
{
    if attrs.len() == 0 {
        st
    } else if attr_selected(attrs.last(), only) {
        emit_attribute(emit_attrs(st, attrs.drop_last(), only), attrs.last())
    } else {
        emit_attrs(st, attrs.drop_last(), only)
    }
}

// ===== Names, paths and types =====

/// A lifetime: `'` and its name.
pub open spec fn emit_lifetime(st: Sink, l: Lifetime) -> Sink {
    st.write("'"@).write(l.ident@)
}

/// `pub` and no visibility at all have a rule.
pub open spec fn visibility_supported(v: Visibility) -> bool {
    !(v is Other)
}

/// A visibility: `pub ` where the item is public, nothing otherwise.
pub open spec fn emit_visibility(st: Sink, v: Visibility) -> Sink {
    match v {
        Visibility::Public => st.write("pub "@),
        _ => st,
    }
}

/// Every segment of the path has a rule.
pub open spec fn path_supported(p: Path) -> bool
    decreases p, 0int,
{
    path_segments_supported(p.segments.pairs@)
}

/// A path: `::` where it starts at the root, and the segments joined by
/// their separators without spaces.
pub open spec fn emit_path(st: Sink, p: Path) -> Sink
    decreases p, 0int,
{
    emit_path_segments(
        if p.leading_colon {
            st.write("::"@)
        } else {
            st
        },
        p.segments.pairs@,
        Space::NoSpace,
    )
}

/// A segment has a rule where it has no arguments, or supported arguments in
/// angle brackets.
pub open spec fn path_segment_supported(s: PathSegment) -> bool
    decreases s, 0int,
{
    match s.arguments {
        PathArguments::Empty => true,
        PathArguments::AngleBracketed(a) => generic_arguments_supported(a.args.pairs@),
        PathArguments::Other => false,
    }
}

/// A segment of a path: its name and its arguments.
pub open spec fn emit_path_segment(st: Sink, s: PathSegment) -> Sink
    decreases s, 0int,
{
    match s.arguments {
        PathArguments::AngleBracketed(a) => emit_angle_bracketed_generic_arguments(
            st.write(s.ident@),
            a,
        ),
        _ => st.write(s.ident@),
    }
}

/// Every segment has a rule.
pub open spec fn path_segments_supported<U>(pairs: Seq<Pair<PathSegment, U>>) -> bool
    decreases pairs, 0int,
{
    forall|i: int| 0 <= i < pairs.len() ==> path_segment_supported((#[trigger] pairs[i]).value)
}

/// The segments of a path, each followed by its separator.
pub open spec fn emit_path_segments<U: Punctuation>(
    st: Sink,
    pairs: Seq<Pair<PathSegment, U>>,
    space: Space,
) -> Sink
    decreases pairs, 0int,
{
    if pairs.len() == 0 {
        st
    } else {
        emit_separator(
            emit_path_segment(
                emit_path_segments(st, pairs.drop_last(), space),
                pairs.last().value,
            ),
            pairs.last().punct,
            space,
        )
    }
}

/// Generic arguments: `::` where it is written, and between `<` and `>` the
/// arguments with a space after each comma.
pub open spec fn emit_angle_bracketed_generic_arguments(
    st: Sink,
    a: AngleBracketedGenericArguments,
) -> Sink
    decreases a, 0int,
{
    emit_generic_arguments(
        if a.colon2_token {
            st.write("::"@).write("<"@)
        } else {
            st.write("<"@)
        },
        a.args.pairs@,
        Space::SpaceRight,
    ).write(">"@)
}

/// Lifetimes, supported types and supported expressions have a rule.
pub open spec fn generic_argument_supported(g: GenericArgument) -> bool
    decreases g, 0int,
{
    match g {
        GenericArgument::Lifetime(_) => true,
        GenericArgument::Type(t) => type_supported(t),
        GenericArgument::Const(e) => expr_supported(e),
        GenericArgument::Other => false,
    }
}

/// A generic argument.
pub open spec fn emit_generic_argument(st: Sink, g: GenericArgument) -> Sink
    decreases g, 0int,
{
    match g {
        GenericArgument::Lifetime(l) => emit_lifetime(st, l),
        GenericArgument::Type(t) => emit_type(st, t),
        GenericArgument::Const(e) => emit_expr(st, e),
        GenericArgument::Other => st,
    }
}

/// Every argument has a rule.
pub open spec fn generic_arguments_supported<U>(pairs: Seq<Pair<GenericArgument, U>>) -> bool
    decreases pairs, 0int,
{
    forall|i: int|
        0 <= i < pairs.len() ==> generic_argument_supported((#[trigger] pairs[i]).value)
}

/// Generic arguments, each followed by its separator.
pub open spec fn emit_generic_arguments<U: Punctuation>(
    st: Sink,
    pairs: Seq<Pair<GenericArgument, U>>,
    space: Space,
) -> Sink
    decreases pairs, 0int,
{
    if pairs.len() == 0 {
        st
    } else {
        emit_separator(
            emit_generic_argument(
                emit_generic_arguments(st, pairs.drop_last(), space),
                pairs.last().value,
            ),
            pairs.last().punct,
            space,
        )
    }
}

/// Slices, arrays, references, tuples and paths have a rule, where their
/// parts have one.
pub open spec fn type_supported(t: Type) -> bool
    decreases t, 0int,
{
    match t {
        Type::Slice(s) => type_supported(*s.elem),
        Type::Array(a) => type_supported(*a.elem) && expr_supported(a.len),
        Type::Reference(r) => type_supported(*r.elem),
        Type::Tuple(u) => types_supported(u.elems.pairs@),
        Type::Path(p) => type_path_supported(p),
        Type::Other => false,
    }
}

/// A type.
pub open spec fn emit_type(st: Sink, t: Type) -> Sink
    decreases t, 0int,
{
    match t {
        Type::Slice(s) => emit_type_slice(st, s),
        Type::Array(a) => emit_type_array(st, a),
        Type::Reference(r) => emit_type_reference(st, r),
        Type::Tuple(u) => emit_type_tuple(st, u),
        Type::Path(p) => emit_type_path(st, p),
        Type::Other => st,
    }
}

/// Every type has a rule.
pub open spec fn types_supported<U>(pairs: Seq<Pair<Type, U>>) -> bool
    decreases pairs, 0int,
{
    forall|i: int| 0 <= i < pairs.len() ==> type_supported((#[trigger] pairs[i]).value)
}

/// Types, each followed by its separator.
pub open spec fn emit_types<U: Punctuation>(
    st: Sink,
    pairs: Seq<Pair<Type, U>>,
    space: Space,
) -> Sink
    decreases pairs, 0int,
{
    if pairs.len() == 0 {
        st
    } else {
        emit_separator(
            emit_type(emit_types(st, pairs.drop_last(), space), pairs.last().value),
            pairs.last().punct,
            space,
        )
    }
}

/// A slice type: the element type between `[` and `]`.
pub open spec fn emit_type_slice(st: Sink, s: TypeSlice) -> Sink
    decreases s, 0int,
{
    emit_type(st.write("["@), *s.elem).write("]"@)
}

/// An array type: `[`, the element type, `;`, the length, `]`.
pub open spec fn emit_type_array(st: Sink, a: TypeArray) -> Sink
    decreases a, 0int,
{
    emit_spaced_expr(emit_type(st.write("["@), *a.elem).write(";"@), a.len).write("]"@)
}

/// The sink after `&`, the lifetime and `mut ` of a reference are written.
/// A space parts the lifetime from what follows it.
pub open spec fn emit_reference_head(st: Sink, lifetime: Option<Lifetime>, mutability: bool) -> Sink {
    let st = match lifetime {
        Some(l) => emit_lifetime(st.write("&"@), l).write(" "@),
        None => st.write("&"@),
    };
    if mutability {
        st.write("mut "@)
    } else {
        st
    }
}

/// A reference type: what begins a reference, then the type referred to.
pub open spec fn emit_type_reference(st: Sink, r: TypeReference) -> Sink
    decreases r, 0int,
{
    emit_type(emit_reference_head(st, r.lifetime, r.mutability), *r.elem)
}

/// A tuple type: the element types in parentheses, with a space after each
/// comma.
pub open spec fn emit_type_tuple(st: Sink, u: TypeTuple) -> Sink
    decreases u, 0int,
{
    emit_types(st.write("("@), u.elems.pairs@, Space::SpaceRight).write(")"@)
}

/// A path type has a rule where it is not qualified by a self type.
pub open spec fn type_path_supported(p: TypePath) -> bool
    decreases p, 0int,
{
    !p.qself && path_supported(p.path)
}

/// A path type: its path.
pub open spec fn emit_type_path(st: Sink, p: TypePath) -> Sink
    decreases p, 0int,
{
    emit_path(st, p.path)
}

// ===== Generics =====

/// A trait bound has a rule where it is plain: no parentheses, no `?`, no
/// bound lifetimes.
pub open spec fn trait_bound_supported(b: TraitBound) -> bool
    decreases b, 0int,
{
    !b.paren_token && !b.lifetimes && !b.maybe && path_supported(b.path)
}

/// A trait bound: the path of the trait.
pub open spec fn emit_trait_bound(st: Sink, b: TraitBound) -> Sink
    decreases b, 0int,
{
    emit_path(st, b.path)
}

/// Lifetimes and supported trait bounds have a rule.
pub open spec fn type_param_bound_supported(b: TypeParamBound) -> bool
    decreases b, 0int,
{
    match b {
        TypeParamBound::Trait(t) => trait_bound_supported(t),
        TypeParamBound::Lifetime(_) => true,
    }
}

/// A bound of a type parameter.
pub open spec fn emit_type_param_bound(st: Sink, b: TypeParamBound) -> Sink
    decreases b, 0int,
{
    match b {
        TypeParamBound::Trait(t) => emit_trait_bound(st, t),
        TypeParamBound::Lifetime(l) => emit_lifetime(st, l),
    }
}

/// Every bound has a rule.
pub open spec fn type_param_bounds_supported<U>(pairs: Seq<Pair<TypeParamBound, U>>) -> bool
    decreases pairs, 0int,
{
    forall|i: int|
        0 <= i < pairs.len() ==> type_param_bound_supported((#[trigger] pairs[i]).value)
}

/// Bounds, each followed by its separator.
pub open spec fn emit_type_param_bounds<U: Punctuation>(
    st: Sink,
    pairs: Seq<Pair<TypeParamBound, U>>,
    space: Space,
) -> Sink
    decreases pairs, 0int,
{
    if pairs.len() == 0 {
        st
    } else {
        emit_separator(
            emit_type_param_bound(
                emit_type_param_bounds(st, pairs.drop_last(), space),
                pairs.last().value,
            ),
            pairs.last().punct,
            space,
        )
    }
}

/// A type parameter has a rule where it carries no attribute, has bounds
/// only behind a colon and a default only behind `=`.
pub open spec fn type_param_supported(p: TypeParam) -> bool
    decreases p, 0int,
{
    &&& p.attrs@.len() == 0
    &&& if p.colon_token {
        type_param_bounds_supported(p.bounds.pairs@)
    } else {
        p.bounds.pairs@.len() == 0
    }
    &&& match p.default {
        Some(t) => p.eq_token && type_supported(t),
        None => true,
    }
}

/// A type parameter: its name, `: ` and the bounds joined by ` + `, ` = ` and
/// the default.
pub open spec fn emit_type_param(st: Sink, p: TypeParam) -> Sink
    decreases p, 0int,
{
    let st = st.write(p.ident@);
    let st = if p.colon_token {
        emit_type_param_bounds(st.write(": "@), p.bounds.pairs@, Space::SpaceBoth)
    } else {
        st
    };
    match p.default {
        Some(t) => emit_type(st.write(" = "@), t),
        None => st,
    }
}

/// Type parameters have a rule.
pub open spec fn generic_param_supported(p: GenericParam) -> bool
    decreases p, 0int,
{
    match p {
        GenericParam::Type(t) => type_param_supported(t),
        GenericParam::Other => false,
    }
}

/// A generic parameter.
pub open spec fn emit_generic_param(st: Sink, p: GenericParam) -> Sink
    decreases p, 0int,
{
    match p {
        GenericParam::Type(t) => emit_type_param(st, t),
        GenericParam::Other => st,
    }
}

/// Every parameter has a rule.
pub open spec fn generic_params_supported<U>(pairs: Seq<Pair<GenericParam, U>>) -> bool
    decreases pairs, 0int,
{
    forall|i: int| 0 <= i < pairs.len() ==> generic_param_supported((#[trigger] pairs[i]).value)
}

/// Generic parameters, each followed by its separator.
pub open spec fn emit_generic_params<U: Punctuation>(
    st: Sink,
    pairs: Seq<Pair<GenericParam, U>>,
    space: Space,
) -> Sink
    decreases pairs, 0int,
{
    if pairs.len() == 0 {
        st
    } else {
        emit_separator(
            emit_generic_param(
                emit_generic_params(st, pairs.drop_last(), space),
                pairs.last().value,
            ),
            pairs.last().punct,
            space,
        )
    }
}

/// The parameters of a declaration; its `where` clause is rendered apart.
pub open spec fn generics_supported(g: Generics) -> bool
    decreases g, 0int,
{
    generic_params_supported(g.params.pairs@)
}

/// The parameters between `<` and `>` with a space after each comma; nothing
/// where there are none.
pub open spec fn emit_generics(st: Sink, g: Generics) -> Sink
    decreases g, 0int,
{
    if g.params.pairs@.len() == 0 {
        st
    } else {
        emit_generic_params(st.write("<"@), g.params.pairs@, Space::SpaceRight).write(">"@)
    }
}

/// A predicate on a type has a rule where it binds no lifetimes.
pub open spec fn predicate_type_supported(p: PredicateType) -> bool
    decreases p, 0int,
{
    !p.lifetimes && type_supported(p.bounded_ty) && type_param_bounds_supported(p.bounds.pairs@)
}

/// A predicate on a type: the type, `: `, the bounds joined by ` + `.
pub open spec fn emit_predicate_type(st: Sink, p: PredicateType) -> Sink
    decreases p, 0int,
{
    emit_type_param_bounds(
        emit_type(st, p.bounded_ty).write(": "@),
        p.bounds.pairs@,
        Space::SpaceBoth,
    )
}

/// Predicates on types have a rule.
pub open spec fn where_predicate_supported(p: WherePredicate) -> bool
    decreases p, 0int,
{
    match p {
        WherePredicate::Type(t) => predicate_type_supported(t),
        WherePredicate::Other => false,
    }
}

/// A predicate of a `where` clause.
pub open spec fn emit_where_predicate(st: Sink, p: WherePredicate) -> Sink
    decreases p, 0int,
{
    match p {
        WherePredicate::Type(t) => emit_predicate_type(st, t),
        WherePredicate::Other => st,
    }
}

/// Every predicate has a rule.
pub open spec fn where_predicates_supported<U>(pairs: Seq<Pair<WherePredicate, U>>) -> bool
    decreases pairs, 0int,
{
    forall|i: int|
        0 <= i < pairs.len() ==> where_predicate_supported((#[trigger] pairs[i]).value)
}

/// Predicates, each followed by its separator.
pub open spec fn emit_where_predicates<U: Punctuation>(
    st: Sink,
    pairs: Seq<Pair<WherePredicate, U>>,
    space: Space,
) -> Sink
    decreases pairs, 0int,
{
    if pairs.len() == 0 {
        st
    } else {
        emit_separator(
            emit_where_predicate(
                emit_where_predicates(st, pairs.drop_last(), space),
                pairs.last().value,
            ),
            pairs.last().punct,
            space,
        )
    }
}

/// Every predicate of the clause has a rule.
pub open spec fn where_clause_supported(w: WhereClause) -> bool
    decreases w, 0int,
{
    where_predicates_supported(w.predicates.pairs@)
}

/// `where` on a line of its own, then the predicates one level deeper, one
/// to a line.
pub open spec fn emit_where_clause(st: Sink, w: WhereClause) -> Sink
    decreases w, 0int,
{
    emit_where_predicates(
        st.write("where\n"@).indented(),
        w.predicates.pairs@,
        Space::NewLine,
    ).dedented()
}

/// The `where` clause has a rule, if there is one.
pub open spec fn where_clause_if_present_supported(g: Generics) -> bool
    decreases g, 0int,
{
    match g.where_clause {
        Some(w) => where_clause_supported(w),
        None => true,
    }
}

/// The `where` clause on a new line, if there is one.
pub open spec fn emit_where_clause_if_present(st: Sink, g: Generics) -> Sink
    decreases g, 0int,
{
    match g.where_clause {
        Some(w) => emit_where_clause(st.write("\n"@), w),
        None => st,
    }
}

// ===== Patterns =====

/// Wildcards, plain bindings, tuples and tuple structs have a rule.
pub open spec fn pat_supported(p: Pat) -> bool
    decreases p, 0int,
{
    match p {
        Pat::Wild => true,
        Pat::Ident(i) => !i.subpat,
        Pat::Tuple(t) => pat_tuple_supported(t),
        Pat::TupleStruct(s) => path_supported(s.path) && pat_tuple_supported(s.pat),
        Pat::Other => false,
    }
}

/// A pattern.
pub open spec fn emit_pat(st: Sink, p: Pat) -> Sink
    decreases p, 0int,
{
    match p {
        Pat::Wild => st.write("_"@),
        Pat::Ident(i) => emit_pat_ident(st, i),
        Pat::Tuple(t) => emit_pat_tuple(st, t),
        Pat::TupleStruct(s) => emit_pat_tuple_struct(st, s),
        Pat::Other => st,
    }
}

/// Every pattern has a rule.
pub open spec fn pats_supported<U>(pairs: Seq<Pair<Pat, U>>) -> bool
    decreases pairs, 0int,
{
    forall|i: int| 0 <= i < pairs.len() ==> pat_supported((#[trigger] pairs[i]).value)
}

/// Patterns, each followed by its separator.
pub open spec fn emit_pats<U: Punctuation>(st: Sink, pairs: Seq<Pair<Pat, U>>, space: Space) -> Sink
    decreases pairs, 0int,
{
    if pairs.len() == 0 {
        st
    } else {
        emit_separator(
            emit_pat(emit_pats(st, pairs.drop_last(), space), pairs.last().value),
            pairs.last().punct,
            space,
        )
    }
}

/// A binding: `ref ` and `mut ` where they are written, then the name.
pub open spec fn emit_pat_ident(st: Sink, i: PatIdent) -> Sink {
    let st = if i.by_ref {
        st.write("ref "@)
    } else {
        st
    };
    let st = if i.mutability {
        st.write("mut "@)
    } else {
        st
    };
    st.write(i.ident@)
}

/// A tuple pattern has a rule where it holds no `..`.
pub open spec fn pat_tuple_supported(t: PatTuple) -> bool
    decreases t, 0int,
{
    pats_supported(t.front.pairs@) && !t.dot2_token && !t.comma_token && t.back.pairs@.len() == 0
}

/// A tuple pattern: the elements in parentheses, with a space after each
/// comma.
pub open spec fn emit_pat_tuple(st: Sink, t: PatTuple) -> Sink
    decreases t, 0int,
{
    emit_pats(st.write("("@), t.front.pairs@, Space::SpaceRight).write(")"@)
}

/// A tuple struct pattern: the path, then the elements as a tuple pattern.
pub open spec fn emit_pat_tuple_struct(st: Sink, s: PatTupleStruct) -> Sink
    decreases s, 0int,
{
    emit_pat_tuple(emit_path(st, s.path), s.pat)
}

// ===== Expressions =====

/// The symbol of a binary operator.
pub open spec fn bin_op_text(op: BinOp) -> Seq<char> {
    match op {
        BinOp::Add => "+"@,
        BinOp::Sub => "-"@,
        BinOp::Mul => "*"@,
        BinOp::Div => "/"@,
        BinOp::Rem => "%"@,
        BinOp::And => "&&"@,
        BinOp::Or => "||"@,
        BinOp::BitXor => "^"@,
        BinOp::BitAnd => "&"@,
        BinOp::BitOr => "|"@,
        BinOp::Shl => "<<"@,
        BinOp::Shr => ">>"@,
        BinOp::Eq => "=="@,
        BinOp::Lt => "<"@,
        BinOp::Le => "<="@,
        BinOp::Ne => "!="@,
        BinOp::Ge => ">="@,
        BinOp::Gt => ">"@,
        BinOp::AddEq => "+="@,
        BinOp::SubEq => "-="@,
        BinOp::MulEq => "*="@,
        BinOp::DivEq => "/="@,
        BinOp::RemEq => "%="@,
        BinOp::BitXorEq => "^="@,
        BinOp::BitAndEq => "&="@,
        BinOp::BitOrEq => "|="@,
        BinOp::ShlEq => "<<="@,
        BinOp::ShrEq => ">>="@,
    }
}

/// The symbol of a unary operator.
pub open spec fn un_op_text(op: UnOp) -> Seq<char> {
    match op {
        UnOp::Deref => "*"@,
        UnOp::Not => "!"@,
        UnOp::Neg => "-"@,
    }
}

/// A member given by its name has a rule.
pub open spec fn member_supported(m: Member) -> bool {
    m is Named
}

/// A member: its name.
pub open spec fn emit_member(st: Sink, m: Member) -> Sink {
    match m {
        Member::Named(ident) => st.write(ident@),
        Member::Unnamed => st,
    }
}

/// Whether the first thing that the expression writes is the opening brace
/// of a scope.  The brace brings the space before it; any other expression
/// that follows a token on its line is parted from it by a space.
pub open spec fn expr_opens_scope(e: Expr) -> bool
    decreases e, 0int,
{
    match e {
        Expr::Block(b) => b.attrs@.len() == 0,
        Expr::Binary(b) => b.attrs@.len() == 0 && expr_opens_scope(*b.left),
        Expr::Call(c) => c.attrs@.len() == 0 && expr_opens_scope(*c.func),
        Expr::Field(f) => f.attrs@.len() == 0 && expr_opens_scope(*f.base),
        Expr::MethodCall(m) => m.attrs@.len() == 0 && expr_opens_scope(*m.receiver),
        _ => false,
    }
}

/// Whether the expression and everything below it has a rule.
pub open spec fn expr_supported(e: Expr) -> bool
    decreases e, 0int,
{
    match e {
        Expr::Binary(b) => expr_binary_supported(b),
        Expr::Block(b) => expr_block_supported(b),
        Expr::Call(c) => expr_call_supported(c),
        Expr::Field(f) => expr_field_supported(f),
        Expr::ForLoop(f) => expr_for_loop_supported(f),
        Expr::If(i) => expr_if_supported(i),
        Expr::Lit(l) => expr_lit_supported(l),
        Expr::Macro(m) => expr_macro_supported(m),
        Expr::Match(m) => expr_match_supported(m),
        Expr::MethodCall(m) => expr_method_call_supported(m),
        Expr::Path(p) => expr_path_supported(p),
        Expr::Reference(r) => expr_reference_supported(r),
        Expr::Struct(s) => expr_struct_supported(s),
        Expr::Unary(u) => expr_unary_supported(u),
        Expr::Other => false,
    }
}

/// An expression.
pub open spec fn emit_expr(st: Sink, e: Expr) -> Sink
    decreases e, 0int,
{
    match e {
        Expr::Binary(b) => emit_expr_binary(st, b),
        Expr::Block(b) => emit_expr_block(st, b),
        Expr::Call(c) => emit_expr_call(st, c),
        Expr::Field(f) => emit_expr_field(st, f),
        Expr::ForLoop(f) => emit_expr_for_loop(st, f),
        Expr::If(i) => emit_expr_if(st, i),
        Expr::Lit(l) => emit_expr_lit(st, l),
        Expr::Macro(m) => emit_expr_macro(st, m),
        Expr::Match(m) => emit_expr_match(st, m),
        Expr::MethodCall(m) => emit_expr_method_call(st, m),
        Expr::Path(p) => emit_expr_path(st, p),
        Expr::Reference(r) => emit_expr_reference(st, r),
        Expr::Struct(s) => emit_expr_struct(st, s),
        Expr::Unary(u) => emit_expr_unary(st, u),
        Expr::Other => st,
    }
}

/// An expression behind a token on the same line.
pub open spec fn emit_spaced_expr(st: Sink, e: Expr) -> Sink
    decreases e, 1int,
{
    if expr_opens_scope(e) {
        emit_expr(st, e)
    } else {
        emit_expr(st.write(" "@), e)
    }
}

/// Every expression has a rule.
pub open spec fn exprs_supported<U>(pairs: Seq<Pair<Expr, U>>) -> bool
    decreases pairs, 0int,
{
    forall|i: int| 0 <= i < pairs.len() ==> expr_supported((#[trigger] pairs[i]).value)
}

/// Expressions, each followed by its separator.
pub open spec fn emit_exprs<U: Punctuation>(
    st: Sink,
    pairs: Seq<Pair<Expr, U>>,
    space: Space,
) -> Sink
    decreases pairs, 0int,
{
    if pairs.len() == 0 {
        st
    } else {
        emit_separator(
            emit_expr(emit_exprs(st, pairs.drop_last(), space), pairs.last().value),
            pairs.last().punct,
            space,
        )
    }
}

/// The attributes and both operands have a rule.
pub open spec fn expr_binary_supported(b: ExprBinary) -> bool
    decreases b, 0int,
{
    attrs_supported(b.attrs@, None) && expr_supported(*b.left) && expr_supported(*b.right)
}

/// A binary expression: the left operand, a space, the operator, the right
/// operand behind it.
pub open spec fn emit_expr_binary(st: Sink, b: ExprBinary) -> Sink
    decreases b, 0int,
{
    emit_spaced_expr(
        emit_expr(emit_attrs(st, b.attrs@, None), *b.left).write(" "@).write(bin_op_text(b.op)),
        *b.right,
    )
}

/// A block expression has a rule where it carries no label.
pub open spec fn expr_block_supported(b: ExprBlock) -> bool
    decreases b, 0int,
{
    attrs_supported(b.attrs@, None) && !b.label && block_supported(b.block)
}

/// A block expression: its attributes and the block.
pub open spec fn emit_expr_block(st: Sink, b: ExprBlock) -> Sink
    decreases b, 0int,
{
    emit_block(emit_attrs(st, b.attrs@, None), b.block)
}

/// The attributes, the function and the arguments have a rule.
pub open spec fn expr_call_supported(c: ExprCall) -> bool
    decreases c, 0int,
{
    attrs_supported(c.attrs@, None) && expr_supported(*c.func) && exprs_supported(c.args.pairs@)
}

/// A call: the function, and in parentheses the arguments with a space after
/// each comma.
pub open spec fn emit_expr_call(st: Sink, c: ExprCall) -> Sink
    decreases c, 0int,
{
    emit_exprs(
        emit_expr(emit_attrs(st, c.attrs@, None), *c.func).write("("@),
        c.args.pairs@,
        Space::SpaceRight,
    ).write(")"@)
}

/// A field access has a rule where the field is given by its name.
pub open spec fn expr_field_supported(f: ExprField) -> bool
    decreases f, 0int,
{
    attrs_supported(f.attrs@, None) && expr_supported(*f.base) && member_supported(f.member)
}

/// A field access: the value, `.`, the name of the field.
pub open spec fn emit_expr_field(st: Sink, f: ExprField) -> Sink
    decreases f, 0int,
{
    emit_member(emit_expr(emit_attrs(st, f.attrs@, None), *f.base).write("."@), f.member)
}

/// A `for` loop has a rule where it carries no label.
pub open spec fn expr_for_loop_supported(f: ExprForLoop) -> bool
    decreases f, 0int,
{
    &&& attrs_supported(f.attrs@, None)
    &&& !f.label
    &&& pat_supported(*f.pat)
    &&& expr_supported(*f.expr)
    &&& block_supported(f.body)
}

/// A `for` loop: `for `, the pattern, ` in`, the iterated value behind it,
/// the body as a scope.
pub open spec fn emit_expr_for_loop(st: Sink, f: ExprForLoop) -> Sink
    decreases f, 0int,
{
    emit_block(
        emit_spaced_expr(
            emit_pat(emit_attrs(st, f.attrs@, None).write("for "@), *f.pat).write(" in"@),
            *f.expr,
        ),
        f.body,
    )
}

/// The condition and the branches have a rule.
pub open spec fn expr_if_supported(i: ExprIf) -> bool
    decreases i, 0int,
{
    &&& attrs_supported(i.attrs@, None)
    &&& expr_supported(*i.cond)
    &&& block_supported(i.then_branch)
    &&& match i.else_branch {
        Some(e) => expr_supported(*e),
        None => true,
    }
}

/// A conditional: `if`, the condition behind it, the first branch as a scope,
/// and behind ` else` the other branch.
pub open spec fn emit_expr_if(st: Sink, i: ExprIf) -> Sink
    decreases i, 0int,
{
    let st = emit_block(
        emit_spaced_expr(emit_attrs(st, i.attrs@, None).write("if"@), *i.cond),
        i.then_branch,
    );
    match i.else_branch {
        Some(e) => emit_spaced_expr(st.write(" else"@), *e),
        None => st,
    }
}

/// The attributes and the literal have a rule.
pub open spec fn expr_lit_supported(l: ExprLit) -> bool {
    attrs_supported(l.attrs@, None) && lit_supported(l.lit)
}

/// A literal expression: its attributes and the literal.
pub open spec fn emit_expr_lit(st: Sink, l: ExprLit) -> Sink {
    emit_lit(emit_attrs(st, l.attrs@, None), l.lit)
}

/// The path of the macro has a rule.
pub open spec fn macro_supported(m: Macro) -> bool
    decreases m, 0int,
{
    path_supported(m.path)
}

/// A macro invocation: the path, `!`, and the tokens as they are, between
/// parentheses or brackets on the line, or as a scope between braces, as
/// they were given.
pub open spec fn emit_macro(st: Sink, m: Macro) -> Sink
    decreases m, 0int,
{
    let st = emit_path(st, m.path).write("!"@);
    match m.delimiter {
        MacroDelimiter::Paren => st.write("("@).write(m.tts@).write(")"@),
        MacroDelimiter::Bracket => st.write("["@).write(m.tts@).write("]"@),
        MacroDelimiter::Brace => st.opened().write(m.tts@).closed(false),
    }
}

/// The attributes and the invocation have a rule.
pub open spec fn expr_macro_supported(m: ExprMacro) -> bool
    decreases m, 0int,
{
    attrs_supported(m.attrs@, None) && macro_supported(m.mac)
}

/// A macro expression: its attributes and the invocation.
pub open spec fn emit_expr_macro(st: Sink, m: ExprMacro) -> Sink
    decreases m, 0int,
{
    emit_macro(emit_attrs(st, m.attrs@, None), m.mac)
}

/// The attributes, the patterns and the body have a rule.
pub open spec fn arm_supported(a: Arm) -> bool
    decreases a, 0int,
{
    attrs_supported(a.attrs@, None) && pats_supported(a.pats.pairs@) && expr_supported(*a.body)
}

/// An arm of a `match`, on a line of its own.
pub open spec fn emit_arm(st: Sink, a: Arm) -> Sink
    decreases a, 0int,
{
    let st = emit_attrs(st, a.attrs@, None);
    let st = if a.leading_vert {
        st.write("| "@)
    } else {
        st
    };
    let st = emit_spaced_expr(
        emit_pats(st, a.pats.pairs@, Space::SpaceBoth).write(" =>"@),
        *a.body,
    );
    if a.comma {
        st.write(","@).write("\n"@)
    } else {
        st.write("\n"@)
    }
}

/// Every arm has a rule.
pub open spec fn arms_supported(arms: Seq<Arm>) -> bool
    decreases arms, 0int,
{
    forall|i: int| 0 <= i < arms.len() ==> arm_supported(#[trigger] arms[i])
}

/// The arms of a `match`, in turn.
pub open spec fn emit_arms(st: Sink, arms: Seq<Arm>) -> Sink
    decreases arms, 0int,
{
    if arms.len() == 0 {
        st
    } else {
        emit_arm(emit_arms(st, arms.drop_last()), arms.last())
    }
}

/// The matched value and the arms have a rule.
pub open spec fn expr_match_supported(m: ExprMatch) -> bool
    decreases m, 0int,
{
    attrs_supported(m.attrs@, None) && expr_supported(*m.expr) && arms_supported(m.arms@)
}

/// A `match`: `match`, the matched value behind it, the arms as a scope.
pub open spec fn emit_expr_match(st: Sink, m: ExprMatch) -> Sink
    decreases m, 0int,
{
    emit_arms(
        emit_spaced_expr(emit_attrs(st, m.attrs@, None).write("match"@), *m.expr).opened(),
        m.arms@,
    ).closed(false)
}

/// A method call has a rule where no generic arguments are given to the
/// method.
pub open spec fn expr_method_call_supported(m: ExprMethodCall) -> bool
    decreases m, 0int,
{
    &&& attrs_supported(m.attrs@, None)
    &&& expr_supported(*m.receiver)
    &&& !m.turbofish
    &&& exprs_supported(m.args.pairs@)
}

/// A method call: the receiver, `.`, the method, and in parentheses the
/// arguments with a space after each comma.
pub open spec fn emit_expr_method_call(st: Sink, m: ExprMethodCall) -> Sink
    decreases m, 0int,
{
    emit_exprs(
        emit_expr(emit_attrs(st, m.attrs@, None), *m.receiver).write("."@).write(m.method@).write(
            "("@,
        ),
        m.args.pairs@,
        Space::SpaceRight,
    ).write(")"@)
}

/// A path expression has a rule where it is not qualified by a self type.
pub open spec fn expr_path_supported(p: ExprPath) -> bool
    decreases p, 0int,
{
    attrs_supported(p.attrs@, None) && !p.qself && path_supported(p.path)
}

/// A path expression: its attributes and the path.
pub open spec fn emit_expr_path(st: Sink, p: ExprPath) -> Sink
    decreases p, 0int,
{
    emit_path(emit_attrs(st, p.attrs@, None), p.path)
}

/// The attributes and the referred expression have a rule.
pub open spec fn expr_reference_supported(r: ExprReference) -> bool
    decreases r, 0int,
{
    attrs_supported(r.attrs@, None) && expr_supported(*r.expr)
}

/// A reference: `&`, then the expression, behind `mut` for a mutable one.
pub open spec fn emit_expr_reference(st: Sink, r: ExprReference) -> Sink
    decreases r, 0int,
{
    let st = emit_attrs(st, r.attrs@, None).write("&"@);
    if r.mutability {
        emit_spaced_expr(st.write("mut"@), *r.expr)
    } else {
        emit_expr(st, *r.expr)
    }
}

/// A field value has a rule where the field is given by its name.
pub open spec fn field_value_supported(f: FieldValue) -> bool
    decreases f, 0int,
{
    attrs_supported(f.attrs@, None) && member_supported(f.member) && expr_supported(f.expr)
}

/// A field with its value: the name, `:`, the value behind it.
pub open spec fn emit_field_value(st: Sink, f: FieldValue) -> Sink
    decreases f, 0int,
{
    emit_spaced_expr(emit_member(emit_attrs(st, f.attrs@, None), f.member).write(":"@), f.expr)
}

/// Every field value has a rule.
pub open spec fn field_values_supported<U>(pairs: Seq<Pair<FieldValue, U>>) -> bool
    decreases pairs, 0int,
{
    forall|i: int| 0 <= i < pairs.len() ==> field_value_supported((#[trigger] pairs[i]).value)
}

/// Field values, each followed by its separator.
pub open spec fn emit_field_values<U: Punctuation>(
    st: Sink,
    pairs: Seq<Pair<FieldValue, U>>,
    space: Space,
) -> Sink
    decreases pairs, 0int,
{
    if pairs.len() == 0 {
        st
    } else {
        emit_separator(
            emit_field_value(
                emit_field_values(st, pairs.drop_last(), space),
                pairs.last().value,
            ),
            pairs.last().punct,
            space,
        )
    }
}

/// What stands between the braces of a struct expression has a rule where
/// `..` is followed by a value.
pub open spec fn struct_body_supported(s: ExprStruct) -> bool
    decreases s, 0int,
{
    &&& field_values_supported(s.fields.pairs@)
    &&& s.dot2_token ==> match s.rest {
        Some(e) => expr_supported(*e),
        None => false,
    }
}

/// The fields of a struct expression, one to a line, and behind `..` the
/// value that the other fields are taken from.
pub open spec fn emit_struct_body(st: Sink, s: ExprStruct) -> Sink
    decreases s, 0int,
{
    let st = emit_field_values(st, s.fields.pairs@, Space::NewLine);
    match s.rest {
        Some(e) => if s.dot2_token {
            emit_spaced_expr(st.write(".."@), *e)
        } else {
            st
        },
        None => st,
    }
}

/// The attributes, the path and what stands between the braces have a rule.
pub open spec fn expr_struct_supported(s: ExprStruct) -> bool
    decreases s, 1int,
{
    attrs_supported(s.attrs@, None) && path_supported(s.path) && struct_body_supported(s)
}

/// A struct expression: the path, and as a scope the fields.
pub open spec fn emit_expr_struct(st: Sink, s: ExprStruct) -> Sink
    decreases s, 1int,
{
    emit_struct_body(emit_path(emit_attrs(st, s.attrs@, None), s.path).opened(), s).closed(false)
}

/// The attributes and the operand have a rule.
pub open spec fn expr_unary_supported(u: ExprUnary) -> bool
    decreases u, 0int,
{
    attrs_supported(u.attrs@, None) && expr_supported(*u.expr)
}

/// A unary expression: the operator directly before the operand.
pub open spec fn emit_expr_unary(st: Sink, u: ExprUnary) -> Sink
    decreases u, 0int,
{
    emit_expr(emit_attrs(st, u.attrs@, None).write(un_op_text(u.op)), *u.expr)
}

// ===== Statements =====

/// The attributes, the patterns, the type and the value have a rule.
pub open spec fn local_supported(l: Local) -> bool
    decreases l, 0int,
{
    &&& attrs_supported(l.attrs@, None)
    &&& pats_supported(l.pats.pairs@)
    &&& match l.ty {
        Some(t) => type_supported(t),
        None => true,
    }
    &&& match l.init {
        Some(e) => expr_supported(e),
        None => true,
    }
}

/// A `let` binding, without its semicolon: `let `, the patterns joined by
/// ` | `, `: ` and the type, ` =` and the value behind it.
pub open spec fn emit_local(st: Sink, l: Local) -> Sink
    decreases l, 0int,
{
    let st = emit_pats(
        emit_attrs(st, l.attrs@, None).write("let "@),
        l.pats.pairs@,
        Space::SpaceBoth,
    );
    let st = match l.ty {
        Some(t) => emit_type(st.write(": "@), t),
        None => st,
    };
    match l.init {
        Some(e) => emit_spaced_expr(st.write(" ="@), e),
        None => st,
    }
}

/// Whether the statement has a rule.
pub open spec fn stmt_supported(s: Stmt) -> bool
    decreases s, 0int,
{
    match s {
        Stmt::Local(l) => local_supported(l),
        Stmt::Item(i) => item_supported(i),
        Stmt::Expr(e) => expr_supported(e),
        Stmt::Semi(e) => expr_supported(e),
    }
}

/// A statement.  The sink remembers whether the statement rendered last was
/// a declaration: a statement that is none is then parted from it by a blank
/// line.
pub open spec fn emit_stmt(st: Sink, s: Stmt) -> Sink
    decreases s, 0int,
{
    let st = if s is Item {
        st.flagged(true)
    } else if st.after_item {
        st.write("\n"@).flagged(false)
    } else {
        st.flagged(false)
    };
    match s {
        Stmt::Local(l) => emit_local(st, l).write(";\n"@),
        Stmt::Item(i) => emit_item(st, i),
        Stmt::Expr(e) => emit_expr(st, e).write("\n"@),
        Stmt::Semi(e) => emit_expr(st, e).write(";\n"@),
    }
}

/// Every statement has a rule.
pub open spec fn stmts_supported(stmts: Seq<Stmt>) -> bool
    decreases stmts, 0int,
{
    forall|i: int| 0 <= i < stmts.len() ==> stmt_supported(#[trigger] stmts[i])
}

/// Statements, in turn.
pub open spec fn emit_stmts(st: Sink, stmts: Seq<Stmt>) -> Sink
    decreases stmts, 0int,
{
    if stmts.len() == 0 {
        st
    } else {
        emit_stmt(emit_stmts(st, stmts.drop_last()), stmts.last())
    }
}

/// Every statement of the block has a rule.
pub open spec fn block_supported(b: Block) -> bool
    decreases b, 0int,
{
    stmts_supported(b.stmts@)
}

/// A block: its statements as a scope, with no line break after the closing
/// brace.  The first statement follows no declaration.
pub open spec fn emit_block(st: Sink, b: Block) -> Sink
    decreases b, 0int,
{
    emit_stmts(st.opened().flagged(false), b.stmts@).closed(false)
}

// ===== Declarations =====

/// Imports, modules, structs and `impl` blocks have a rule, where their
/// parts have one.
pub open spec fn item_supported(i: Item) -> bool
    decreases i, 0int,
{
    match i {
        Item::Use(u) => item_use_supported(u),
        Item::Mod(m) => item_mod_supported(m),
        Item::Struct(s) => item_struct_supported(s),
        Item::Impl(i) => item_impl_supported(i),
        Item::Other => false,
    }
}

/// A declaration.
pub open spec fn emit_item(st: Sink, i: Item) -> Sink
    decreases i, 0int,
{
    match i {
        Item::Use(u) => emit_item_use(st, u),
        Item::Mod(m) => emit_item_mod(st, m),
        Item::Struct(s) => emit_item_struct(st, s),
        Item::Impl(i) => emit_item_impl(st, i),
        Item::Other => st,
    }
}

/// Every declaration has a rule.
pub open spec fn items_supported(items: Seq<Item>) -> bool
    decreases items, 0int,
{
    forall|i: int| 0 <= i < items.len() ==> item_supported(#[trigger] items[i])
}

/// Declarations, in turn.
pub open spec fn emit_items(st: Sink, items: Seq<Item>) -> Sink
    decreases items, 0int,
{
    if items.len() == 0 {
        st
    } else {
        emit_item(emit_items(st, items.drop_last()), items.last())
    }
}

/// Names, globs and paths that lead to them have a rule.
pub open spec fn use_tree_supported(t: UseTree) -> bool
    decreases t, 0int,
{
    match t {
        UseTree::Path(p) => use_tree_supported(*p.tree),
        UseTree::Name(_) => true,
        UseTree::Glob => true,
        UseTree::Other => false,
    }
}

/// What an import names.
pub open spec fn emit_use_tree(st: Sink, t: UseTree) -> Sink
    decreases t, 0int,
{
    match t {
        UseTree::Path(p) => emit_use_path(st, p),
        UseTree::Name(ident) => st.write(ident@),
        UseTree::Glob => st.write("*"@),
        UseTree::Other => st,
    }
}

/// A path prefix of an import: the name, `::`, the rest.
pub open spec fn emit_use_path(st: Sink, p: UsePath) -> Sink
    decreases p, 0int,
{
    emit_use_tree(st.write(p.ident@).write("::"@), *p.tree)
}

/// The attributes, the visibility and the tree have a rule.
pub open spec fn item_use_supported(u: ItemUse) -> bool {
    attrs_supported(u.attrs@, None) && visibility_supported(u.vis) && use_tree_supported(u.tree)
}

/// An import: `use `, `::` where it starts at the root, what it names, `;`
/// and a line break.
pub open spec fn emit_item_use(st: Sink, u: ItemUse) -> Sink {
    let st = emit_visibility(emit_attrs(st, u.attrs@, None), u.vis).write("use "@);
    let st = if u.leading_colon {
        st.write("::"@)
    } else {
        st
    };
    emit_use_tree(st, u.tree).write(";\n"@)
}

/// The outer attributes, the visibility and the declarations have a rule.
pub open spec fn item_mod_supported(m: ItemMod) -> bool
    decreases m, 0int,
{
    &&& attrs_supported(m.attrs@, Some(AttrStyle::Outer))
    &&& visibility_supported(m.vis)
    &&& match m.content {
        Some(items) => items_supported(items@),
        None => true,
    }
}

/// A module: with a body, its declarations as a scope; without one, a
/// semicolon.
pub open spec fn emit_item_mod(st: Sink, m: ItemMod) -> Sink
    decreases m, 0int,
{
    let st = emit_visibility(emit_attrs(st, m.attrs@, Some(AttrStyle::Outer)), m.vis).write(
        "mod "@,
    ).write(m.ident@);
    match m.content {
        Some(items) => emit_items(st.opened(), items@).closed(true),
        None => st.write(";"@),
    }
}

/// A field of a struct has a rule where it has a name and a colon.
pub open spec fn field_supported(f: Field) -> bool
    decreases f, 0int,
{
    &&& attrs_supported(f.attrs@, None)
    &&& visibility_supported(f.vis)
    &&& f.ident is Some
    &&& f.colon_token
    &&& type_supported(f.ty)
}

/// A field of a struct: its attributes, its visibility, its name, `: `, its
/// type.
pub open spec fn emit_field(st: Sink, f: Field) -> Sink
    decreases f, 0int,
{
    emit_type(
        emit_visibility(emit_attrs(st, f.attrs@, None), f.vis).write(f.ident->0@).write(": "@),
        f.ty,
    )
}

/// Every field has a rule.
pub open spec fn fields_supported<U>(pairs: Seq<Pair<Field, U>>) -> bool
    decreases pairs, 0int,
{
    forall|i: int| 0 <= i < pairs.len() ==> field_supported((#[trigger] pairs[i]).value)
}

/// Fields, each followed by its separator.
pub open spec fn emit_fields<U: Punctuation>(
    st: Sink,
    pairs: Seq<Pair<Field, U>>,
    space: Space,
) -> Sink
    decreases pairs, 0int,
{
    if pairs.len() == 0 {
        st
    } else {
        emit_separator(
            emit_field(emit_fields(st, pairs.drop_last(), space), pairs.last().value),
            pairs.last().punct,
            space,
        )
    }
}

/// Every field has a rule.
pub open spec fn fields_named_supported(f: FieldsNamed) -> bool
    decreases f, 0int,
{
    fields_supported(f.named.pairs@)
}

/// The named fields of a struct: a scope with one field to a line.
pub open spec fn emit_fields_named(st: Sink, f: FieldsNamed) -> Sink
    decreases f, 0int,
{
    emit_fields(st.opened(), f.named.pairs@, Space::NewLine).closed(true)
}

/// A struct has a rule where it is a unit struct or has named fields.
pub open spec fn item_struct_supported(s: ItemStruct) -> bool
    decreases s, 0int,
{
    &&& attrs_supported(s.attrs@, None)
    &&& visibility_supported(s.vis)
    &&& generics_supported(s.generics)
    &&& match s.fields {
        Fields::Named(f) => where_clause_if_present_supported(s.generics)
            && fields_named_supported(f),
        Fields::Unnamed => false,
        Fields::Unit => true,
    }
}

/// A struct: its attributes, its visibility, `struct `, its name, its
/// parameters; for named fields the `where` clause and the fields as a
/// scope; `;` where one is written.
pub open spec fn emit_item_struct(st: Sink, s: ItemStruct) -> Sink
    decreases s, 0int,
{
    let st = emit_generics(
        emit_visibility(emit_attrs(st, s.attrs@, None), s.vis).write("struct "@).write(s.ident@),
        s.generics,
    );
    let st = match s.fields {
        Fields::Named(f) => emit_fields_named(emit_where_clause_if_present(st, s.generics), f),
        _ => st,
    };
    if s.semi_token {
        st.write(";"@)
    } else {
        st
    }
}

/// The result type has a rule, if one is written.
pub open spec fn return_type_supported(r: ReturnType) -> bool
    decreases r, 0int,
{
    match r {
        ReturnType::Default => true,
        ReturnType::Type(t) => type_supported(*t),
    }
}

/// A result type: ` -> ` and the type; nothing where none is written.
pub open spec fn emit_return_type(st: Sink, r: ReturnType) -> Sink
    decreases r, 0int,
{
    match r {
        ReturnType::Default => st,
        ReturnType::Type(t) => emit_type(st.write(" -> "@), *t),
    }
}

/// A borrowed receiver: what begins a reference, then `self`.
pub open spec fn emit_arg_self_ref(st: Sink, a: ArgSelfRef) -> Sink {
    emit_reference_head(st, a.lifetime, a.mutability).write("self"@)
}

/// A receiver by value: `self`, behind `mut ` where it is mutable.
pub open spec fn emit_arg_self(st: Sink, a: ArgSelf) -> Sink {
    if a.mutability {
        st.write("mut "@).write("self"@)
    } else {
        st.write("self"@)
    }
}

/// The pattern and the type have a rule.
pub open spec fn arg_captured_supported(a: ArgCaptured) -> bool
    decreases a, 0int,
{
    pat_supported(a.pat) && type_supported(a.ty)
}

/// A parameter: the pattern, `: `, the type.
pub open spec fn emit_arg_captured(st: Sink, a: ArgCaptured) -> Sink
    decreases a, 0int,
{
    emit_type(emit_pat(st, a.pat).write(": "@), a.ty)
}

/// Whether the parameter has a rule.
pub open spec fn fn_arg_supported(a: FnArg) -> bool
    decreases a, 0int,
{
    match a {
        FnArg::SelfRef(_) => true,
        FnArg::SelfValue(_) => true,
        FnArg::Captured(c) => arg_captured_supported(c),
        FnArg::Inferred(p) => pat_supported(p),
        FnArg::Ignored(t) => type_supported(t),
    }
}

/// A parameter of a function.
pub open spec fn emit_fn_arg(st: Sink, a: FnArg) -> Sink
    decreases a, 0int,
{
    match a {
        FnArg::SelfRef(r) => emit_arg_self_ref(st, r),
        FnArg::SelfValue(v) => emit_arg_self(st, v),
        FnArg::Captured(c) => emit_arg_captured(st, c),
        FnArg::Inferred(p) => emit_pat(st, p),
        FnArg::Ignored(t) => emit_type(st, t),
    }
}

/// Every parameter has a rule.
pub open spec fn fn_args_supported<U>(pairs: Seq<Pair<FnArg, U>>) -> bool
    decreases pairs, 0int,
{
    forall|i: int| 0 <= i < pairs.len() ==> fn_arg_supported((#[trigger] pairs[i]).value)
}

/// Parameters, each followed by its separator.
pub open spec fn emit_fn_args<U: Punctuation>(
    st: Sink,
    pairs: Seq<Pair<FnArg, U>>,
    space: Space,
) -> Sink
    decreases pairs, 0int,
{
    if pairs.len() == 0 {
        st
    } else {
        emit_separator(
            emit_fn_arg(emit_fn_args(st, pairs.drop_last(), space), pairs.last().value),
            pairs.last().punct,
            space,
        )
    }
}

/// A function has a rule where it is not variadic.
pub open spec fn fn_decl_supported(d: FnDecl) -> bool
    decreases d, 0int,
{
    &&& generics_supported(d.generics)
    &&& fn_args_supported(d.inputs.pairs@)
    &&& !d.variadic
    &&& return_type_supported(d.output)
    &&& where_clause_if_present_supported(d.generics)
}

/// What follows the name of a function: the generic parameters, in
/// parentheses the parameters with a space after each comma, the result
/// type, the `where` clause.
pub open spec fn emit_fn_decl(st: Sink, d: FnDecl) -> Sink
    decreases d, 0int,
{
    emit_where_clause_if_present(
        emit_return_type(
            emit_fn_args(
                emit_generics(st, d.generics).write("("@),
                d.inputs.pairs@,
                Space::SpaceRight,
            ).write(")"@),
            d.output,
        ),
        d.generics,
    )
}

/// A signature has a rule where it is neither `const` nor names a calling
/// convention.
pub open spec fn method_sig_supported(s: MethodSig) -> bool
    decreases s, 0int,
{
    !s.constness && !s.abi && fn_decl_supported(s.decl)
}

/// A signature: `unsafe ` and `async ` where they are written, `fn `, the
/// name, and what follows it.
pub open spec fn emit_method_sig(st: Sink, s: MethodSig) -> Sink
    decreases s, 0int,
{
    let st = if s.unsafety {
        st.write("unsafe "@)
    } else {
        st
    };
    let st = if s.asyncness {
        st.write("async "@)
    } else {
        st
    };
    emit_fn_decl(st.write("fn "@).write(s.ident@), s.decl)
}

/// A method has a rule where it is not `default`.
pub open spec fn impl_item_method_supported(m: ImplItemMethod) -> bool
    decreases m, 0int,
{
    &&& !m.defaultness
    &&& attrs_supported(m.attrs@, None)
    &&& visibility_supported(m.vis)
    &&& method_sig_supported(m.sig)
    &&& block_supported(m.block)
}

/// A method: its attributes, its visibility, its signature, its body as a
/// scope.
pub open spec fn emit_impl_item_method(st: Sink, m: ImplItemMethod) -> Sink
    decreases m, 0int,
{
    emit_block(
        emit_method_sig(emit_visibility(emit_attrs(st, m.attrs@, None), m.vis), m.sig),
        m.block,
    )
}

/// Methods have a rule.
pub open spec fn impl_item_supported(i: ImplItem) -> bool
    decreases i, 0int,
{
    match i {
        ImplItem::Method(m) => impl_item_method_supported(m),
        ImplItem::Other => false,
    }
}

/// An item of an `impl` block.
pub open spec fn emit_impl_item(st: Sink, i: ImplItem) -> Sink
    decreases i, 0int,
{
    match i {
        ImplItem::Method(m) => emit_impl_item_method(st, m),
        ImplItem::Other => st,
    }
}

/// Every item has a rule.
pub open spec fn impl_items_supported(items: Seq<ImplItem>) -> bool
    decreases items, 0int,
{
    forall|i: int| 0 <= i < items.len() ==> impl_item_supported(#[trigger] items[i])
}

/// The first `n` items of an `impl` block: each ends its line, and a blank
/// line follows each but the last of the block.
pub open spec fn emit_impl_items(st: Sink, items: Seq<ImplItem>, n: int) -> Sink
    decreases items, n,
{
    if 0 < n <= items.len() {
        let st = emit_impl_item(emit_impl_items(st, items, n - 1), items[n - 1]);
        if n < items.len() {
            st.write("\n"@).write("\n"@)
        } else {
            st.write("\n"@)
        }
    } else {
        st
    }
}

/// An `impl` block has a rule where it is not `default` and implements no
/// trait.
pub open spec fn item_impl_supported(i: ItemImpl) -> bool
    decreases i, 0int,
{
    &&& attrs_supported(i.attrs@, Some(AttrStyle::Outer))
    &&& !i.defaultness
    &&& generics_supported(i.generics)
    &&& !i.trait_
    &&& type_supported(*i.self_ty)
    &&& where_clause_if_present_supported(i.generics)
    &&& attrs_supported(i.attrs@, Some(AttrStyle::Inner))
    &&& impl_items_supported(i.items@)
}

/// An `impl` block: the outer attributes, the header, and as a scope the
/// inner attributes and the items.
pub open spec fn emit_item_impl(st: Sink, i: ItemImpl) -> Sink
    decreases i, 0int,
{
    let st = emit_attrs(st, i.attrs@, Some(AttrStyle::Outer));
    let st = if i.unsafety {
        st.write("unsafe "@)
    } else {
        st
    };
    let st = emit_where_clause_if_present(
        emit_type(emit_generics(st.write("impl"@), i.generics).write(" "@), *i.self_ty),
        i.generics,
    );
    emit_impl_items(
        emit_attrs(st.opened(), i.attrs@, Some(AttrStyle::Inner)),
        i.items@,
        i.items@.len() as int,
    ).closed(true)
}

// ===== Files =====

/// A file has a rule where it does not begin with a `#!` line.
pub open spec fn file_supported(f: File) -> bool {
    !f.shebang && attrs_supported(f.attrs@, None) && items_supported(f.items@)
}

/// A file: its attributes, then its declarations.
pub open spec fn emit_file(st: Sink, f: File) -> Sink {
    emit_items(emit_attrs(st, f.attrs@, None), f.items@)
}

/// The text that formatting a file gives.
pub open spec fn file_text(f: File) -> Seq<char> {
    emit_file(Sink::start(), f).finished()
}

} // verus!
