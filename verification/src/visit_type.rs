//! Rendering of names, paths, types, generics and patterns.

use crate::error::Error;
use crate::punct::{lemma_take_all, lemma_take_next, Punctuated, Punctuation, Space};
use crate::render::{
    emit_angle_bracketed_generic_arguments, emit_generic_argument, emit_generic_arguments,
    emit_generic_param, emit_generic_params, emit_generics, emit_lifetime, emit_pat,
    emit_pat_ident, emit_pat_tuple, emit_pat_tuple_struct, emit_path, emit_path_segment,
    emit_path_segments, emit_pats, emit_predicate_type, emit_reference_head, emit_trait_bound,
    emit_type, emit_type_array, emit_type_param, emit_type_param_bound, emit_type_param_bounds,
    emit_type_path, emit_type_reference, emit_type_slice, emit_type_tuple, emit_types,
    emit_visibility, emit_where_clause, emit_where_clause_if_present, emit_where_predicate,
    emit_where_predicates, expr_supported, generic_argument_supported, generic_arguments_supported,
    generic_param_supported, generic_params_supported, generics_supported, pat_supported,
    pat_tuple_supported, path_segment_supported, path_segments_supported, path_supported,
    pats_supported, predicate_type_supported, trait_bound_supported, type_param_bound_supported,
    type_param_bounds_supported, type_param_supported, type_path_supported, type_supported,
    types_supported, visibility_supported, where_clause_if_present_supported,
    where_clause_supported, where_predicate_supported, where_predicates_supported,
};
use crate::sink::FormatFile;
use crate::syntax::{
    AngleBracketedGenericArguments, GenericArgument, GenericParam, Generics, Lifetime, Pat,
    PatIdent, PatTuple, PatTupleStruct, Path, PathArguments, PathSegment, PredicateType,
    TraitBound, Type, TypeArray, TypeParam, TypeParamBound, TypePath, TypeReference, TypeSlice,
    TypeTuple, Visibility, WhereClause, WherePredicate,
};
use vstd::prelude::*;

verus! {

impl FormatFile {
    /// Writes a name.
    pub fn visit_ident(&mut self, i: &str)
        ensures
            final(self)@.margin == old(self)@.margin,
            final(self)@ == old(self)@.write(i@),
    {
        self.write_str(i);
    }

    /// Renders a lifetime.
    pub fn visit_lifetime(&mut self, i: &Lifetime)
        ensures
            final(self)@.margin == old(self)@.margin,
            final(self)@ == emit_lifetime(old(self)@, *i),
    {
        self.write_str("'");
        self.visit_ident(i.ident.as_str());
    }

    /// Renders a visibility.
    pub fn visit_visibility(&mut self, i: &Visibility) -> (r: Result<(), Error>)
        ensures
            final(self)@.margin == old(self)@.margin,
            r is Ok <==> visibility_supported(*i),
            r is Ok ==> final(self)@ == emit_visibility(old(self)@, *i),
    {
        match i {
            Visibility::Public => {
                self.write_str("pub ");
                Ok(())
            },
            Visibility::Inherited => Ok(()),
            Visibility::Other => Err(Error::unsupported()),
        }
    }

    /// Renders a path.
    pub fn visit_path(&mut self, i: &Path) -> (r: Result<(), Error>)
        ensures
            final(self)@.margin == old(self)@.margin,
            r is Ok <==> path_supported(*i),
            r is Ok ==> final(self)@ == emit_path(old(self)@, *i),
        decreases i, 0int,
    {
        if i.leading_colon {
            self.write_str("::");
        }
        self.visit_punctuated_path_segments(&i.segments, Space::NoSpace)?;
        Ok(())
    }

    /// Renders a segment of a path.
    pub fn visit_path_segment(&mut self, i: &PathSegment) -> (r: Result<(), Error>)
        ensures
            final(self)@.margin == old(self)@.margin,
            r is Ok <==> path_segment_supported(*i),
            r is Ok ==> final(self)@ == emit_path_segment(old(self)@, *i),
        decreases i, 0int,
    {
        self.visit_ident(i.ident.as_str());
        match &i.arguments {
            PathArguments::Empty => Ok(()),
            PathArguments::AngleBracketed(a) => self.visit_angle_bracketed_generic_arguments(a),
            PathArguments::Other => Err(Error::unsupported()),
        }
    }

    /// Renders generic arguments in angle brackets.
    pub fn visit_angle_bracketed_generic_arguments(
        &mut self,
        i: &AngleBracketedGenericArguments,
    ) -> (r: Result<(), Error>)
        ensures
            final(self)@.margin == old(self)@.margin,
            r is Ok <==> generic_arguments_supported(i.args.pairs@),
            r is Ok ==> final(self)@ == emit_angle_bracketed_generic_arguments(old(self)@, *i),
        decreases i, 0int,
    {
        if i.colon2_token {
            self.write_str("::");
        }
        self.write_str("<");
        self.visit_punctuated_generic_arguments(&i.args, Space::SpaceRight)?;
        self.write_str(">");
        Ok(())
    }

    /// Renders a generic argument.
    pub fn visit_generic_argument(&mut self, i: &GenericArgument) -> (r: Result<(), Error>)
        ensures
            final(self)@.margin == old(self)@.margin,
            r is Ok <==> generic_argument_supported(*i),
            r is Ok ==> final(self)@ == emit_generic_argument(old(self)@, *i),
        decreases i, 0int,
    {
        match i {
            GenericArgument::Lifetime(l) => {
                self.visit_lifetime(l);
                Ok(())
            },
            GenericArgument::Type(t) => self.visit_type(t),
            GenericArgument::Const(e) => self.visit_expr(e),
            GenericArgument::Other => Err(Error::unsupported()),
        }
    }

    /// Renders a type.
    pub fn visit_type(&mut self, i: &Type) -> (r: Result<(), Error>)
        ensures
            final(self)@.margin == old(self)@.margin,
            r is Ok <==> type_supported(*i),
            r is Ok ==> final(self)@ == emit_type(old(self)@, *i),
        decreases i, 0int,
    {
        match i {
            Type::Slice(s) => self.visit_type_slice(s),
            Type::Array(a) => self.visit_type_array(a),
            Type::Reference(r) => self.visit_type_reference(r),
            Type::Tuple(u) => self.visit_type_tuple(u),
            Type::Path(p) => self.visit_type_path(p),
            Type::Other => Err(Error::unsupported()),
        }
    }

    /// Renders a slice type.
    pub fn visit_type_slice(&mut self, i: &TypeSlice) -> (r: Result<(), Error>)
        ensures
            final(self)@.margin == old(self)@.margin,
            r is Ok <==> type_supported(*i.elem),
            r is Ok ==> final(self)@ == emit_type_slice(old(self)@, *i),
        decreases i, 0int,
    {
        self.write_str("[");
        self.visit_type(&i.elem)?;
        self.write_str("]");
        Ok(())
    }

    /// Renders an array type.
    pub fn visit_type_array(&mut self, i: &TypeArray) -> (r: Result<(), Error>)
        ensures
            final(self)@.margin == old(self)@.margin,
            r is Ok <==> type_supported(*i.elem) && expr_supported(i.len),
            r is Ok ==> final(self)@ == emit_type_array(old(self)@, *i),
        decreases i, 0int,
    {
        self.write_str("[");
        self.visit_type(&i.elem)?;
        self.write_str(";");
        self.visit_spaced_expr(&i.len)?;
        self.write_str("]");
        Ok(())
    }

    /// Writes what begins a reference: `&`, the lifetime with a space behind
    /// it, and `mut ` for a mutable one.
    pub fn visit_reference_head(&mut self, lifetime: &Option<Lifetime>, mutability: bool)
        ensures
            final(self)@.margin == old(self)@.margin,
            final(self)@ == emit_reference_head(old(self)@, *lifetime, mutability),
    {
        self.write_str("&");
        match lifetime {
            Some(lt) => {
                self.visit_lifetime(lt);
                self.write_str(" ");
            },
            None => {},
        }
        if mutability {
            self.write_str("mut ");
        }
    }

    /// Renders a reference type.
    pub fn visit_type_reference(&mut self, i: &TypeReference) -> (r: Result<(), Error>)
        ensures
            final(self)@.margin == old(self)@.margin,
            r is Ok <==> type_supported(*i.elem),
            r is Ok ==> final(self)@ == emit_type_reference(old(self)@, *i),
        decreases i, 0int,
    {
        self.visit_reference_head(&i.lifetime, i.mutability);
        self.visit_type(&i.elem)
    }

    /// Renders a tuple type.
    pub fn visit_type_tuple(&mut self, i: &TypeTuple) -> (r: Result<(), Error>)
        ensures
            final(self)@.margin == old(self)@.margin,
            r is Ok <==> types_supported(i.elems.pairs@),
            r is Ok ==> final(self)@ == emit_type_tuple(old(self)@, *i),
        decreases i, 0int,
    {
        self.write_str("(");
        self.visit_punctuated_types(&i.elems, Space::SpaceRight)?;
        self.write_str(")");
        Ok(())
    }

    /// Renders a path type.
    pub fn visit_type_path(&mut self, i: &TypePath) -> (r: Result<(), Error>)
        ensures
            final(self)@.margin == old(self)@.margin,
            r is Ok <==> type_path_supported(*i),
            r is Ok ==> final(self)@ == emit_type_path(old(self)@, *i),
        decreases i, 0int,
    {
        if i.qself {
            return Err(Error::unsupported());
        }
        self.visit_path(&i.path)
    }

    /// Renders a trait bound.
    pub fn visit_trait_bound(&mut self, i: &TraitBound) -> (r: Result<(), Error>)
        ensures
            final(self)@.margin == old(self)@.margin,
            r is Ok <==> trait_bound_supported(*i),
            r is Ok ==> final(self)@ == emit_trait_bound(old(self)@, *i),
        decreases i, 0int,
    {
        if i.paren_token || i.lifetimes || i.maybe {
            return Err(Error::unsupported());
        }
        self.visit_path(&i.path)
    }

    /// Renders a bound of a type parameter.
    pub fn visit_type_param_bound(&mut self, i: &TypeParamBound) -> (r: Result<(), Error>)
        ensures
            final(self)@.margin == old(self)@.margin,
            r is Ok <==> type_param_bound_supported(*i),
            r is Ok ==> final(self)@ == emit_type_param_bound(old(self)@, *i),
        decreases i, 0int,
    {
        match i {
            TypeParamBound::Trait(t) => self.visit_trait_bound(t),
            TypeParamBound::Lifetime(l) => {
                self.visit_lifetime(l);
                Ok(())
            },
        }
    }

    /// Renders a type parameter.
    pub fn visit_type_param(&mut self, i: &TypeParam) -> (r: Result<(), Error>)
        ensures
            final(self)@.margin == old(self)@.margin,
            r is Ok <==> type_param_supported(*i),
            r is Ok ==> final(self)@ == emit_type_param(old(self)@, *i),
        decreases i, 0int,
    {
        if i.attrs.len() != 0 {
            return Err(Error::unsupported());
        }
        self.visit_ident(i.ident.as_str());
        if !i.colon_token {
            if !i.bounds.is_empty() {
                return Err(Error::unsupported());
            }
        } else {
            self.write_str(": ");
            self.visit_punctuated_type_param_bounds(&i.bounds, Space::SpaceBoth)?;
        }
        match &i.default {
            Some(ty) => {
                if !i.eq_token {
                    return Err(Error::unsupported());
                }
                self.write_str(" = ");
                self.visit_type(ty)
            },
            None => Ok(()),
        }
    }

    /// Renders a generic parameter.
    pub fn visit_generic_param(&mut self, i: &GenericParam) -> (r: Result<(), Error>)
        ensures
            final(self)@.margin == old(self)@.margin,
            r is Ok <==> generic_param_supported(*i),
            r is Ok ==> final(self)@ == emit_generic_param(old(self)@, *i),
        decreases i, 0int,
    {
        match i {
            GenericParam::Type(t) => self.visit_type_param(t),
            GenericParam::Other => Err(Error::unsupported()),
        }
    }

    /// Renders the parameters between angle brackets, or nothing where there
    /// are none.  The `where` clause is not rendered here.
    pub fn visit_generics(&mut self, i: &Generics) -> (r: Result<(), Error>)
        ensures
            final(self)@.margin == old(self)@.margin,
            r is Ok <==> generics_supported(*i),
            r is Ok ==> final(self)@ == emit_generics(old(self)@, *i),
        decreases i, 0int,
    {
        if i.params.is_empty() {
            return Ok(());
        }
        self.write_str("<");
        self.visit_punctuated_generic_params(&i.params, Space::SpaceRight)?;
        self.write_str(">");
        Ok(())
    }

    /// Renders a predicate on a type.
    pub fn visit_predicate_type(&mut self, i: &PredicateType) -> (r: Result<(), Error>)
        ensures
            final(self)@.margin == old(self)@.margin,
            r is Ok <==> predicate_type_supported(*i),
            r is Ok ==> final(self)@ == emit_predicate_type(old(self)@, *i),
        decreases i, 0int,
    {
        if i.lifetimes {
            return Err(Error::unsupported());
        }
        self.visit_type(&i.bounded_ty)?;
        self.write_str(": ");
        self.visit_punctuated_type_param_bounds(&i.bounds, Space::SpaceBoth)?;
        Ok(())
    }

    /// Renders a predicate of a `where` clause.
    pub fn visit_where_predicate(&mut self, i: &WherePredicate) -> (r: Result<(), Error>)
        ensures
            final(self)@.margin == old(self)@.margin,
            r is Ok <==> where_predicate_supported(*i),
            r is Ok ==> final(self)@ == emit_where_predicate(old(self)@, *i),
        decreases i, 0int,
    {
        match i {
            WherePredicate::Type(t) => self.visit_predicate_type(t),
            WherePredicate::Other => Err(Error::unsupported()),
        }
    }

    /// Renders a `where` clause: `where` on a line, then the predicates one
    /// level deeper.
    pub fn visit_where_clause(&mut self, i: &WhereClause) -> (r: Result<(), Error>)
        ensures
            final(self)@.margin == old(self)@.margin,
            r is Ok <==> where_clause_supported(*i),
            r is Ok ==> final(self)@ == emit_where_clause(old(self)@, *i),
        decreases i, 0int,
    {
        self.write_str("where\n");
        self.indent(
            |v: &mut FormatFile| -> (r: Result<usize, Error>)
                ensures
                    final(v)@.margin == old(v)@.margin,
                    r is Ok <==> where_predicates_supported(i.predicates.pairs@),
                    r is Ok ==> final(v)@ == emit_where_predicates(
                        old(v)@,
                        i.predicates.pairs@,
                        Space::NewLine,
                    ),
                { v.visit_punctuated_where_predicates(&i.predicates, Space::NewLine) }
        )?;
        Ok(())
    }

    /// Renders the `where` clause on a line of its own, if there is one, and
    /// says whether there was one.
    pub fn visit_where_clause_if_present(&mut self, generics: &Generics) -> (r: Result<
        bool,
        Error,
    >)
        ensures
            final(self)@.margin == old(self)@.margin,
            r is Ok <==> where_clause_if_present_supported(*generics),
            r is Ok ==> final(self)@ == emit_where_clause_if_present(old(self)@, *generics),
            r is Ok ==> r->Ok_0 == (generics.where_clause is Some),
        decreases generics, 0int,
    {
        match &generics.where_clause {
            Some(where_clause) => {
                self.write_str("\n");
                self.visit_where_clause(where_clause)?;
                Ok(true)
            },
            None => Ok(false),
        }
    }

    /// Renders a pattern.
    pub fn visit_pat(&mut self, i: &Pat) -> (r: Result<(), Error>)
        ensures
            final(self)@.margin == old(self)@.margin,
            r is Ok <==> pat_supported(*i),
            r is Ok ==> final(self)@ == emit_pat(old(self)@, *i),
        decreases i, 0int,
    {
        match i {
            Pat::Wild => {
                self.visit_pat_wild();
                Ok(())
            },
            Pat::Ident(p) => self.visit_pat_ident(p),
            Pat::Tuple(t) => self.visit_pat_tuple(t),
            Pat::TupleStruct(s) => self.visit_pat_tuple_struct(s),
            Pat::Other => Err(Error::unsupported()),
        }
    }

    /// Writes the wildcard pattern.
    pub fn visit_pat_wild(&mut self)
        ensures
            final(self)@.margin == old(self)@.margin,
            final(self)@ == old(self)@.write("_"@),
    {
        self.write_str("_");
    }

    /// Renders a binding.
    pub fn visit_pat_ident(&mut self, i: &PatIdent) -> (r: Result<(), Error>)
        ensures
            final(self)@.margin == old(self)@.margin,
            r is Ok <==> !i.subpat,
            r is Ok ==> final(self)@ == emit_pat_ident(old(self)@, *i),
    {
        if i.by_ref {
            self.write_str("ref ");
        }
        if i.mutability {
            self.write_str("mut ");
        }
        self.visit_ident(i.ident.as_str());
        if i.subpat {
            return Err(Error::unsupported());
        }
        Ok(())
    }

    /// Renders a tuple pattern.
    pub fn visit_pat_tuple(&mut self, i: &PatTuple) -> (r: Result<(), Error>)
        ensures
            final(self)@.margin == old(self)@.margin,
            r is Ok <==> pat_tuple_supported(*i),
            r is Ok ==> final(self)@ == emit_pat_tuple(old(self)@, *i),
        decreases i, 0int,
    {
        self.write_str("(");
        self.visit_punctuated_pats(&i.front, Space::SpaceRight)?;
        if i.dot2_token || i.comma_token || !i.back.is_empty() {
            return Err(Error::unsupported());
        }
        self.write_str(")");
        Ok(())
    }

    /// Renders a tuple struct pattern.
    pub fn visit_pat_tuple_struct(&mut self, i: &PatTupleStruct) -> (r: Result<(), Error>)
        ensures
            final(self)@.margin == old(self)@.margin,
            r is Ok <==> path_supported(i.path) && pat_tuple_supported(i.pat),
            r is Ok ==> final(self)@ == emit_pat_tuple_struct(old(self)@, *i),
        decreases i, 0int,
    {
        self.visit_path(&i.path)?;
        self.visit_pat_tuple(&i.pat)
    }

    /// Renders a delimited sequence of path segments: each element in turn, and
    /// behind it its separator, if it has one, as the policy says.  The
    /// result is the number of separators written.
    pub fn visit_punctuated_path_segments<U: Punctuation>(
        &mut self,
        punctuated: &Punctuated<PathSegment, U>,
        space: Space,
    ) -> (r: Result<usize, Error>)
        ensures
            final(self)@.margin == old(self)@.margin,
            r is Ok <==> path_segments_supported(punctuated.pairs@),
            r is Ok ==> final(self)@ == emit_path_segments(old(self)@, punctuated.pairs@, space),
            r is Ok ==> r->Ok_0 == Punctuated::<PathSegment, U>::separators(punctuated.pairs@),
        decreases punctuated, 0int,
    {
        let mut written: usize = 0;
        let mut n: usize = 0;
        while n < punctuated.pairs.len()
            invariant
                n <= punctuated.pairs.len(),
                written <= n,
                written == Punctuated::<PathSegment, U>::separators(punctuated.pairs@.take(n as int)),
                self@.margin == old(self)@.margin,
                path_segments_supported(punctuated.pairs@.take(n as int)),
                self@ == emit_path_segments(old(self)@, punctuated.pairs@.take(n as int), space),
            decreases punctuated.pairs.len() - n,
        {
            let pair = &punctuated.pairs[n];
            proof {
                lemma_take_next(punctuated.pairs@, n as int);
            }
            self.visit_path_segment(&pair.value)?;
            if self.visit_separator(&pair.punct, space) {
                written = written + 1;
            }
            n = n + 1;
        }
        proof {
            lemma_take_all(punctuated.pairs@);
        }
        Ok(written)
    }

    /// Renders a delimited sequence of generic arguments: each element in turn, and
    /// behind it its separator, if it has one, as the policy says.  The
    /// result is the number of separators written.
    pub fn visit_punctuated_generic_arguments<U: Punctuation>(
        &mut self,
        punctuated: &Punctuated<GenericArgument, U>,
        space: Space,
    ) -> (r: Result<usize, Error>)
        ensures
            final(self)@.margin == old(self)@.margin,
            r is Ok <==> generic_arguments_supported(punctuated.pairs@),
            r is Ok ==> final(self)@ == emit_generic_arguments(old(self)@, punctuated.pairs@, space),
            r is Ok ==> r->Ok_0 == Punctuated::<GenericArgument, U>::separators(punctuated.pairs@),
        decreases punctuated, 0int,
    {
        let mut written: usize = 0;
        let mut n: usize = 0;
        while n < punctuated.pairs.len()
            invariant
                n <= punctuated.pairs.len(),
                written <= n,
                written == Punctuated::<GenericArgument, U>::separators(punctuated.pairs@.take(n as int)),
                self@.margin == old(self)@.margin,
                generic_arguments_supported(punctuated.pairs@.take(n as int)),
                self@ == emit_generic_arguments(old(self)@, punctuated.pairs@.take(n as int), space),
            decreases punctuated.pairs.len() - n,
        {
            let pair = &punctuated.pairs[n];
            proof {
                lemma_take_next(punctuated.pairs@, n as int);
            }
            self.visit_generic_argument(&pair.value)?;
            if self.visit_separator(&pair.punct, space) {
                written = written + 1;
            }
            n = n + 1;
        }
        proof {
            lemma_take_all(punctuated.pairs@);
        }
        Ok(written)
    }

    /// Renders a delimited sequence of types: each element in turn, and
    /// behind it its separator, if it has one, as the policy says.  The
    /// result is the number of separators written.
    pub fn visit_punctuated_types<U: Punctuation>(
        &mut self,
        punctuated: &Punctuated<Type, U>,
        space: Space,
    ) -> (r: Result<usize, Error>)
        ensures
            final(self)@.margin == old(self)@.margin,
            r is Ok <==> types_supported(punctuated.pairs@),
            r is Ok ==> final(self)@ == emit_types(old(self)@, punctuated.pairs@, space),
            r is Ok ==> r->Ok_0 == Punctuated::<Type, U>::separators(punctuated.pairs@),
        decreases punctuated, 0int,
    {
        let mut written: usize = 0;
        let mut n: usize = 0;
        while n < punctuated.pairs.len()
            invariant
                n <= punctuated.pairs.len(),
                written <= n,
                written == Punctuated::<Type, U>::separators(punctuated.pairs@.take(n as int)),
                self@.margin == old(self)@.margin,
                types_supported(punctuated.pairs@.take(n as int)),
                self@ == emit_types(old(self)@, punctuated.pairs@.take(n as int), space),
            decreases punctuated.pairs.len() - n,
        {
            let pair = &punctuated.pairs[n];
            proof {
                lemma_take_next(punctuated.pairs@, n as int);
            }
            self.visit_type(&pair.value)?;
            if self.visit_separator(&pair.punct, space) {
                written = written + 1;
            }
            n = n + 1;
        }
        proof {
            lemma_take_all(punctuated.pairs@);
        }
        Ok(written)
    }

    /// Renders a delimited sequence of bounds: each element in turn, and
    /// behind it its separator, if it has one, as the policy says.  The
    /// result is the number of separators written.
    pub fn visit_punctuated_type_param_bounds<U: Punctuation>(
        &mut self,
        punctuated: &Punctuated<TypeParamBound, U>,
        space: Space,
    ) -> (r: Result<usize, Error>)
        ensures
            final(self)@.margin == old(self)@.margin,
            r is Ok <==> type_param_bounds_supported(punctuated.pairs@),
            r is Ok ==> final(self)@ == emit_type_param_bounds(old(self)@, punctuated.pairs@, space),
            r is Ok ==> r->Ok_0 == Punctuated::<TypeParamBound, U>::separators(punctuated.pairs@),
        decreases punctuated, 0int,
    {
        let mut written: usize = 0;
        let mut n: usize = 0;
        while n < punctuated.pairs.len()
            invariant
                n <= punctuated.pairs.len(),
                written <= n,
                written == Punctuated::<TypeParamBound, U>::separators(punctuated.pairs@.take(n as int)),
                self@.margin == old(self)@.margin,
                type_param_bounds_supported(punctuated.pairs@.take(n as int)),
                self@ == emit_type_param_bounds(old(self)@, punctuated.pairs@.take(n as int), space),
            decreases punctuated.pairs.len() - n,
        {
            let pair = &punctuated.pairs[n];
            proof {
                lemma_take_next(punctuated.pairs@, n as int);
            }
            self.visit_type_param_bound(&pair.value)?;
            if self.visit_separator(&pair.punct, space) {
                written = written + 1;
            }
            n = n + 1;
        }
        proof {
            lemma_take_all(punctuated.pairs@);
        }
        Ok(written)
    }

    /// Renders a delimited sequence of generic parameters: each element in turn, and
    /// behind it its separator, if it has one, as the policy says.  The
    /// result is the number of separators written.
    pub fn visit_punctuated_generic_params<U: Punctuation>(
        &mut self,
        punctuated: &Punctuated<GenericParam, U>,
        space: Space,
    ) -> (r: Result<usize, Error>)
        ensures
            final(self)@.margin == old(self)@.margin,
            r is Ok <==> generic_params_supported(punctuated.pairs@),
            r is Ok ==> final(self)@ == emit_generic_params(old(self)@, punctuated.pairs@, space),
            r is Ok ==> r->Ok_0 == Punctuated::<GenericParam, U>::separators(punctuated.pairs@),
        decreases punctuated, 0int,
    {
        let mut written: usize = 0;
        let mut n: usize = 0;
        while n < punctuated.pairs.len()
            invariant
                n <= punctuated.pairs.len(),
                written <= n,
                written == Punctuated::<GenericParam, U>::separators(punctuated.pairs@.take(n as int)),
                self@.margin == old(self)@.margin,
                generic_params_supported(punctuated.pairs@.take(n as int)),
                self@ == emit_generic_params(old(self)@, punctuated.pairs@.take(n as int), space),
            decreases punctuated.pairs.len() - n,
        {
            let pair = &punctuated.pairs[n];
            proof {
                lemma_take_next(punctuated.pairs@, n as int);
            }
            self.visit_generic_param(&pair.value)?;
            if self.visit_separator(&pair.punct, space) {
                written = written + 1;
            }
            n = n + 1;
        }
        proof {
            lemma_take_all(punctuated.pairs@);
        }
        Ok(written)
    }

    /// Renders a delimited sequence of `where` predicates: each element in turn, and
    /// behind it its separator, if it has one, as the policy says.  The
    /// result is the number of separators written.
    pub fn visit_punctuated_where_predicates<U: Punctuation>(
        &mut self,
        punctuated: &Punctuated<WherePredicate, U>,
        space: Space,
    ) -> (r: Result<usize, Error>)
        ensures
            final(self)@.margin == old(self)@.margin,
            r is Ok <==> where_predicates_supported(punctuated.pairs@),
            r is Ok ==> final(self)@ == emit_where_predicates(old(self)@, punctuated.pairs@, space),
            r is Ok ==> r->Ok_0 == Punctuated::<WherePredicate, U>::separators(punctuated.pairs@),
        decreases punctuated, 0int,
    {
        let mut written: usize = 0;
        let mut n: usize = 0;
        while n < punctuated.pairs.len()
            invariant
                n <= punctuated.pairs.len(),
                written <= n,
                written == Punctuated::<WherePredicate, U>::separators(punctuated.pairs@.take(n as int)),
                self@.margin == old(self)@.margin,
                where_predicates_supported(punctuated.pairs@.take(n as int)),
                self@ == emit_where_predicates(old(self)@, punctuated.pairs@.take(n as int), space),
            decreases punctuated.pairs.len() - n,
        {
            let pair = &punctuated.pairs[n];
            proof {
                lemma_take_next(punctuated.pairs@, n as int);
            }
            self.visit_where_predicate(&pair.value)?;
            if self.visit_separator(&pair.punct, space) {
                written = written + 1;
            }
            n = n + 1;
        }
        proof {
            lemma_take_all(punctuated.pairs@);
        }
        Ok(written)
    }

    /// Renders a delimited sequence of patterns: each element in turn, and
    /// behind it its separator, if it has one, as the policy says.  The
    /// result is the number of separators written.
    pub fn visit_punctuated_pats<U: Punctuation>(
        &mut self,
        punctuated: &Punctuated<Pat, U>,
        space: Space,
    ) -> (r: Result<usize, Error>)
        ensures
            final(self)@.margin == old(self)@.margin,
            r is Ok <==> pats_supported(punctuated.pairs@),
            r is Ok ==> final(self)@ == emit_pats(old(self)@, punctuated.pairs@, space),
            r is Ok ==> r->Ok_0 == Punctuated::<Pat, U>::separators(punctuated.pairs@),
        decreases punctuated, 0int,
    {
        let mut written: usize = 0;
        let mut n: usize = 0;
        while n < punctuated.pairs.len()
            invariant
                n <= punctuated.pairs.len(),
                written <= n,
                written == Punctuated::<Pat, U>::separators(punctuated.pairs@.take(n as int)),
                self@.margin == old(self)@.margin,
                pats_supported(punctuated.pairs@.take(n as int)),
                self@ == emit_pats(old(self)@, punctuated.pairs@.take(n as int), space),
            decreases punctuated.pairs.len() - n,
        {
            let pair = &punctuated.pairs[n];
            proof {
                lemma_take_next(punctuated.pairs@, n as int);
            }
            self.visit_pat(&pair.value)?;
            if self.visit_separator(&pair.punct, space) {
                written = written + 1;
            }
            n = n + 1;
        }
        proof {
            lemma_take_all(punctuated.pairs@);
        }
        Ok(written)
    }
}

} // verus!
