//! Rendering of expressions, statements and blocks.

use crate::error::Error;
use crate::punct::{lemma_take_all, lemma_take_next, Punctuated, Punctuation, Space};
use crate::render::{
    arm_supported, arms_supported, attrs_supported, bin_op_text, block_supported, emit_arm,
    emit_arms, emit_attrs, emit_block, emit_expr, emit_expr_binary, emit_expr_block,
    emit_expr_call, emit_expr_field, emit_expr_for_loop, emit_expr_if, emit_expr_lit,
    emit_expr_macro, emit_expr_match, emit_expr_method_call, emit_expr_path,
    emit_expr_reference, emit_expr_struct, emit_expr_unary, emit_exprs, emit_field_value,
    emit_field_values, emit_local, emit_macro, emit_member, emit_spaced_expr, emit_stmt,
    emit_stmts, emit_struct_body, expr_binary_supported, expr_block_supported,
    expr_call_supported, expr_field_supported, expr_for_loop_supported, expr_if_supported,
    expr_lit_supported, expr_macro_supported, expr_match_supported, expr_method_call_supported,
    expr_opens_scope, expr_path_supported, expr_reference_supported, expr_struct_supported,
    expr_supported, expr_unary_supported, exprs_supported, field_value_supported,
    field_values_supported, local_supported, macro_supported, member_supported, stmt_supported,
    stmts_supported, struct_body_supported, un_op_text,
};
use crate::sink::FormatFile;
use crate::syntax::{
    Arm, BinOp, Block, Expr, ExprBinary, ExprBlock, ExprCall, ExprField, ExprForLoop, ExprIf,
    ExprLit, ExprMacro, ExprMatch, ExprMethodCall, ExprPath, ExprReference, ExprStruct,
    ExprUnary, FieldValue, Local, Macro, MacroDelimiter, Member, Stmt, UnOp,
};
use vstd::prelude::*;

verus! {

/// Whether the first thing that the expression writes is the opening brace
/// of a scope.
pub fn opens_scope(e: &Expr) -> (b: bool)
    ensures
        b == expr_opens_scope(*e),
    decreases e,
{
    match e {
        Expr::Block(b) => b.attrs.len() == 0,
        Expr::Binary(b) => b.attrs.len() == 0 && opens_scope(&b.left),
        Expr::Call(c) => c.attrs.len() == 0 && opens_scope(&c.func),
        Expr::Field(f) => f.attrs.len() == 0 && opens_scope(&f.base),
        Expr::MethodCall(m) => m.attrs.len() == 0 && opens_scope(&m.receiver),
        _ => false,
    }
}

impl FormatFile {
    /// Writes the symbol of a binary operator.
    pub fn visit_bin_op(&mut self, i: &BinOp)
        ensures
            final(self)@.margin == old(self)@.margin,
            final(self)@ == old(self)@.write(bin_op_text(*i)),
    {
        self.write_str(
            match i {
                BinOp::Add => "+",
                BinOp::Sub => "-",
                BinOp::Mul => "*",
                BinOp::Div => "/",
                BinOp::Rem => "%",
                BinOp::And => "&&",
                BinOp::Or => "||",
                BinOp::BitXor => "^",
                BinOp::BitAnd => "&",
                BinOp::BitOr => "|",
                BinOp::Shl => "<<",
                BinOp::Shr => ">>",
                BinOp::Eq => "==",
                BinOp::Lt => "<",
                BinOp::Le => "<=",
                BinOp::Ne => "!=",
                BinOp::Ge => ">=",
                BinOp::Gt => ">",
                BinOp::AddEq => "+=",
                BinOp::SubEq => "-=",
                BinOp::MulEq => "*=",
                BinOp::DivEq => "/=",
                BinOp::RemEq => "%=",
                BinOp::BitXorEq => "^=",
                BinOp::BitAndEq => "&=",
                BinOp::BitOrEq => "|=",
                BinOp::ShlEq => "<<=",
                BinOp::ShrEq => ">>=",
            },
        );
    }

    /// Writes the symbol of a unary operator.
    pub fn visit_un_op(&mut self, i: &UnOp)
        ensures
            final(self)@.margin == old(self)@.margin,
            final(self)@ == old(self)@.write(un_op_text(*i)),
    {
        match i {
            UnOp::Deref => {
                self.write_str("*");
            },
            UnOp::Not => {
                self.write_str("!");
            },
            UnOp::Neg => {
                self.write_str("-");
            },
        }
    }

    /// Renders the member that a field access or a field value names.
    pub fn visit_member(&mut self, i: &Member) -> (r: Result<(), Error>)
        ensures
            final(self)@.margin == old(self)@.margin,
            r is Ok <==> member_supported(*i),
            r is Ok ==> final(self)@ == emit_member(old(self)@, *i),
    {
        match i {
            Member::Named(ident) => {
                self.visit_ident(ident.as_str());
                Ok(())
            },
            Member::Unnamed => Err(Error::unsupported()),
        }
    }

    /// Renders an expression.
    pub fn visit_expr(&mut self, i: &Expr) -> (r: Result<(), Error>)
        ensures
            final(self)@.margin == old(self)@.margin,
            r is Ok <==> expr_supported(*i),
            r is Ok ==> final(self)@ == emit_expr(old(self)@, *i),
        decreases i, 0int,
    {
        match i {
            Expr::Binary(e) => self.visit_expr_binary(e),
            Expr::Block(e) => self.visit_expr_block(e),
            Expr::Call(e) => self.visit_expr_call(e),
            Expr::Field(e) => self.visit_expr_field(e),
            Expr::ForLoop(e) => self.visit_expr_for_loop(e),
            Expr::If(e) => self.visit_expr_if(e),
            Expr::Lit(e) => self.visit_expr_lit(e),
            Expr::Macro(e) => self.visit_expr_macro(e),
            Expr::Match(e) => self.visit_expr_match(e),
            Expr::MethodCall(e) => self.visit_expr_method_call(e),
            Expr::Path(e) => self.visit_expr_path(e),
            Expr::Reference(e) => self.visit_expr_reference(e),
            Expr::Struct(e) => self.visit_expr_struct(e),
            Expr::Unary(e) => self.visit_expr_unary(e),
            Expr::Other => Err(Error::unsupported()),
        }
    }

    /// Renders an expression behind a token on the same line: a space parts
    /// the two, which a scope brings with its opening brace and any other
    /// expression gets here.
    pub fn visit_spaced_expr(&mut self, i: &Expr) -> (r: Result<(), Error>)
        ensures
            final(self)@.margin == old(self)@.margin,
            r is Ok <==> expr_supported(*i),
            r is Ok ==> final(self)@ == emit_spaced_expr(old(self)@, *i),
        decreases i, 1int,
    {
        if !opens_scope(i) {
            self.write_str(" ");
        }
        self.visit_expr(i)
    }

    /// Renders a binary expression.
    pub fn visit_expr_binary(&mut self, i: &ExprBinary) -> (r: Result<(), Error>)
        ensures
            final(self)@.margin == old(self)@.margin,
            r is Ok <==> expr_binary_supported(*i),
            r is Ok ==> final(self)@ == emit_expr_binary(old(self)@, *i),
        decreases i, 0int,
    {
        self.visit_attributes(&i.attrs)?;
        self.visit_expr(&i.left)?;
        self.write_str(" ");
        self.visit_bin_op(&i.op);
        self.visit_spaced_expr(&i.right)
    }

    /// Renders a block expression.
    pub fn visit_expr_block(&mut self, i: &ExprBlock) -> (r: Result<(), Error>)
        ensures
            final(self)@.margin == old(self)@.margin,
            r is Ok <==> expr_block_supported(*i),
            r is Ok ==> final(self)@ == emit_expr_block(old(self)@, *i),
        decreases i, 0int,
    {
        self.visit_attributes(&i.attrs)?;
        if i.label {
            return Err(Error::unsupported());
        }
        self.visit_block(&i.block)
    }

    /// Renders a call.
    pub fn visit_expr_call(&mut self, i: &ExprCall) -> (r: Result<(), Error>)
        ensures
            final(self)@.margin == old(self)@.margin,
            r is Ok <==> expr_call_supported(*i),
            r is Ok ==> final(self)@ == emit_expr_call(old(self)@, *i),
        decreases i, 0int,
    {
        self.visit_attributes(&i.attrs)?;
        self.visit_expr(&i.func)?;
        self.write_str("(");
        self.visit_punctuated_exprs(&i.args, Space::SpaceRight)?;
        self.write_str(")");
        Ok(())
    }

    /// Renders a field access.
    pub fn visit_expr_field(&mut self, i: &ExprField) -> (r: Result<(), Error>)
        ensures
            final(self)@.margin == old(self)@.margin,
            r is Ok <==> expr_field_supported(*i),
            r is Ok ==> final(self)@ == emit_expr_field(old(self)@, *i),
        decreases i, 0int,
    {
        self.visit_attributes(&i.attrs)?;
        self.visit_expr(&i.base)?;
        self.write_str(".");
        self.visit_member(&i.member)
    }

    /// Renders a `for` loop.
    pub fn visit_expr_for_loop(&mut self, i: &ExprForLoop) -> (r: Result<(), Error>)
        ensures
            final(self)@.margin == old(self)@.margin,
            r is Ok <==> expr_for_loop_supported(*i),
            r is Ok ==> final(self)@ == emit_expr_for_loop(old(self)@, *i),
        decreases i, 0int,
    {
        self.visit_attributes(&i.attrs)?;
        if i.label {
            return Err(Error::unsupported());
        }
        self.write_str("for ");
        self.visit_pat(&i.pat)?;
        self.write_str(" in");
        self.visit_spaced_expr(&i.expr)?;
        self.visit_block(&i.body)
    }

    /// Renders a conditional.
    pub fn visit_expr_if(&mut self, i: &ExprIf) -> (r: Result<(), Error>)
        ensures
            final(self)@.margin == old(self)@.margin,
            r is Ok <==> expr_if_supported(*i),
            r is Ok ==> final(self)@ == emit_expr_if(old(self)@, *i),
        decreases i, 0int,
    {
        self.visit_attributes(&i.attrs)?;
        self.write_str("if");
        self.visit_spaced_expr(&i.cond)?;
        self.visit_block(&i.then_branch)?;
        match &i.else_branch {
            Some(else_branch) => {
                self.write_str(" else");
                self.visit_spaced_expr(else_branch)
            },
            None => Ok(()),
        }
    }

    /// Renders a literal expression.
    pub fn visit_expr_lit(&mut self, i: &ExprLit) -> (r: Result<(), Error>)
        ensures
            final(self)@.margin == old(self)@.margin,
            r is Ok <==> expr_lit_supported(*i),
            r is Ok ==> final(self)@ == emit_expr_lit(old(self)@, *i),
    {
        self.visit_attributes(&i.attrs)?;
        self.visit_lit(&i.lit)
    }

    /// Renders a macro expression.
    pub fn visit_expr_macro(&mut self, i: &ExprMacro) -> (r: Result<(), Error>)
        ensures
            final(self)@.margin == old(self)@.margin,
            r is Ok <==> expr_macro_supported(*i),
            r is Ok ==> final(self)@ == emit_expr_macro(old(self)@, *i),
        decreases i, 0int,
    {
        self.visit_attributes(&i.attrs)?;
        self.visit_macro(&i.mac)
    }

    /// Renders a `match`.
    pub fn visit_expr_match(&mut self, i: &ExprMatch) -> (r: Result<(), Error>)
        ensures
            final(self)@.margin == old(self)@.margin,
            r is Ok <==> expr_match_supported(*i),
            r is Ok ==> final(self)@ == emit_expr_match(old(self)@, *i),
        decreases i, 0int,
    {
        self.visit_attributes(&i.attrs)?;
        self.write_str("match");
        self.visit_spaced_expr(&i.expr)?;
        self.block_no_nl(
            |v: &mut FormatFile| -> (r: Result<(), Error>)
                ensures
                    final(v)@.margin == old(v)@.margin,
                    r is Ok <==> arms_supported(i.arms@),
                    r is Ok ==> final(v)@ == emit_arms(old(v)@, i.arms@),
                { v.visit_arms(&i.arms) }
        )
    }

    /// Renders a method call.
    pub fn visit_expr_method_call(&mut self, i: &ExprMethodCall) -> (r: Result<(), Error>)
        ensures
            final(self)@.margin == old(self)@.margin,
            r is Ok <==> expr_method_call_supported(*i),
            r is Ok ==> final(self)@ == emit_expr_method_call(old(self)@, *i),
        decreases i, 0int,
    {
        self.visit_attributes(&i.attrs)?;
        self.visit_expr(&i.receiver)?;
        self.write_str(".");
        self.visit_ident(i.method.as_str());
        if i.turbofish {
            return Err(Error::unsupported());
        }
        self.write_str("(");
        self.visit_punctuated_exprs(&i.args, Space::SpaceRight)?;
        self.write_str(")");
        Ok(())
    }

    /// Renders a path expression.
    pub fn visit_expr_path(&mut self, i: &ExprPath) -> (r: Result<(), Error>)
        ensures
            final(self)@.margin == old(self)@.margin,
            r is Ok <==> expr_path_supported(*i),
            r is Ok ==> final(self)@ == emit_expr_path(old(self)@, *i),
        decreases i, 0int,
    {
        self.visit_attributes(&i.attrs)?;
        if i.qself {
            return Err(Error::unsupported());
        }
        self.visit_path(&i.path)
    }

    /// Renders a reference.
    pub fn visit_expr_reference(&mut self, i: &ExprReference) -> (r: Result<(), Error>)
        ensures
            final(self)@.margin == old(self)@.margin,
            r is Ok <==> expr_reference_supported(*i),
            r is Ok ==> final(self)@ == emit_expr_reference(old(self)@, *i),
        decreases i, 0int,
    {
        self.visit_attributes(&i.attrs)?;
        self.write_str("&");
        if i.mutability {
            self.write_str("mut");
            self.visit_spaced_expr(&i.expr)
        } else {
            self.visit_expr(&i.expr)
        }
    }

    /// Renders what stands between the braces of a struct expression.
    pub fn visit_struct_body(&mut self, i: &ExprStruct) -> (r: Result<(), Error>)
        ensures
            final(self)@.margin == old(self)@.margin,
            r is Ok <==> struct_body_supported(*i),
            r is Ok ==> final(self)@ == emit_struct_body(old(self)@, *i),
        decreases i, 0int,
    {
        self.visit_punctuated_field_values(&i.fields, Space::NewLine)?;
        if i.dot2_token {
            match &i.rest {
                Some(rest) => {
                    self.write_str("..");
                    self.visit_spaced_expr(rest)
                },
                None => Err(Error::unsupported()),
            }
        } else {
            Ok(())
        }
    }

    /// Renders a struct expression.
    pub fn visit_expr_struct(&mut self, i: &ExprStruct) -> (r: Result<(), Error>)
        ensures
            final(self)@.margin == old(self)@.margin,
            r is Ok <==> expr_struct_supported(*i),
            r is Ok ==> final(self)@ == emit_expr_struct(old(self)@, *i),
        decreases i, 1int,
    {
        self.visit_attributes(&i.attrs)?;
        self.visit_path(&i.path)?;
        self.block_no_nl(
            |v: &mut FormatFile| -> (r: Result<(), Error>)
                ensures
                    final(v)@.margin == old(v)@.margin,
                    r is Ok <==> struct_body_supported(*i),
                    r is Ok ==> final(v)@ == emit_struct_body(old(v)@, *i),
                { v.visit_struct_body(i) }
        )
    }

    /// Renders a unary expression.
    pub fn visit_expr_unary(&mut self, i: &ExprUnary) -> (r: Result<(), Error>)
        ensures
            final(self)@.margin == old(self)@.margin,
            r is Ok <==> expr_unary_supported(*i),
            r is Ok ==> final(self)@ == emit_expr_unary(old(self)@, *i),
        decreases i, 0int,
    {
        self.visit_attributes(&i.attrs)?;
        self.visit_un_op(&i.op);
        self.visit_expr(&i.expr)
    }

    /// Renders a field with its value.
    pub fn visit_field_value(&mut self, i: &FieldValue) -> (r: Result<(), Error>)
        ensures
            final(self)@.margin == old(self)@.margin,
            r is Ok <==> field_value_supported(*i),
            r is Ok ==> final(self)@ == emit_field_value(old(self)@, *i),
        decreases i, 0int,
    {
        self.visit_attributes(&i.attrs)?;
        match &i.member {
            Member::Named(ident) => {
                self.visit_ident(ident.as_str());
                self.write_str(":");
                self.visit_spaced_expr(&i.expr)
            },
            Member::Unnamed => Err(Error::unsupported()),
        }
    }

    /// Writes the tokens handed to a macro as they are.
    pub fn visit_macro_body(&mut self, tts: &str)
        ensures
            final(self)@.margin == old(self)@.margin,
            final(self)@ == old(self)@.write(tts@),
    {
        self.write_str(tts);
    }

    /// Renders a macro invocation.
    pub fn visit_macro(&mut self, i: &Macro) -> (r: Result<(), Error>)
        ensures
            final(self)@.margin == old(self)@.margin,
            r is Ok <==> macro_supported(*i),
            r is Ok ==> final(self)@ == emit_macro(old(self)@, *i),
        decreases i, 0int,
    {
        self.visit_path(&i.path)?;
        self.write_str("!");
        match i.delimiter {
            MacroDelimiter::Paren => {
                self.write_str("(");
                self.visit_macro_body(i.tts.as_str());
                self.write_str(")");
            },
            MacroDelimiter::Bracket => {
                self.write_str("[");
                self.visit_macro_body(i.tts.as_str());
                self.write_str("]");
            },
            MacroDelimiter::Brace => {
                self.block_no_nl(
                    |v: &mut FormatFile|
                        ensures
                            final(v)@.margin == old(v)@.margin,
                            final(v)@ == old(v)@.write(i.tts@),
                        {
                            v.visit_macro_body(i.tts.as_str());
                        }
                );
            },
        }
        Ok(())
    }

    /// Renders an arm of a `match` on a line of its own.
    pub fn visit_arm(&mut self, i: &Arm) -> (r: Result<(), Error>)
        ensures
            final(self)@.margin == old(self)@.margin,
            r is Ok <==> arm_supported(*i),
            r is Ok ==> final(self)@ == emit_arm(old(self)@, *i),
        decreases i, 0int,
    {
        self.visit_attributes(&i.attrs)?;
        if i.leading_vert {
            self.write_str("| ");
        }
        self.visit_punctuated_pats(&i.pats, Space::SpaceBoth)?;
        self.write_str(" =>");
        self.visit_spaced_expr(&i.body)?;
        if i.comma {
            self.write_str(",");
        }
        self.write_str("\n");
        Ok(())
    }

    /// Renders the arms of a `match`, one to a line.
    pub fn visit_arms(&mut self, arms: &Vec<Arm>) -> (r: Result<(), Error>)
        ensures
            final(self)@.margin == old(self)@.margin,
            r is Ok <==> arms_supported(arms@),
            r is Ok ==> final(self)@ == emit_arms(old(self)@, arms@),
        decreases arms, 0int,
    {
        let mut n: usize = 0;
        while n < arms.len()
            invariant
                n <= arms.len(),
                self@.margin == old(self)@.margin,
                arms_supported(arms@.take(n as int)),
                self@ == emit_arms(old(self)@, arms@.take(n as int)),
            decreases arms.len() - n,
        {
            proof {
                lemma_take_next(arms@, n as int);
            }
            self.visit_arm(&arms[n])?;
            n = n + 1;
        }
        proof {
            lemma_take_all(arms@);
        }
        Ok(())
    }

    /// Renders a `let` binding, without its semicolon.
    pub fn visit_local(&mut self, i: &Local) -> (r: Result<(), Error>)
        ensures
            final(self)@.margin == old(self)@.margin,
            r is Ok <==> local_supported(*i),
            r is Ok ==> final(self)@ == emit_local(old(self)@, *i),
        decreases i, 0int,
    {
        self.visit_attributes(&i.attrs)?;
        self.write_str("let ");
        self.visit_punctuated_pats(&i.pats, Space::SpaceBoth)?;
        match &i.ty {
            Some(ty) => {
                self.write_str(": ");
                self.visit_type(ty)?;
            },
            None => {},
        }
        match &i.init {
            Some(init) => {
                self.write_str(" =");
                self.visit_spaced_expr(init)
            },
            None => Ok(()),
        }
    }

    /// Renders a statement.  A statement that is no declaration is parted by
    /// a blank line from a declaration rendered before it.
    pub fn visit_stmt(&mut self, i: &Stmt) -> (r: Result<(), Error>)
        ensures
            final(self)@.margin == old(self)@.margin,
            r is Ok <==> stmt_supported(*i),
            r is Ok ==> final(self)@ == emit_stmt(old(self)@, *i),
        decreases i, 0int,
    {
        // Some custom spacing
        match i {
            Stmt::Item(_) => {
                self.set_stmt_item(true);
            },
            _ => {
                if self.is_stmt_item() {
                    self.write_str("\n");
                }
                self.set_stmt_item(false);
            },
        }
        match i {
            Stmt::Local(v) => {
                self.visit_local(v)?;
                self.write_str(";\n");
            },
            Stmt::Item(v) => {
                self.visit_item(v)?;
            },
            Stmt::Expr(v) => {
                self.visit_expr(v)?;
                self.write_str("\n");
            },
            Stmt::Semi(v) => {
                self.visit_expr(v)?;
                self.write_str(";\n");
            },
        }
        Ok(())
    }

    /// Renders statements in turn.
    pub fn visit_stmts(&mut self, stmts: &Vec<Stmt>) -> (r: Result<(), Error>)
        ensures
            final(self)@.margin == old(self)@.margin,
            r is Ok <==> stmts_supported(stmts@),
            r is Ok ==> final(self)@ == emit_stmts(old(self)@, stmts@),
        decreases stmts, 0int,
    {
        let mut n: usize = 0;
        while n < stmts.len()
            invariant
                n <= stmts.len(),
                self@.margin == old(self)@.margin,
                stmts_supported(stmts@.take(n as int)),
                self@ == emit_stmts(old(self)@, stmts@.take(n as int)),
            decreases stmts.len() - n,
        {
            proof {
                lemma_take_next(stmts@, n as int);
            }
            self.visit_stmt(&stmts[n])?;
            n = n + 1;
        }
        proof {
            lemma_take_all(stmts@);
        }
        Ok(())
    }

    /// Renders a block as a scope.
    pub fn visit_block(&mut self, i: &Block) -> (r: Result<(), Error>)
        ensures
            final(self)@.margin == old(self)@.margin,
            r is Ok <==> block_supported(*i),
            r is Ok ==> final(self)@ == emit_block(old(self)@, *i),
        decreases i, 0int,
    {
        self.block_no_nl(
            |v: &mut FormatFile| -> (r: Result<(), Error>)
                ensures
                    final(v)@.margin == old(v)@.margin,
                    r is Ok <==> stmts_supported(i.stmts@),
                    r is Ok ==> final(v)@ == emit_stmts(old(v)@.flagged(false), i.stmts@),
                {
                    v.set_stmt_item(false);
                    v.visit_stmts(&i.stmts)
                }
        )
    }

    /// Renders a delimited sequence of expressions: each element in turn, and
    /// behind it its separator, if it has one, as the policy says.  The
    /// result is the number of separators written.
    pub fn visit_punctuated_exprs<U: Punctuation>(
        &mut self,
        punctuated: &Punctuated<Expr, U>,
        space: Space,
    ) -> (r: Result<usize, Error>)
        ensures
            final(self)@.margin == old(self)@.margin,
            r is Ok <==> exprs_supported(punctuated.pairs@),
            r is Ok ==> final(self)@ == emit_exprs(old(self)@, punctuated.pairs@, space),
            r is Ok ==> r->Ok_0 == Punctuated::<Expr, U>::separators(punctuated.pairs@),
        decreases punctuated, 0int,
    {
        let mut written: usize = 0;
        let mut n: usize = 0;
        while n < punctuated.pairs.len()
            invariant
                n <= punctuated.pairs.len(),
                written <= n,
                written == Punctuated::<Expr, U>::separators(punctuated.pairs@.take(n as int)),
                self@.margin == old(self)@.margin,
                exprs_supported(punctuated.pairs@.take(n as int)),
                self@ == emit_exprs(old(self)@, punctuated.pairs@.take(n as int), space),
            decreases punctuated.pairs.len() - n,
        {
            let pair = &punctuated.pairs[n];
            proof {
                lemma_take_next(punctuated.pairs@, n as int);
            }
            self.visit_expr(&pair.value)?;
            if self.visit_separator(&pair.punct, space) {
                written = written + 1;
            }
            n = n + 1;
        }
        proof {
            lemma_take_all(punctuated.pairs@);
        }
        Ok(written)
    }

    /// Renders a delimited sequence of field values: each element in turn, and
    /// behind it its separator, if it has one, as the policy says.  The
    /// result is the number of separators written.
    pub fn visit_punctuated_field_values<U: Punctuation>(
        &mut self,
        punctuated: &Punctuated<FieldValue, U>,
        space: Space,
    ) -> (r: Result<usize, Error>)
        ensures
            final(self)@.margin == old(self)@.margin,
            r is Ok <==> field_values_supported(punctuated.pairs@),
            r is Ok ==> final(self)@ == emit_field_values(old(self)@, punctuated.pairs@, space),
            r is Ok ==> r->Ok_0 == Punctuated::<FieldValue, U>::separators(punctuated.pairs@),
        decreases punctuated, 0int,
    {
        let mut written: usize = 0;
        let mut n: usize = 0;
        while n < punctuated.pairs.len()
            invariant
                n <= punctuated.pairs.len(),
                written <= n,
                written == Punctuated::<FieldValue, U>::separators(punctuated.pairs@.take(n as int)),
                self@.margin == old(self)@.margin,
                field_values_supported(punctuated.pairs@.take(n as int)),
                self@ == emit_field_values(old(self)@, punctuated.pairs@.take(n as int), space),
            decreases punctuated.pairs.len() - n,
        {
            let pair = &punctuated.pairs[n];
            proof {
                lemma_take_next(punctuated.pairs@, n as int);
            }
            self.visit_field_value(&pair.value)?;
            if self.visit_separator(&pair.punct, space) {
                written = written + 1;
            }
            n = n + 1;
        }
        proof {
            lemma_take_all(punctuated.pairs@);
        }
        Ok(written)
    }
}

} // verus!
