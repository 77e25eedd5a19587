use vstd::prelude::*;

verus! {

/// Number of spaces per indentation level.
pub const DEFAULT_INDENT: usize = 4;

/// A run of `n` spaces.
pub open spec fn spaces(n: nat) -> Seq<char> {
    Seq::new(n, |i: int| ' ')
}

/// A fragment with its line ends made uniform: a line ends at a line break,
/// and a carriage return that stands directly before the line break belongs
/// to the end of the line and is left out.
pub open spec fn line_ends_normalized(s: Seq<char>) -> Seq<char>
    decreases s.len(),
{
    if s.len() == 0 {
        s
    } else if s.last() == '\n' && s.len() >= 2 && s[s.len() - 2] == '\r' {
        line_ends_normalized(s.drop_last().drop_last()).push('\n')
    } else {
        line_ends_normalized(s.drop_last()).push(s.last())
    }
}

/// The state of an output sink as a mathematical value.
pub struct Sink {
    /// The text written so far.
    pub text: Seq<char>,
    /// The run of spaces that starts every non-blank line.  Each level of
    /// indentation in effect adds `DEFAULT_INDENT` spaces to it.
    pub margin: Seq<char>,
    /// Whether the statement rendered last was a declaration.
    pub after_item: bool,
}

impl Sink {
    /// The sink before anything is written: no text, no indentation.
    pub open spec fn start() -> Sink {
        Sink { text: Seq::empty(), margin: Seq::empty(), after_item: false }
    }

    /// The sink with the note of what the last statement was set anew.
    pub open spec fn flagged(self, after_item: bool) -> Sink {
        Sink { after_item, ..self }
    }

    /// The number of indentation levels in effect.
    pub open spec fn depth(self) -> nat {
        self.margin.len() / 4
    }

    /// Whether the next character written would begin a fresh line.
    pub open spec fn at_line_start(self) -> bool {
        self.text.len() == 0 || self.text.last() == '\n'
    }

    /// The sink after the margin is written.
    pub open spec fn with_margin(self) -> Sink {
        Sink { text: self.text + self.margin, ..self }
    }

    /// The sink after one character is written: a character other than a
    /// line break that begins a line is preceded by the margin.
    pub open spec fn put(self, c: char) -> Sink {
        if c != '\n' && self.at_line_start() {
            Sink { text: (self.text + self.margin).push(c), ..self }
        } else {
            Sink { text: self.text.push(c), ..self }
        }
    }

    /// The sink after the characters are written one by one.
    pub open spec fn write_chars(self, s: Seq<char>) -> Sink
        decreases s.len(),
    {
        if s.len() == 0 {
            self
        } else {
            self.write_chars(s.drop_last()).put(s.last())
        }
    }

    /// The sink after a fragment is written: its lines, each ended as the
    /// fragment ends it, and each behind the margin where it begins a line of
    /// the output and is not blank.
    pub open spec fn write(self, s: Seq<char>) -> Sink {
        self.write_chars(line_ends_normalized(s))
    }

    /// The sink one indentation level deeper.
    pub open spec fn indented(self) -> Sink {
        Sink { margin: self.margin + spaces(4), ..self }
    }

    /// The sink one indentation level less deep.
    pub open spec fn dedented(self) -> Sink {
        Sink {
            margin: self.margin.take(
                if self.margin.len() >= 4 {
                    self.margin.len() - 4
                } else {
                    0
                },
            ),
            ..self
        }
    }

    /// The sink after a single space is written unless a line begins.
    pub open spec fn gap(self) -> Sink {
        if self.at_line_start() {
            self
        } else {
            self.write(" "@)
        }
    }

    /// The sink after a scope is opened: the opening brace is attached to
    /// what precedes it on the line, the line ends, and what follows is one
    /// level deeper.
    pub open spec fn opened(self) -> Sink {
        self.gap().write("{\n"@).indented()
    }

    /// The sink after a scope is closed, with or without a line break after
    /// the closing brace.
    pub open spec fn closed(self, newline: bool) -> Sink {
        if newline {
            self.dedented().write("}\n"@)
        } else {
            self.dedented().write("}"@)
        }
    }

    /// The text that a finished sink hands out: what was written, ended by a
    /// line break if it is not empty and does not end with one already.
    pub open spec fn finished(self) -> Seq<char> {
        if self.at_line_start() {
            self.text
        } else {
            self.text.push('\n')
        }
    }
}

/// Writing one more character is putting it behind the others.
pub proof fn lemma_write_chars_push(st: Sink, s: Seq<char>, c: char)
    ensures
        st.write_chars(s.push(c)) == st.write_chars(s).put(c),
{
    assert(s.push(c).drop_last() =~= s);
}

/// A character that ends no line after a carriage return is kept where it
/// stands.
pub proof fn lemma_normalized_push(s: Seq<char>, c: char)
    requires
        c == '\n' ==> s.len() == 0 || s.last() != '\r',
    ensures
        line_ends_normalized(s.push(c)) == line_ends_normalized(s).push(c),
{
    assert(s.push(c).drop_last() =~= s);
}

/// A carriage return before a line break is left out.
pub proof fn lemma_normalized_return_break(s: Seq<char>)
    ensures
        line_ends_normalized(s.push('\r').push('\n')) == line_ends_normalized(s).push('\n'),
{
    let whole = s.push('\r').push('\n');
    assert(whole.drop_last().drop_last() =~= s);
}

/// `String::push` appends the character to the string.
pub assume_specification[ String::push ](s: &mut String, c: char)
    ensures
        final(s)@ == old(s)@.push(c),
;

/// The output sink: the text produced so far together with the indentation
/// in effect.  Fragments are written raw; the sink puts the margin in front
/// of every line that needs it.
pub struct FormatFile {
    /// Formatted code is appended to this buffer.
    out: Vec<char>,
    /// One entry for each level of indentation in effect.  The levels are
    /// held as a list and not as a number, so that no level can be lost to
    /// an overflow.
    levels: Vec<()>,
    /// Set to true when visiting a statement item
    is_stmt_item: bool,
}

impl View for FormatFile {
    type V = Sink;

    closed spec fn view(&self) -> Sink {
        Sink {
            text: self.out@,
            margin: spaces(self.levels@.len() * 4),
            after_item: self.is_stmt_item,
        }
    }
}

impl FormatFile {
    /// A sink with no text and no indentation.
    pub fn new() -> (f: FormatFile)
        ensures
            f@ == Sink::start(),
    {
        let f = FormatFile { out: Vec::new(), levels: Vec::new(), is_stmt_item: false };
        assert(f@.margin =~= Sink::start().margin);
        f
    }

    /// Whether the next character written would begin a fresh line.
    pub fn is_start_of_line(&self) -> (b: bool)
        ensures
            b == self@.at_line_start(),
    {
        let n = self.out.len();
        n == 0 || self.out[n - 1] == '\n'
    }

    /// The margin of a sink is made of spaces, four for each level of
    /// indentation in effect.
    pub proof fn lemma_margin_is_indentation(&self)
        ensures
            self@.margin == spaces(self@.depth() * 4),
    {
    }

    /// Writes the margin.
    pub fn push_spaces(&mut self)
        ensures
            final(self)@ == old(self)@.with_margin(),
            final(self)@.margin == old(self)@.margin,
    {
        let mut level: usize = 0;
        while level < self.levels.len()
            invariant
                level <= self.levels.len(),
                self.levels == old(self).levels,
                self.is_stmt_item == old(self).is_stmt_item,
                self.out@ == old(self).out@ + spaces(level as nat * 4),
            decreases self.levels.len() - level,
        {
            let mut i: usize = 0;
            while i < DEFAULT_INDENT
                invariant
                    i <= 4,
                    level < self.levels.len(),
                    self.levels == old(self).levels,
                    self.is_stmt_item == old(self).is_stmt_item,
                    self.out@ == old(self).out@ + spaces(level as nat * 4 + i as nat),
                decreases 4 - i,
            {
                self.out.push(' ');
                assert(self.out@ =~= old(self).out@ + spaces(level as nat * 4 + (i + 1) as nat));
                i = i + 1;
            }
            level = level + 1;
        }
    }

    /// Writes one character, after the margin where it begins a line.
    fn put(&mut self, c: char)
        ensures
            final(self)@ == old(self)@.put(c),
            final(self)@.margin == old(self)@.margin,
    {
        if c != '\n' && self.is_start_of_line() {
            self.push_spaces();
        }
        self.out.push(c);
    }

    /// Writes a fragment of text.  The fragment may span several lines; each
    /// non-blank line that begins in it is indented by the margin.  A line
    /// ends at a line break; a carriage return directly before it is dropped.
    pub fn write_str(&mut self, s: &str)
        ensures
            final(self)@ == old(self)@.write(s@),
            final(self)@.margin == old(self)@.margin,
    {
        // Whether the character read last is a carriage return, which is
        // written only once it is known that no line break follows it.
        let mut held = false;
        for c in it: s.chars()
            invariant
                it.seq() == s@,
                self@.margin == old(self)@.margin,
                held <==> it.index() > 0 && s@[it.index() - 1] == '\r',
                held ==> self@ == old(self)@.write_chars(
                    line_ends_normalized(s@.take(it.index() - 1)),
                ),
                !held ==> self@ == old(self)@.write_chars(
                    line_ends_normalized(s@.take(it.index() as int)),
                ),
        {
            let ghost read = s@.take(it.index() as int);
            proof {
                assert(s@.take(it.index() + 1) =~= read.push(c));
                if held {
                    assert(read =~= s@.take(it.index() - 1).push('\r'));
                }
            }
            if c == '\n' {
                proof {
                    if held {
                        lemma_normalized_return_break(s@.take(it.index() - 1));
                        lemma_write_chars_push(
                            old(self)@,
                            line_ends_normalized(s@.take(it.index() - 1)),
                            c,
                        );
                    } else {
                        lemma_normalized_push(read, c);
                        lemma_write_chars_push(old(self)@, line_ends_normalized(read), c);
                    }
                }
                self.put(c);
                held = false;
            } else {
                if held {
                    proof {
                        lemma_normalized_push(s@.take(it.index() - 1), '\r');
                        lemma_write_chars_push(
                            old(self)@,
                            line_ends_normalized(s@.take(it.index() - 1)),
                            '\r',
                        );
                    }
                    self.put('\r');
                }
                assert(self@ == old(self)@.write_chars(line_ends_normalized(read)));
                if c == '\r' {
                    held = true;
                } else {
                    proof {
                        lemma_normalized_push(read, c);
                        lemma_write_chars_push(old(self)@, line_ends_normalized(read), c);
                    }
                    held = false;
                    self.put(c);
                }
            }
        }
        proof {
            assert(s@.take(s@.len() as int) =~= s@);
        }
        if held {
            proof {
                assert(s@ =~= s@.take(s@.len() - 1).push('\r'));
                lemma_normalized_push(s@.take(s@.len() - 1), '\r');
                lemma_write_chars_push(
                    old(self)@,
                    line_ends_normalized(s@.take(s@.len() - 1)),
                    '\r',
                );
            }
            self.put('\r');
        }
    }

    /// Notes whether the statement rendered last was a declaration.
    pub fn set_stmt_item(&mut self, is_stmt_item: bool)
        ensures
            final(self)@ == old(self)@.flagged(is_stmt_item),
            final(self)@.margin == old(self)@.margin,
    {
        self.is_stmt_item = is_stmt_item;
    }

    /// Whether the statement rendered last was a declaration.
    pub fn is_stmt_item(&self) -> (b: bool)
        ensures
            b == self@.after_item,
    {
        self.is_stmt_item
    }

    /// Makes the indentation one level deeper.
    fn enter(&mut self)
        ensures
            final(self)@ == old(self)@.indented(),
    {
        self.levels.push(());
        assert(spaces(old(self).levels@.len() * 4) + spaces(4) =~= spaces(
            (old(self).levels@.len() + 1) * 4,
        ));
    }

    /// Takes the indentation one level back.
    fn leave(&mut self)
        ensures
            final(self)@ == old(self)@.dedented(),
    {
        let _ = self.levels.pop();
        assert(self@.margin =~= old(self)@.dedented().margin);
    }

    /// Runs `f` on the sink one indentation level deeper, and takes the
    /// level back afterwards, whatever `f` returned.
    pub fn indent<F, R>(&mut self, f: F) -> (res: R) where F: FnOnce(&mut FormatFile) -> R
        requires
            forall|v: &mut FormatFile| v@ == old(self)@.indented() ==> call_requires(f, (v,)),
        ensures
            exists|v: &mut FormatFile|
                v@ == old(self)@.indented() && #[trigger] call_ensures(f, (v,), res)
                    && final(self)@ == final(v)@.dedented(),
            (forall|v: &mut FormatFile, r: R| #[trigger]
                call_ensures(f, (v,), r) ==> final(v)@.margin == v@.margin) ==> final(self)@.margin
                == old(self)@.margin,
    {
        self.enter();
        let res = f(self);
        self.leave();
        res
    }

    /// Opens a scope: a space unless a line begins, the opening brace and a
    /// line break.
    fn open(&mut self)
        ensures
            final(self)@ == old(self)@.gap().write("{\n"@),
            final(self)@.margin == old(self)@.margin,
    {
        if !self.is_start_of_line() {
            self.write_str(" ");
        }
        self.write_str("{\n");
    }

    /// Renders a scope that ends its line: the opening brace, what `f`
    /// writes one indentation level deeper, the closing brace, a line break.
    /// The indentation level is taken back whatever `f` returned.
    pub fn block<F, R>(&mut self, f: F) -> (res: R) where F: FnOnce(&mut FormatFile) -> R
        requires
            forall|v: &mut FormatFile| v@ == old(self)@.opened() ==> call_requires(f, (v,)),
        ensures
            exists|v: &mut FormatFile|
                v@ == old(self)@.opened() && #[trigger] call_ensures(f, (v,), res)
                    && final(self)@ == final(v)@.closed(true),
            (forall|v: &mut FormatFile, r: R| #[trigger]
                call_ensures(f, (v,), r) ==> final(v)@.margin == v@.margin) ==> final(self)@.margin
                == old(self)@.margin,
    {
        self.open();
        let res = self.indent(f);
        self.write_str("}\n");
        res
    }

    /// Renders a scope inside a line: as `block`, without the line break
    /// after the closing brace.
    pub fn block_no_nl<F, R>(&mut self, f: F) -> (res: R) where F: FnOnce(&mut FormatFile) -> R
        requires
            forall|v: &mut FormatFile| v@ == old(self)@.opened() ==> call_requires(f, (v,)),
        ensures
            exists|v: &mut FormatFile|
                v@ == old(self)@.opened() && #[trigger] call_ensures(f, (v,), res)
                    && final(self)@ == final(v)@.closed(false),
            (forall|v: &mut FormatFile, r: R| #[trigger]
                call_ensures(f, (v,), r) ==> final(v)@.margin == v@.margin) ==> final(self)@.margin
                == old(self)@.margin,
    {
        self.open();
        let res = self.indent(f);
        self.write_str("}");
        res
    }

    /// Writes a documentation comment: `//!` for one that documents what
    /// encloses it, `///` for one that documents what follows, then the text
    /// as it is and a line break.
    pub fn visit_doc_comment(&mut self, is_inner: bool, value: &str)
        ensures
            final(self)@.margin == old(self)@.margin,
            final(self)@ == if is_inner {
                old(self)@.write("//!"@).write(value@).write("\n"@)
            } else {
                old(self)@.write("///"@).write(value@).write("\n"@)
            },
    {
        if is_inner {
            self.write_str("//!");
        } else {
            self.write_str("///");
        }
        self.write_str(value);
        self.write_str("\n");
    }

    /// Hands out the text, ended by a line break if it is not empty and does
    /// not end with one already.
    pub fn finish(self) -> (text: String)
        ensures
            text@ == self@.finished(),
    {
        let mut text = String::new();
        let mut i: usize = 0;
        while i < self.out.len()
            invariant
                i <= self.out.len(),
                text@ == self.out@.take(i as int),
            decreases self.out.len() - i,
        {
            text.push(self.out[i]);
            assert(self.out@.take(i + 1) =~= self.out@.take(i as int).push(self.out@[i as int]));
            i = i + 1;
        }
        assert(self.out@.take(self.out@.len() as int) =~= self.out@);
        if !self.is_start_of_line() {
            text.push('\n');
        }
        text
    }
}

} // verus!
