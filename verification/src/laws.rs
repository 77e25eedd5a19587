//! What holds of the output whatever is written to the sink and whatever
//! tree is rendered.

use crate::render::{
    attribute_supported, emit_attribute, emit_attrs, emit_file, emit_item, emit_items,
    file_supported, file_text, item_supported,
};
use crate::sink::{line_ends_normalized, spaces, FormatFile, Sink};
use crate::syntax::{Attribute, Fields, File, Item};
use vstd::prelude::*;

verus! {

/// The lines of a text: what stands between its line breaks.  A text of `n`
/// line breaks has `n + 1` lines; the last one is empty where the text is
/// empty or ends with a line break.
pub open spec fn lines(s: Seq<char>) -> Seq<Seq<char>>
    decreases s.len(),
{
    if s.len() == 0 {
        seq![Seq::empty()]
    } else if s.last() == '\n' {
        lines(s.drop_last()).push(Seq::empty())
    } else {
        let before = lines(s.drop_last());
        before.drop_last().push(before.last().push(s.last()))
    }
}

/// A line as the sink writes it: behind the margin, unless it is blank.
pub open spec fn indent_line(margin: Seq<char>, line: Seq<char>) -> Seq<char> {
    if line.len() == 0 {
        line
    } else {
        margin + line
    }
}

/// The lines of the output after a fragment is written.  `before` are the
/// lines of the output so far and `fragment` those of the fragment.  The
/// first line of the fragment goes on with the last line of the output, and
/// is indented where that line was still blank; every further line of the
/// fragment is a line of its own, indented unless it is blank.
pub open spec fn lines_after_write(
    before: Seq<Seq<char>>,
    margin: Seq<char>,
    fragment: Seq<Seq<char>>,
) -> Seq<Seq<char>>
    recommends
        before.len() > 0,
        fragment.len() > 0,
{
    let joint = if before.last().len() == 0 {
        indent_line(margin, fragment[0])
    } else {
        before.last() + fragment[0]
    };
    before.drop_last().push(joint) + Seq::new(
        (fragment.len() - 1) as nat,
        |j: int| indent_line(margin, fragment[j + 1]),
    )
}

/// A text has at least one line, and its last line is blank exactly where
/// the next character would begin a line.
pub proof fn lemma_lines_last(s: Seq<char>)
    ensures
        lines(s).len() > 0,
        lines(s).last().len() == 0 <==> (s.len() == 0 || s.last() == '\n'),
    decreases s.len(),
{
    if s.len() > 0 {
        lemma_lines_last(s.drop_last());
    }
}

/// Characters other than line breaks go on with the last line.
pub proof fn lemma_lines_append(s: Seq<char>, more: Seq<char>)
    requires
        forall|i: int| 0 <= i < more.len() ==> more[i] != '\n',
    ensures
        lines(s + more) == lines(s).drop_last().push(lines(s).last() + more),
    decreases more.len(),
{
    lemma_lines_last(s);
    if more.len() == 0 {
        assert(s + more =~= s);
        assert(lines(s).last() + more =~= lines(s).last());
        assert(lines(s).drop_last().push(lines(s).last()) =~= lines(s));
    } else {
        let shorter = more.drop_last();
        lemma_lines_append(s, shorter);
        assert((s + more).drop_last() =~= s + shorter);
        assert((s + more).last() == more.last());
        let before = lines(s + shorter);
        assert(before.last().push(more.last()) =~= lines(s).last() + more);
        assert(before.drop_last() =~= lines(s).drop_last());
    }
}

/// Writing characters does not change the margin.
pub proof fn lemma_write_chars_keeps_margin(st: Sink, s: Seq<char>)
    ensures
        st.write_chars(s).margin == st.margin,
    decreases s.len(),
{
    if s.len() > 0 {
        lemma_write_chars_keeps_margin(st, s.drop_last());
    }
}

/// Writing does not change the margin.
pub proof fn lemma_write_keeps_margin(st: Sink, s: Seq<char>)
    ensures
        st.write(s).margin == st.margin,
{
    lemma_write_chars_keeps_margin(st, line_ends_normalized(s));
}

/// The lines of the output after characters are written, for a margin of
/// spaces.
proof fn lemma_write_chars_indents(st: Sink, depth: nat, s: Seq<char>)
    requires
        st.margin == spaces(depth * 4),
    ensures
        lines(st.write_chars(s).text) == lines_after_write(
            lines(st.text),
            spaces(depth * 4),
            lines(s),
        ),
    decreases s.len(),
{
    let margin = st.margin;
    let before = lines(st.text);
    lemma_lines_last(st.text);
    lemma_lines_last(s);
    if s.len() == 0 {
        assert(lines_after_write(before, margin, lines(s)) =~= before);
    } else {
        let shorter = s.drop_last();
        let c = s.last();
        let mid = st.write_chars(shorter);
        let fragment = lines(shorter);
        let reached = lines(mid.text);
        lemma_write_chars_indents(st, depth, shorter);
        lemma_write_chars_keeps_margin(st, shorter);
        lemma_lines_last(shorter);
        lemma_lines_last(mid.text);
        assert(reached == lines_after_write(before, margin, fragment));
        if c == '\n' {
            assert(mid.put(c).text.drop_last() =~= mid.text);
            assert(lines_after_write(before, margin, fragment.push(Seq::empty()))
                =~= reached.push(Seq::empty()));
        } else if mid.at_line_start() {
            let grown = fragment.drop_last().push(fragment.last().push(c));
            assert(lines(s) == grown);
            assert(mid.put(c).text =~= mid.text + margin.push(c));
            assert forall|i: int| 0 <= i < margin.push(c).len() implies margin.push(c)[i]
                != '\n' by {}
            lemma_lines_append(mid.text, margin.push(c));
            assert(reached.last() + margin.push(c) =~= margin.push(c));
            assert(fragment.last().len() == 0);
            assert(fragment.last().push(c) =~= seq![c]);
            assert(margin + seq![c] =~= margin.push(c));
            assert(lines_after_write(before, margin, grown) =~= reached.drop_last().push(
                margin.push(c),
            ));
        } else {
            let grown = fragment.drop_last().push(fragment.last().push(c));
            assert(lines(s) == grown);
            assert(mid.put(c).text.drop_last() =~= mid.text);
            assert(reached.last().len() > 0);
            if fragment.len() == 1 {
                if before.last().len() == 0 {
                    assert(fragment[0].len() > 0);
                    assert(margin + fragment[0].push(c) =~= (margin + fragment[0]).push(c));
                } else {
                    assert(before.last() + fragment[0].push(c) =~= (before.last()
                        + fragment[0]).push(c));
                }
            } else {
                assert(fragment.last().len() > 0);
                assert(margin + fragment.last().push(c) =~= (margin + fragment.last()).push(c));
            }
            assert(lines_after_write(before, margin, grown) =~= reached.drop_last().push(
                reached.last().push(c),
            ));
        }
    }
}

/// The indentation law of the sink.
///
/// Inside `depth` nested scopes the margin is `depth` times four spaces.
/// Whatever fragment is written there, every line that begins in it and is
/// not blank begins with exactly that margin, followed by the line as the
/// fragment gave it; blank lines stay blank, and what was written before is
/// not touched.
pub proof fn lemma_write_indents(st: Sink, depth: nat, s: Seq<char>)
    requires
        st.margin == spaces(depth * 4),
    ensures
        lines(st.write(s).text) == lines_after_write(
            lines(st.text),
            spaces(depth * 4),
            lines(line_ends_normalized(s)),
        ),
{
    lemma_write_chars_indents(st, depth, line_ends_normalized(s));
}

/// The indentation law, of any sink.
///
/// The margin of a sink is four spaces for each level of indentation in
/// effect.  So whatever the sink holds and whatever fragment is written to
/// it, every line that begins in the fragment and is not blank begins with
/// exactly four spaces for each level, followed by the line as the fragment
/// gave it.
pub proof fn lemma_sink_write_indents(sink: &FormatFile, s: Seq<char>)
    ensures
        sink@.margin == spaces(sink@.depth() * 4),
        lines(sink@.write(s).text) == lines_after_write(
            lines(sink@.text),
            spaces(sink@.depth() * 4),
            lines(line_ends_normalized(s)),
        ),
{
    sink.lemma_margin_is_indentation();
    lemma_write_indents(sink@, sink@.depth(), s);
}

/// The scope law of the sink.
///
/// Opening a scope makes the indentation one level deeper, and closing it
/// takes that level back: what is rendered between the two is rendered one
/// level deeper than what stands around the scope, and what follows the
/// scope is indented as what preceded it.
pub proof fn lemma_scope_depth(st: Sink, depth: nat, inner: Sink, newline: bool)
    requires
        st.margin == spaces(depth * 4),
        inner.margin == st.opened().margin,
    ensures
        st.opened().margin == spaces((depth + 1) * 4),
        st.opened().depth() == depth + 1,
        inner.closed(newline).margin == st.margin,
        inner.closed(newline).depth() == depth,
{
    lemma_write_keeps_margin(st, " "@);
    lemma_write_keeps_margin(st.gap(), "{\n"@);
    assert(spaces(depth * 4) + spaces(4) =~= spaces((depth + 1) * 4));
    assert(inner.dedented().margin =~= st.margin);
    lemma_write_keeps_margin(inner.dedented(), "}\n"@);
    lemma_write_keeps_margin(inner.dedented(), "}"@);
}

/// The indentation law of scopes.
///
/// A fragment written into a scope that was opened inside `depth` nested
/// scopes is laid out `depth + 1` levels deep: each of its lines that is not
/// blank stands behind exactly `(depth + 1)` times four spaces.
pub proof fn lemma_scope_indents(st: Sink, depth: nat, s: Seq<char>)
    requires
        st.margin == spaces(depth * 4),
    ensures
        lines(st.opened().write(s).text) == lines_after_write(
            lines(st.opened().text),
            spaces((depth + 1) * 4),
            lines(line_ends_normalized(s)),
        ),
        st.opened().at_line_start(),
{
    reveal_strlit("{\n");
    lemma_scope_depth(st, depth, st.opened(), false);
    lemma_write_indents(st.opened(), depth + 1, s);
    lemma_write_line_start(st.gap(), "{\n"@);
}

/// The indentation law of scopes, of any sink.
///
/// Whatever the sink holds, a scope opened on it is one level deeper than
/// the sink, a fragment written into the scope is laid out at that depth,
/// and closing the scope gives back the margin that the sink had.
pub proof fn lemma_sink_scope_indents(sink: &FormatFile, s: Seq<char>, newline: bool)
    ensures
        sink@.opened().depth() == sink@.depth() + 1,
        lines(sink@.opened().write(s).text) == lines_after_write(
            lines(sink@.opened().text),
            spaces((sink@.depth() + 1) * 4),
            lines(line_ends_normalized(s)),
        ),
        sink@.opened().write(s).closed(newline).margin == sink@.margin,
{
    sink.lemma_margin_is_indentation();
    lemma_scope_indents(sink@, sink@.depth(), s);
    lemma_write_keeps_margin(sink@.opened(), s);
    lemma_scope_depth(sink@, sink@.depth(), sink@.opened().write(s), newline);
}

/// The trailing line break of finished output.
///
/// Finished output is empty or ends with a line break.  It is the text that
/// was written, or that text with one line break added; a line break is only
/// added behind a character that is none, so that no blank line comes to
/// stand at the end that was not written.
pub proof fn lemma_finished_ends_line(st: Sink)
    ensures
        st.finished().len() == 0 <==> st.text.len() == 0,
        st.finished().len() > 0 ==> st.finished().last() == '\n',
        st.finished() == st.text || (st.finished() == st.text.push('\n') && st.text.len() > 0
            && st.text.last() != '\n'),
{
}

/// Writing characters makes the text longer by at least their number.
pub proof fn lemma_write_chars_grows(st: Sink, s: Seq<char>)
    ensures
        st.write_chars(s).text.len() >= st.text.len() + s.len(),
    decreases s.len(),
{
    if s.len() > 0 {
        lemma_write_chars_grows(st, s.drop_last());
    }
}

/// Writing never takes text away, and writing a fragment that is not empty
/// leaves text that is not empty.
pub proof fn lemma_write_grows(st: Sink, s: Seq<char>)
    ensures
        st.write(s).text.len() >= st.text.len(),
        s.len() > 0 ==> st.write(s).text.len() > 0,
{
    lemma_write_chars_grows(st, line_ends_normalized(s));
}

/// The line-start law of the sink.
///
/// After a fragment that is not empty is written, the next character begins
/// a line exactly if the last character of the fragment is a line break.
pub proof fn lemma_write_line_start(st: Sink, s: Seq<char>)
    requires
        s.len() > 0,
    ensures
        st.write(s).at_line_start() <==> s.last() == '\n',
{
    let kept = line_ends_normalized(s);
    assert(kept.len() > 0 && kept.last() == s.last());
    assert(st.write(s) == st.write_chars(kept.drop_last()).put(kept.last()));
}

/// A supported attribute writes at least the line break that ends it.
proof fn lemma_attribute_writes(st: Sink, a: Attribute)
    requires
        attribute_supported(a),
    ensures
        emit_attribute(st, a).text.len() > 0,
{
    reveal_strlit("\n");
    reveal_strlit("]\n");
    let written = emit_attribute(st, a);
    assert(exists|before: Sink| written == before.write("\n"@) || written == before.write("]\n"@));
    let before = choose|before: Sink|
        written == before.write("\n"@) || written == before.write("]\n"@);
    lemma_write_grows(before, "\n"@);
    lemma_write_grows(before, "]\n"@);
}

/// A supported declaration writes at least one character.
proof fn lemma_item_writes(st: Sink, i: Item)
    requires
        item_supported(i),
    ensures
        emit_item(st, i).text.len() > 0,
{
    reveal_strlit(";\n");
    reveal_strlit(";");
    reveal_strlit("}\n");
    reveal_strlit(">");
    reveal_strlit("struct ");
    let written = emit_item(st, i);
    match i {
        Item::Struct(s) => {
            if !s.semi_token && s.fields is Unit && s.generics.params.pairs@.len() == 0 {
                assert(exists|before: Sink| written == before.write("struct "@).write(s.ident@));
                let before = choose|before: Sink|
                    written == before.write("struct "@).write(s.ident@);
                lemma_write_grows(before, "struct "@);
                lemma_write_grows(before.write("struct "@), s.ident@);
            } else {
                assert(exists|before: Sink|
                    written == before.write(";"@) || written == before.write("}\n"@) || written
                        == before.write(">"@));
                let before = choose|before: Sink|
                    written == before.write(";"@) || written == before.write("}\n"@) || written
                        == before.write(">"@);
                lemma_write_grows(before, ";"@);
                lemma_write_grows(before, "}\n"@);
                lemma_write_grows(before, ">"@);
            }
        },
        _ => {
            assert(exists|before: Sink|
                written == before.write(";\n"@) || written == before.write(";"@) || written
                    == before.write("}\n"@));
            let before = choose|before: Sink|
                written == before.write(";\n"@) || written == before.write(";"@) || written
                    == before.write("}\n"@);
            lemma_write_grows(before, ";\n"@);
            lemma_write_grows(before, ";"@);
            lemma_write_grows(before, "}\n"@);
        },
    }
}

/// The trailing line break of a formatted file.
///
/// The text of a supported file that holds at least one attribute or
/// declaration is not empty, and its last character is a line break.
pub proof fn lemma_file_text_ends_line(f: File)
    requires
        file_supported(f),
        f.attrs@.len() > 0 || f.items@.len() > 0,
    ensures
        file_text(f).len() > 0,
        file_text(f).last() == '\n',
{
    let after_attrs = emit_attrs(Sink::start(), f.attrs@, None);
    if f.items@.len() > 0 {
        lemma_item_writes(emit_items(after_attrs, f.items@.drop_last()), f.items@.last());
    } else {
        lemma_attribute_writes(
            emit_attrs(Sink::start(), f.attrs@.drop_last(), None),
            f.attrs@.last(),
        );
    }
    lemma_finished_ends_line(emit_file(Sink::start(), f));
}

} // verus!
