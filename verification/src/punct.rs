use vstd::prelude::*;

verus! {

/// How a separator is surrounded by whitespace in a delimited sequence.
#[derive(Clone, Copy, Debug, PartialEq, Eq)]
pub enum Space {
    /// Nothing on either side, as between the segments of a path.
    NoSpace,
    /// One space on both sides, as between the bounds of a type parameter.
    SpaceBoth,
    /// One space after the separator, as between the arguments of a call.
    SpaceRight,
    /// A line break after the separator, as between the fields of a struct.
    NewLine,
}

impl Space {
    /// The text written before the separator.
    pub open spec fn before(self) -> Seq<char> {
        match self {
            Space::SpaceBoth => " "@,
            _ => ""@,
        }
    }

    /// The text written after the separator.
    pub open spec fn after(self) -> Seq<char> {
        match self {
            Space::NoSpace => ""@,
            Space::SpaceBoth => " "@,
            Space::SpaceRight => " "@,
            Space::NewLine => "\n"@,
        }
    }

    /// The text before the separator.
    pub fn left(&self) -> (s: &'static str)
        ensures
            s@ == self.before(),
    {
        match self {
            Space::SpaceBoth => " ",
            _ => "",
        }
    }

    /// The text after the separator.
    pub fn right(&self) -> (s: &'static str)
        ensures
            s@ == self.after(),
    {
        match self {
            Space::NoSpace => "",
            Space::SpaceBoth => " ",
            Space::SpaceRight => " ",
            Space::NewLine => "\n",
        }
    }
}

/// A separator token of a delimited sequence.
pub trait Punctuation {
    /// The characters of the token.
    spec fn text(&self) -> Seq<char>;

    fn as_str(&self) -> (s: &str)
        ensures
            s@ == self.text(),
    ;
}

/// The token `+`.
#[derive(Clone, Copy, Debug)]
pub struct Add;

/// The token `,`.
#[derive(Clone, Copy, Debug)]
pub struct Comma;

/// The token `::`.
#[derive(Clone, Copy, Debug)]
pub struct Colon2;

/// The token `|`.
#[derive(Clone, Copy, Debug)]
pub struct Or;

impl Punctuation for Add {
    open spec fn text(&self) -> Seq<char> {
        "+"@
    }

    fn as_str(&self) -> (s: &str) {
        "+"
    }
}

impl Punctuation for Comma {
    open spec fn text(&self) -> Seq<char> {
        ","@
    }

    fn as_str(&self) -> (s: &str) {
        ","
    }
}

impl Punctuation for Colon2 {
    open spec fn text(&self) -> Seq<char> {
        "::"@
    }

    fn as_str(&self) -> (s: &str) {
        "::"
    }
}

impl Punctuation for Or {
    open spec fn text(&self) -> Seq<char> {
        "|"@
    }

    fn as_str(&self) -> (s: &str) {
        "|"
    }
}

/// One element of a delimited sequence with the separator that follows it,
/// if there is one.
#[derive(Debug)]
pub struct Pair<T, U> {
    pub value: T,
    pub punct: Option<U>,
}

/// A sequence of elements, each optionally followed by a separator.
///
/// The elements are rendered in the order in which they are held.  Whether
/// the last element is followed by a separator is part of the data.
#[derive(Debug)]
pub struct Punctuated<T, U> {
    pub pairs: Vec<Pair<T, U>>,
}

impl<T, U> Punctuated<T, U> {
    /// The number of pairs that hold a separator.
    pub open spec fn separators(pairs: Seq<Pair<T, U>>) -> nat
        decreases pairs.len(),
    {
        if pairs.len() == 0 {
            0
        } else {
            Self::separators(pairs.drop_last()) + if pairs.last().punct is Some {
                1nat
            } else {
                0nat
            }
        }
    }

    /// Whether only the last pair may be without a separator, as in a
    /// sequence that was parsed.
    pub open spec fn well_formed(pairs: Seq<Pair<T, U>>) -> bool {
        forall|i: int| 0 <= i < pairs.len() - 1 ==> (#[trigger] pairs[i]).punct is Some
    }

    /// In a well-formed sequence every element but the last is followed by a
    /// separator, so the sequence holds as many separators as elements where
    /// a trailing one is present, and one less where none is.
    pub proof fn lemma_separators_of_well_formed(pairs: Seq<Pair<T, U>>)
        requires
            Self::well_formed(pairs),
        ensures
            pairs.len() == 0 ==> Self::separators(pairs) == 0,
            pairs.len() > 0 && pairs.last().punct is Some ==> Self::separators(pairs)
                == pairs.len(),
            pairs.len() > 0 && pairs.last().punct is None ==> Self::separators(pairs)
                == pairs.len() - 1,
        decreases pairs.len(),
    {
        if pairs.len() > 1 {
            let shorter = pairs.drop_last();
            assert(Self::well_formed(shorter)) by {
                assert forall|i: int| 0 <= i < shorter.len() - 1 implies (#[trigger]
                    shorter[i]).punct is Some by {
                    assert(shorter[i] == pairs[i]);
                }
            }
            assert(shorter.last() == pairs[pairs.len() - 2]);
            Self::lemma_separators_of_well_formed(shorter);
        } else if pairs.len() == 1 {
            assert(Self::separators(pairs.drop_last()) == 0);
        }
    }

    /// An empty sequence.
    pub fn new() -> (p: Self)
        ensures
            p.pairs@.len() == 0,
    {
        Punctuated { pairs: Vec::new() }
    }

    /// Whether the sequence holds no element.
    pub fn is_empty(&self) -> (b: bool)
        ensures
            b == (self.pairs@.len() == 0),
    {
        self.pairs.len() == 0
    }
}

/// Taking one more element of a sequence adds it behind those taken before.
pub proof fn lemma_take_next<T>(s: Seq<T>, i: int)
    requires
        0 <= i < s.len(),
    ensures
        s.take(i + 1).len() == i + 1,
        s.take(i + 1).drop_last() == s.take(i),
        s.take(i + 1).last() == s[i],
{
    assert(s.take(i + 1).drop_last() =~= s.take(i));
}

/// Taking every element of a sequence gives the sequence.
pub proof fn lemma_take_all<T>(s: Seq<T>)
    ensures
        s.take(s.len() as int) == s,
{
    assert(s.take(s.len() as int) =~= s);
}

} // verus!
