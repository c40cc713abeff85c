use crate::position::Position;
use vstd::prelude::*;

verus! {

/// The lines of `text`, split at each `'\n'`. The separators belong to no
/// line; a text that ends in `'\n'` has an empty last line, and the empty
/// text is one empty line.
pub open spec fn lines_of(text: Seq<char>) -> Seq<Seq<char>>
    decreases text.len(),
{
    if text.len() == 0 {
        seq![Seq::empty()]
    } else {
        let init = lines_of(text.drop_last());
        if text.last() == '\n' {
            init.push(Seq::empty())
        } else {
            init.update(init.len() - 1, init.last().push(text.last()))
        }
    }
}

/// Every text has at least one line.
pub proof fn lemma_lines_of_nonempty(text: Seq<char>)
    ensures
        lines_of(text).len() >= 1,
    decreases text.len(),
{
    if text.len() > 0 {
        lemma_lines_of_nonempty(text.drop_last());
    }
}

/// The shape of a text: how many lines it has and how many characters each
/// line holds. Cursors are checked against it on every move.
pub struct TextStore {
    line_lengths: Vec<usize>,
}

impl View for TextStore {
    /// The character count of each line, in order.
    type V = Seq<usize>;

    closed spec fn view(&self) -> Seq<usize> {
        self.line_lengths@
    }
}

impl TextStore {
    /// `(line, offset)` addresses a character of an existing line, or the
    /// slot just after its last character.
    pub open spec fn accepts(&self, line: int, offset: int) -> bool {
        0 <= line < self@.len() && 0 <= offset <= self@[line]
    }

    /// The length of `line`, if the text has that line.
    pub open spec fn length_of(&self, line: int) -> Option<usize> {
        if 0 <= line < self@.len() {
            Some(self@[line])
        } else {
            None
        }
    }

    /// The store for `content`: one entry per line of it.
    pub fn new(content: String) -> (r: TextStore)
        ensures
            r@.len() == lines_of(content@).len(),
            forall|i: int| 0 <= i < r@.len() ==> r@[i] == lines_of(content@)[i].len(),
    {
        broadcast use vstd::string::axiom_spec_iter;
        let ghost text = content@;
        let n = content.as_str().unicode_len();
        let mut line_lengths: Vec<usize> = Vec::new();
        let mut current: usize = 0;
        for c in it: content.as_str().chars()
            invariant
                n == text.len(),
                it.seq() == text,
                line_lengths@.len() + 1 == lines_of(text.take(it.index() as int)).len(),
                forall|j: int|
                    0 <= j < line_lengths@.len() ==> line_lengths@[j] == lines_of(
                        text.take(it.index() as int),
                    )[j].len(),
                current == lines_of(text.take(it.index() as int)).last().len(),
                current <= it.index(),
        {
            proof {
                let i = it.index() as int;
                let prefix = text.take(i);
                let next = text.take(i + 1);
                assert(next.drop_last() =~= prefix);
                assert(next.last() == c);
                lemma_lines_of_nonempty(prefix);
                assert(lines_of(next) == if c == '\n' {
                    lines_of(prefix).push(Seq::empty())
                } else {
                    lines_of(prefix).update(
                        lines_of(prefix).len() - 1,
                        lines_of(prefix).last().push(c),
                    )
                });
            }
            if c == '\n' {
                line_lengths.push(current);
                current = 0;
            } else {
                current = current + 1;
            }
        }
        line_lengths.push(current);
        proof {
            assert(text.take(text.len() as int) =~= text);
        }
        TextStore { line_lengths }
    }

    /// Whether `position` addresses a slot of the text.
    pub fn in_bounds(&self, position: &Position) -> (r: bool)
        ensures
            r == self.accepts(position.line as int, position.offset as int),
    {
        position.line < self.line_lengths.len() && position.offset
            <= self.line_lengths[position.line]
    }

    /// The character count of `line`, or `None` past the last line.
    pub fn line_length(&self, line: usize) -> (r: Option<usize>)
        ensures
            r == self.length_of(line as int),
    {
        if line < self.line_lengths.len() {
            Some(self.line_lengths[line])
        } else {
            None
        }
    }
}

} // verus!
