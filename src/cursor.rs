use crate::position::Position;
use crate::text_store::TextStore;
use vstd::prelude::*;

verus! {

/// Cursor state after trying to commit `(line, offset)`: adopted, with the
/// sticky offset following it, when the store accepts it; otherwise `s`.
pub open spec fn moved_to(s: (Position, usize), store: TextStore, line: int, offset: int) -> (
    Position,
    usize,
) {
    if store.accepts(line, offset) {
        (Position { line: line as usize, offset: offset as usize }, offset as usize)
    } else {
        s
    }
}

/// Cursor state after a vertical move onto `line`: the sticky offset there
/// if the line is long enough, else the end of that line with the sticky
/// offset kept for a later move; unchanged when there is no such line.
pub open spec fn moved_vertically(s: (Position, usize), store: TextStore, line: int) -> (
    Position,
    usize,
) {
    if store.accepts(line, s.1 as int) {
        (Position { line: line as usize, offset: s.1 }, s.1)
    } else if 0 <= line < store@.len() {
        (Position { line: line as usize, offset: store@[line] }, s.1)
    } else {
        s
    }
}

/// Cursor state after moving one line up; the first line has none above it.
pub open spec fn moved_up(s: (Position, usize), store: TextStore) -> (Position, usize) {
    if s.0.line == 0 {
        s
    } else {
        moved_vertically(s, store, s.0.line - 1)
    }
}

/// Cursor state after moving one line down; no line index lies past `usize::MAX`.
pub open spec fn moved_down(s: (Position, usize), store: TextStore) -> (Position, usize) {
    if s.0.line == usize::MAX {
        s
    } else {
        moved_vertically(s, store, s.0.line + 1)
    }
}

/// Cursor state after moving one character left; a line's start has none.
pub open spec fn moved_left(s: (Position, usize), store: TextStore) -> (Position, usize) {
    if s.0.offset == 0 {
        s
    } else {
        moved_to(s, store, s.0.line as int, s.0.offset - 1)
    }
}

/// Cursor state after moving one character right.
pub open spec fn moved_right(s: (Position, usize), store: TextStore) -> (Position, usize) {
    moved_to(s, store, s.0.line as int, s.0.offset + 1)
}

/// Cursor state after moving to offset 0 of the current line.
pub open spec fn moved_to_start_of_line(s: (Position, usize), store: TextStore) -> (
    Position,
    usize,
) {
    moved_to(s, store, s.0.line as int, 0)
}

/// Cursor state after moving past the last character of the current line;
/// unchanged when the store has no such line.
pub open spec fn moved_to_end_of_line(s: (Position, usize), store: TextStore) -> (
    Position,
    usize,
) {
    match store.length_of(s.0.line as int) {
        Some(len) => moved_to(s, store, s.0.line as int, len as int),
        None => s,
    }
}

/// A position in a text together with the offset that vertical moves try
/// to keep. The position only changes through a bounds check against the
/// store handed to each move.
#[derive(Clone, Debug)]
pub struct Cursor {
    position: Position,
    sticky_offset: usize,
}

impl View for Cursor {
    /// The committed position and the sticky offset.
    type V = (Position, usize);

    closed spec fn view(&self) -> (Position, usize) {
        (self.position, self.sticky_offset)
    }
}

impl std::ops::Deref for Cursor {
    type Target = Position;

    fn deref(&self) -> (r: &Position)
        ensures
            *r == self@.0,
    {
        &self.position
    }
}

/// A cursor at `(line, offset)`, whose sticky offset is `offset`.
pub fn new(line: usize, offset: usize) -> (r: Cursor)
    ensures
        r@ == (Position { line, offset }, offset),
{
    Cursor { position: Position { line, offset }, sticky_offset: offset }
}

impl Cursor {
    /// The committed position.
    pub fn position(&self) -> (r: Position)
        ensures
            r == self@.0,
    {
        self.position
    }

    /// The offset that vertical moves try to reach.
    pub fn sticky_offset(&self) -> (r: usize)
        ensures
            r == self@.1,
    {
        self.sticky_offset
    }

    /// Moves to `position` if `store` accepts it, and then remembers its
    /// offset for vertical moves; otherwise leaves the cursor as it is.
    /// Returns whether the cursor moved.
    pub fn move_to(&mut self, store: &TextStore, position: Position) -> (r: bool)
        ensures
            r == store.accepts(position.line as int, position.offset as int),
            final(self)@ == moved_to(old(self)@, *store, position.line as int, position.offset as int),
            r ==> final(self)@ == (position, position.offset),
            !r ==> *final(self) == *old(self),
    {
        if store.in_bounds(&position) {
            self.position = position;
            self.sticky_offset = position.offset;
            true
        } else {
            false
        }
    }

    fn move_vertically(&mut self, store: &TextStore, target_line: usize)
        ensures
            final(self)@ == moved_vertically(old(self)@, *store, target_line as int),
    {
        let desired = self.sticky_offset;
        if !self.move_to(store, Position { line: target_line, offset: desired }) {
            match store.line_length(target_line) {
                Some(len) => {
                    self.move_to(store, Position { line: target_line, offset: len });
                    self.sticky_offset = desired;
                },
                None => {},
            }
        }
    }

    /// Moves one line up, see `moved_up`; does nothing on the first line.
    pub fn move_up(&mut self, store: &TextStore)
        ensures
            final(self)@ == moved_up(old(self)@, *store),
            old(self)@.0.line == 0 ==> *final(self) == *old(self),
    {
        if self.position.line == 0 {
            return ;
        }
        self.move_vertically(store, self.position.line - 1);
    }

    /// Moves one line down, see `moved_down`; the store decides whether
    /// there is a line below.
    pub fn move_down(&mut self, store: &TextStore)
        ensures
            final(self)@ == moved_down(old(self)@, *store),
    {
        if self.position.line == usize::MAX {
            return ;
        }
        self.move_vertically(store, self.position.line + 1);
    }

    /// Moves one character left; does nothing at the start of a line.
    pub fn move_left(&mut self, store: &TextStore)
        ensures
            final(self)@ == moved_left(old(self)@, *store),
            old(self)@.0.offset == 0 ==> *final(self) == *old(self),
    {
        if self.position.offset == 0 {
            return ;
        }
        let target = Position { line: self.position.line, offset: self.position.offset - 1 };
        self.move_to(store, target);
    }

    /// Moves one character right, if the store accepts that position.
    pub fn move_right(&mut self, store: &TextStore)
        ensures
            final(self)@ == moved_right(old(self)@, *store),
    {
        if self.position.offset == usize::MAX {
            return ;
        }
        let target = Position { line: self.position.line, offset: self.position.offset + 1 };
        self.move_to(store, target);
    }

    /// Moves to offset 0 of the current line.
    pub fn move_to_start_of_line(&mut self, store: &TextStore)
        ensures
            final(self)@ == moved_to_start_of_line(old(self)@, *store),
    {
        let target = Position { line: self.position.line, offset: 0 };
        self.move_to(store, target);
    }

    /// Moves just past the last character of the current line; does nothing
    /// when the store has no such line.
    pub fn move_to_end_of_line(&mut self, store: &TextStore)
        ensures
            final(self)@ == moved_to_end_of_line(old(self)@, *store),
    {
        match store.line_length(self.position.line) {
            Some(len) => {
                let target = Position { line: self.position.line, offset: len };
                self.move_to(store, target);
            },
            None => {},
        }
    }
}

/// A move onto a position that the store rejects leaves the state as it
/// is; a move onto one that it accepts adopts both of its fields and makes
/// its offset the sticky offset.
pub proof fn lemma_move_to_commits_or_keeps(s: (Position, usize), store: TextStore, target: Position)
    ensures
        !store.accepts(target.line as int, target.offset as int) ==> moved_to(
            s,
            store,
            target.line as int,
            target.offset as int,
        ) == s,
        store.accepts(target.line as int, target.offset as int) ==> moved_to(
            s,
            store,
            target.line as int,
            target.offset as int,
        ) == (target, target.offset),
{
}

/// Moving up from the first line, or left from the start of a line, leaves
/// the state as it is.
pub proof fn lemma_edges_are_fixed_points(s: (Position, usize), store: TextStore)
    ensures
        s.0.line == 0 ==> moved_up(s, store) == s,
        s.0.offset == 0 ==> moved_left(s, store) == s,
{
}

/// A vertical move onto a line shorter than the sticky offset lands at the
/// end of that line and keeps the sticky offset; the next vertical move in
/// the same direction, onto a line long enough for it, lands on the sticky
/// offset again.
pub proof fn lemma_vertical_moves_clamp_and_recover(s: (Position, usize), store: TextStore)
    ensures
        ({
            let t = s.0.line - 1;
            s.0.line > 0 && t < store@.len() && store@[t] < s.1 ==> moved_up(s, store) == (
                Position { line: t as usize, offset: store@[t] },
                s.1,
            )
        }),
        ({
            let t = s.0.line - 2;
            let once = moved_up(s, store);
            s.0.line > 1 && t + 1 < store@.len() && store@[t + 1] < s.1 && s.1 <= store@[t]
                ==> moved_up(once, store) == (Position { line: t as usize, offset: s.1 }, s.1)
        }),
        ({
            let t = s.0.line + 1;
            t <= usize::MAX && t < store@.len() && store@[t] < s.1 ==> moved_down(s, store) == (
                Position { line: t as usize, offset: store@[t] },
                s.1,
            )
        }),
        ({
            let t = s.0.line + 2;
            let once = moved_down(s, store);
            t <= usize::MAX && t < store@.len() && store@[t - 1] < s.1 && s.1 <= store@[t]
                ==> moved_down(
                once,
                store,
            ) == (Position { line: t as usize, offset: s.1 }, s.1)
        }),
{
}

/// When the store accepts the start of the current line, moving there
/// leaves the cursor on that line at offset 0.
pub proof fn lemma_start_of_line_is_offset_zero(s: (Position, usize), store: TextStore)
    ensures
        store.accepts(s.0.line as int, 0) ==> moved_to_start_of_line(s, store) == (
            Position { line: s.0.line, offset: 0 },
            0usize,
        ),
{
}

/// On a line that the store has, moving to its end sets the offset to
/// exactly the line's character count.
pub proof fn lemma_end_of_line_is_line_length(s: (Position, usize), store: TextStore)
    ensures
        s.0.line < store@.len() ==> moved_to_end_of_line(s, store) == (
            Position { line: s.0.line, offset: store@[s.0.line as int] },
            store@[s.0.line as int],
        ),
{
}

/// Against an unchanged store, doing a positional move a second time
/// changes nothing more: moving to the same target, to the start of the
/// line, or to its end. And every move that left the state as it was does
/// so again when repeated.
pub proof fn lemma_repeated_moves_are_stable(s: (Position, usize), store: TextStore, target: Position)
    ensures
        ({
            let once = moved_to(s, store, target.line as int, target.offset as int);
            moved_to(once, store, target.line as int, target.offset as int) == once
        }),
        moved_to_start_of_line(moved_to_start_of_line(s, store), store) == moved_to_start_of_line(
            s,
            store,
        ),
        moved_to_end_of_line(moved_to_end_of_line(s, store), store) == moved_to_end_of_line(
            s,
            store,
        ),
        moved_up(s, store) == s ==> moved_up(moved_up(s, store), store) == s,
        moved_down(s, store) == s ==> moved_down(moved_down(s, store), store) == s,
        moved_left(s, store) == s ==> moved_left(moved_left(s, store), store) == s,
        moved_right(s, store) == s ==> moved_right(moved_right(s, store), store) == s,
{
}

} // verus!
