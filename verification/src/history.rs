//! The history cursor: the lines submitted so far, and a position among
//! them that the history keys move.

use vstd::prelude::*;

verus! {

/// The mathematical content of a history: the lines, oldest first, and the
/// navigation cursor. A cursor equal to the number of lines is "live": it
/// points at no line, and the line being edited is what counts.
pub struct Past {
    pub entries: Seq<Seq<char>>,
    pub index: int,
}

impl Past {
    pub open spec fn valid(self) -> bool {
        0 <= self.index <= self.entries.len()
    }

    pub open spec fn empty() -> Past {
        Past { entries: Seq::empty(), index: 0 }
    }

    /// The cursor points at no line.
    pub open spec fn at_live(self) -> bool {
        self.index == self.entries.len()
    }

    /// `line` pushed to the end, the cursor live.
    pub open spec fn append(self, line: Seq<char>) -> Past {
        Past { entries: self.entries.push(line), index: self.entries.len() as int + 1 }
    }

    /// One line older; unchanged at the oldest line.
    pub open spec fn prev(self) -> Past {
        if self.index > 0 {
            Past { entries: self.entries, index: self.index - 1 }
        } else {
            self
        }
    }

    /// One line newer; unchanged where the cursor is live.
    pub open spec fn next(self) -> Past {
        if self.index < self.entries.len() {
            Past { entries: self.entries, index: self.index + 1 }
        } else {
            self
        }
    }

    /// The cursor set to live.
    pub open spec fn rewind(self) -> Past {
        Past { entries: self.entries, index: self.entries.len() as int }
    }

    /// The line at the cursor; none where the cursor is live.
    pub open spec fn current(self) -> Option<Seq<char>> {
        if 0 <= self.index < self.entries.len() {
            Some(self.entries[self.index])
        } else {
            None
        }
    }
}

/// The lines that a vector of strings holds.
pub open spec fn lines_of(entries: Seq<String>) -> Seq<Seq<char>> {
    Seq::new(entries.len(), |i: int| entries[i]@)
}

/// The lines submitted so far and the navigation cursor.
pub struct History {
    entries: Vec<String>,
    index: usize,
}

impl View for History {
    type V = Past;

    closed spec fn view(&self) -> Past {
        Past { entries: lines_of(self.entries@), index: self.index as int }
    }
}

impl History {
    /// The invariant of the type: the cursor points at a line or is live.
    pub open spec fn wf(&self) -> bool {
        self@.valid()
    }

    /// A history without lines.
    pub fn new() -> (h: History)
        ensures
            h.wf(),
            h@ == Past::empty(),
    {
        let h = History { entries: Vec::new(), index: 0 };
        assert(h@.entries =~= Seq::<Seq<char>>::empty());
        h
    }

    /// The number of lines.
    pub fn len(&self) -> (n: usize)
        ensures
            n == self@.entries.len(),
    {
        self.entries.len()
    }

    /// The cursor: the number of the line it points at, or the number of
    /// lines where it is live.
    pub fn position(&self) -> (i: usize)
        ensures
            i == self@.index,
    {
        self.index
    }

    /// Whether the cursor points at no line.
    pub fn is_live(&self) -> (b: bool)
        ensures
            b == self@.at_live(),
    {
        self.index == self.entries.len()
    }

    /// Pushes `line` to the end and sets the cursor to live.
    pub fn append(&mut self, line: String)
        ensures
            final(self).wf(),
            final(self)@ == old(self)@.append(line@),
    {
        self.entries.push(line);
        self.index = self.entries.len();
        assert(self@.entries =~= old(self)@.entries.push(line@));
    }

    /// Moves the cursor one line towards the oldest; nothing at the oldest.
    pub fn prev(&mut self)
        requires
            old(self).wf(),
        ensures
            final(self).wf(),
            final(self)@ == old(self)@.prev(),
    {
        if self.index > 0 {
            self.index = self.index - 1;
        }
    }

    /// Moves the cursor one line towards the newest, and from the newest to
    /// live; nothing where it is live.
    pub fn next(&mut self)
        requires
            old(self).wf(),
        ensures
            final(self).wf(),
            final(self)@ == old(self)@.next(),
    {
        if self.index < self.entries.len() {
            self.index = self.index + 1;
        }
    }

    /// Sets the cursor to live.
    pub fn rewind(&mut self)
        ensures
            final(self).wf(),
            final(self)@ == old(self)@.rewind(),
    {
        self.index = self.entries.len();
    }

    /// The line at the cursor; none where the cursor is live.
    pub fn current(&self) -> (line: Option<&str>)
        ensures
            line is Some <==> self@.current() is Some,
            line is Some ==> self@.current() == Some(line->0@),
    {
        if self.index < self.entries.len() {
            Some(self.entries[self.index].as_str())
        } else {
            None
        }
    }

    /// The line with the given number, the oldest being 0.
    pub fn entry(&self, i: usize) -> (line: Option<&str>)
        ensures
            line is Some <==> i < self@.entries.len(),
            line is Some ==> self@.entries[i as int] == line->0@,
    {
        if i < self.entries.len() {
            Some(self.entries[i].as_str())
        } else {
            None
        }
    }
}

/// From live, `n` steps back and `n` steps forward lead to live again, where
/// the history has at least `n` lines; and `n` steps back from live point at
/// the `n`-th newest line.
pub proof fn lemma_back_and_forth(past: Past, n: nat)
    requires
        past.valid(),
        past.at_live(),
        n <= past.entries.len(),
    ensures
        steps_next(steps_prev(past, n), n) == past,
        steps_prev(past, n).entries == past.entries,
        steps_prev(past, n).index == past.entries.len() - n,
        n > 0 ==> steps_prev(past, n).current() == Some(past.entries[past.entries.len() - n]),
    decreases n,
{
    if n > 0 {
        let shorter = steps_prev(past, (n - 1) as nat);
        lemma_back_and_forth(past, (n - 1) as nat);
        let q = steps_prev(past, n);
        assert(q == shorter.prev());
        assert(q.next() == shorter);
        lemma_steps_next_shift(q, (n - 1) as nat);
    }
}

proof fn lemma_steps_next_shift(past: Past, n: nat)
    ensures
        steps_next(past, n + 1) == steps_next(past.next(), n),
    decreases n,
{
    reveal_with_fuel(steps_next, 2);
    if n > 0 {
        lemma_steps_next_shift(past, (n - 1) as nat);
    }
}

/// `n` steps towards the oldest line.
pub open spec fn steps_prev(past: Past, n: nat) -> Past
    decreases n,
{
    if n == 0 {
        past
    } else {
        steps_prev(past, (n - 1) as nat).prev()
    }
}

/// `n` steps towards live.
pub open spec fn steps_next(past: Past, n: nat) -> Past
    decreases n,
{
    if n == 0 {
        past
    } else {
        steps_next(past, (n - 1) as nat).next()
    }
}

} // verus!
