//! The history of submitted lines and its browse cursor.

use vstd::prelude::*;

verus! {

/// A history as a value: the submitted lines, oldest first, and the place of
/// the browse cursor among them.
pub struct HistoryView {
    pub entries: Seq<Seq<char>>,
    pub cursor: nat,
}

impl HistoryView {
    /// The cursor lies on an entry or just past the newest one.
    pub open spec fn wf(self) -> bool {
        self.cursor <= self.entries.len()
    }

    /// The history that holds nothing.
    pub open spec fn empty() -> HistoryView {
        HistoryView { entries: Seq::empty(), cursor: 0 }
    }

    /// Not browsing: the cursor rests past the newest entry.
    pub open spec fn at_top(self) -> bool {
        self.cursor == self.entries.len()
    }

    /// The history after `line` was submitted.
    pub open spec fn add(self, line: Seq<char>) -> HistoryView {
        HistoryView { entries: self.entries.push(line), cursor: self.entries.len() + 1 }
    }

    /// The history after one step towards older entries. The cursor stops at
    /// the oldest entry.
    pub open spec fn prev(self) -> HistoryView {
        if self.cursor == 0 {
            self
        } else {
            HistoryView { entries: self.entries, cursor: (self.cursor - 1) as nat }
        }
    }

    /// The entry that a step towards older entries surfaces, if there is one.
    pub open spec fn prev_entry(self) -> Option<Seq<char>> {
        if self.cursor == 0 {
            None
        } else {
            Some(self.entries[self.cursor as int - 1])
        }
    }

    /// The history after one step towards newer entries. A step from the
    /// newest entry leaves the entries behind and comes to rest at the top.
    pub open spec fn next(self) -> HistoryView {
        if self.at_top() {
            self
        } else {
            HistoryView { entries: self.entries, cursor: self.cursor + 1 }
        }
    }

    /// The entry that a step towards newer entries surfaces, if there is one.
    pub open spec fn next_entry(self) -> Option<Seq<char>> {
        if self.cursor + 1 < self.entries.len() {
            Some(self.entries[self.cursor as int + 1])
        } else {
            None
        }
    }
}

/// The lines submitted so far, with one cursor to browse them.
pub struct CommandHistory {
    history: Vec<String>,
    cur: usize,
}

impl View for CommandHistory {
    type V = HistoryView;

    closed spec fn view(&self) -> HistoryView {
        HistoryView { entries: self.history.deep_view(), cursor: self.cur as nat }
    }
}

impl Default for CommandHistory {
    /// An empty history, at the top.
    fn default() -> (h: Self)
        ensures
            h.wf(),
            h@ == HistoryView::empty(),
    {
        CommandHistory::default()
    }
}

impl CommandHistory {
    /// The cursor lies within the entries or just past them.
    pub open spec fn wf(&self) -> bool {
        self@.wf()
    }

    /// An empty history, at the top.
    pub fn default() -> (h: Self)
        ensures
            h.wf(),
            h@ == HistoryView::empty(),
    {
        let h = CommandHistory { history: Vec::new(), cur: 0 };
        assert(h.history.deep_view() =~= Seq::<Seq<char>>::empty());
        h
    }

    /// Steps towards older entries and hands out the entry reached. At the
    /// oldest entry, and in an empty history, nothing moves and nothing is
    /// handed out.
    pub fn prev_command(&mut self) -> (r: Option<&String>)
        requires
            old(self).wf(),
        ensures
            final(self).wf(),
            final(self)@ == old(self)@.prev(),
            r.is_some() == old(self)@.prev_entry().is_some(),
            r.is_some() ==> r.unwrap()@ == old(self)@.prev_entry().unwrap(),
    {
        if self.cur == 0 {
            None
        } else {
            self.cur -= 1;
            Some(&self.history[self.cur])
        }
    }

    /// Steps towards newer entries and hands out the entry reached. The step
    /// past the newest entry is taken but hands out nothing; at the top
    /// nothing moves.
    pub fn next_command(&mut self) -> (r: Option<&String>)
        requires
            old(self).wf(),
        ensures
            final(self).wf(),
            final(self)@ == old(self)@.next(),
            r.is_some() == old(self)@.next_entry().is_some(),
            r.is_some() ==> r.unwrap()@ == old(self)@.next_entry().unwrap(),
    {
        if self.cur == self.history.len() {
            None
        } else {
            self.cur += 1;
            if self.cur < self.history.len() {
                Some(&self.history[self.cur])
            } else {
                None
            }
        }
    }

    /// Appends a submitted line and returns to the top.
    pub fn add_command(&mut self, command: String)
        requires
            old(self).wf(),
        ensures
            final(self).wf(),
            final(self)@ == old(self)@.add(command@),
            final(self)@.at_top(),
    {
        self.history.push(command);
        self.cur = self.history.len();
        assert(self.history.deep_view() =~= old(self).history.deep_view().push(command@));
    }

    /// The submitted lines, oldest first.
    pub fn entries(&self) -> (lines: &Vec<String>)
        ensures
            lines.deep_view() == self@.entries,
    {
        &self.history
    }

    /// The place of the browse cursor: the index of the entry last surfaced,
    /// or the number of entries at the top.
    pub fn cursor(&self) -> (index: usize)
        ensures
            index == self@.cursor,
    {
        self.cur
    }

    /// Whether the cursor rests at the top, past the newest entry.
    pub fn at_top(&self) -> (b: bool)
        requires
            self.wf(),
        ensures
            b == self@.at_top(),
    {
        self.history.len() == self.cur
    }
}

} // verus!
