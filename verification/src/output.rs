//! The log of one output stream of the child, fed line by line.

use vstd::prelude::*;
use vstd::string::StringExecFns;

verus! {

/// The text that shows `lines`: each line followed by a line feed.
pub open spec fn joined(lines: Seq<Seq<char>>) -> Seq<char>
    decreases lines.len(),
{
    if lines.len() == 0 {
        Seq::<char>::empty()
    } else {
        joined(lines.drop_last()) + lines.last().push('\n')
    }
}

/// The lines that one stream has produced so far, in the order in which the
/// stream produced them.
///
/// Lines are appended and never changed or removed; the log has no bound.
#[derive(Debug)]
pub struct OutputLog {
    lines: Vec<String>,
}

impl View for OutputLog {
    type V = Seq<Seq<char>>;

    closed spec fn view(&self) -> Seq<Seq<char>> {
        Seq::new(self.lines@.len(), |i: int| self.lines@[i]@)
    }
}

impl OutputLog {
    /// A log without lines.
    pub fn new() -> (log: OutputLog)
        ensures
            log@ == Seq::<Seq<char>>::empty(),
    {
        OutputLog { lines: Vec::new() }
    }

    /// Adds `line` behind all earlier lines.
    pub fn append(&mut self, line: String)
        ensures
            final(self)@ == old(self)@.push(line@),
    {
        self.lines.push(line);
    }

    /// The number of lines.
    pub fn len(&self) -> (n: usize)
        ensures
            n == self@.len(),
    {
        self.lines.len()
    }

    /// Whether the stream has produced no line yet.
    pub fn is_empty(&self) -> (empty: bool)
        ensures
            empty == (self@.len() == 0),
    {
        self.lines.len() == 0
    }

    /// The line at position `index`, counted from the oldest.
    pub fn line(&self, index: usize) -> (line: Option<&str>)
        ensures
            index < self@.len() ==> line is Some && line->0@ == self@[index as int],
            index >= self@.len() ==> line is None,
    {
        if index < self.lines.len() {
            Some(self.lines[index].as_str())
        } else {
            None
        }
    }

    /// The whole log as one text, each line closed by a line feed.
    pub fn text(&self) -> (text: String)
        ensures
            text@ == joined(self@),
    {
        let mut text = String::new();
        let mut i: usize = 0;
        while i < self.lines.len()
            invariant
                i <= self.lines.len(),
                self@.len() == self.lines.len(),
                text@ == joined(self@.take(i as int)),
            decreases self.lines.len() - i,
        {
            proof {
                reveal_strlit("\n");
                assert(self@.take(i + 1).drop_last() =~= self@.take(i as int));
            }
            text.append(self.lines[i].as_str());
            text.append("\n");
            i = i + 1;
        }
        proof {
            assert(self@.take(i as int) =~= self@);
        }
        text
    }

    /// A copy of all lines, which later appends do not touch.
    pub fn snapshot(&self) -> (copy: OutputLog)
        ensures
            copy@ == self@,
    {
        let mut copy = OutputLog::new();
        let mut i: usize = 0;
        while i < self.lines.len()
            invariant
                i <= self.lines.len(),
                self@.len() == self.lines.len(),
                copy@ == self@.take(i as int),
            decreases self.lines.len() - i,
        {
            copy.append(self.lines[i].clone());
            i = i + 1;
        }
        copy
    }
}

} // verus!
