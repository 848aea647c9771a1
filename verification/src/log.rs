//! The log that the consumer of a batch keeps: the latest lines, each with
//! the time at which it was taken.

use vstd::prelude::*;
use vstd::string::*;

verus! {

/// The number of lines that the log keeps.
pub const LOG_CAPACITY: usize = 100;

/// The local time of day as text. Calls `chrono::Local::now` and writes the
/// time as `[%H:%M:%S]`: hour, minute and second with two digits each, which
/// makes ten characters.
#[verifier::external_body]
pub(crate) fn time_of_day() -> (r: String)
    ensures
        r@.len() == 10,
{
    chrono::Local::now().format("[%H:%M:%S]").to_string()
}

/// The line for `message`, taken at `timestamp`.
pub open spec fn log_line(timestamp: Seq<char>, message: Seq<char>) -> Seq<char> {
    timestamp + " "@ + message
}

/// The lines after `line` has been added to `lines`: the oldest line leaves
/// when there are more than the log keeps.
pub open spec fn logged(lines: Seq<Seq<char>>, line: Seq<char>) -> Seq<Seq<char>> {
    if lines.len() + 1 > LOG_CAPACITY {
        lines.push(line).drop_first()
    } else {
        lines.push(line)
    }
}

/// The latest lines of a log.
pub struct LogBuffer {
    lines: Vec<String>,
}

impl View for LogBuffer {
    type V = Seq<Seq<char>>;

    closed spec fn view(&self) -> Seq<Seq<char>> {
        crate::naming::names_view(self.lines@)
    }
}

impl LogBuffer {
    /// Whether the log holds no more lines than it keeps.
    pub open spec fn wf(&self) -> bool {
        self@.len() <= LOG_CAPACITY
    }

    /// The empty log.
    pub fn new() -> (r: Self)
        ensures
            r.wf(),
            r@ == Seq::<Seq<char>>::empty(),
    {
        let r = LogBuffer { lines: Vec::new() };
        assert(r@ =~= Seq::<Seq<char>>::empty());
        r
    }

    /// The number of lines in the log.
    pub fn len(&self) -> (r: usize)
        ensures
            r == self@.len(),
    {
        self.lines.len()
    }

    /// Line `i` of the log, the oldest first, if there is one.
    pub fn line(&self, i: usize) -> (r: Option<String>)
        ensures
            i < self@.len() ==> r is Some && r->Some_0@ == self@[i as int],
            i >= self@.len() ==> r is None,
    {
        if i < self.lines.len() {
            Some(self.lines[i].clone())
        } else {
            None
        }
    }

    /// Adds the line for `message`, taken at `timestamp`.
    pub fn log(&mut self, timestamp: &str, message: &str)
        requires
            old(self).wf(),
        ensures
            final(self).wf(),
            final(self)@ == logged(old(self)@, log_line(timestamp@, message@)),
    {
        let mut line = String::from_str(timestamp);
        line.append(" ");
        line.append(message);
        let ghost before = self@;
        self.lines.push(line);
        assert(self@ =~= before.push(log_line(timestamp@, message@)));
        if self.lines.len() > LOG_CAPACITY {
            let ghost full = self@;
            self.lines.remove(0);
            assert(self@ =~= full.drop_first());
        }
    }

    /// Adds the line for `message`, taken now: its time has ten characters.
    pub fn log_now(&mut self, message: &str)
        requires
            old(self).wf(),
        ensures
            final(self).wf(),
            exists|timestamp: Seq<char>|
                timestamp.len() == 10 && final(self)@ == logged(
                    old(self)@,
                    log_line(timestamp, message@),
                ),
    {
        let timestamp = time_of_day();
        self.log(timestamp.as_str(), message);
    }
}

} // verus!
