//! The call log: every call that starts is kept as a CSV row
//! `timestamp,caller,tower` until the end of the frame, when the pending
//! rows are written out at once.
use vstd::prelude::*;
use vstd::string::*;
use crate::ids::{id_text, id_to_text, lemma_id_text_is_plain};

verus! {

/// A call has started: the phone that calls and the tower it goes through.
#[derive(Clone, Copy, PartialEq, Eq, Structural, Debug)]
pub struct CallStarted {
    pub caller: u128,
    pub tower: u128,
}

/// The CSV row of a call that started at the time written `timestamp`.
pub open spec fn record_line(timestamp: Seq<char>, call: CallStarted) -> Seq<char> {
    timestamp + seq![','] + id_text(call.caller) + seq![','] + id_text(call.tower)
}

/// Each row followed by its own line break, in order.
pub open spec fn terminated_lines(lines: Seq<Seq<char>>) -> Seq<char>
    decreases lines.len(),
{
    if lines.len() == 0 {
        Seq::empty()
    } else {
        terminated_lines(lines.drop_last()) + lines.last() + seq!['\n']
    }
}

/// The rows that wait to be written.
pub struct CallLog {
    buffer: Vec<String>,
}

impl View for CallLog {
    type V = Seq<Seq<char>>;

    closed spec fn view(&self) -> Seq<Seq<char>> {
        self.buffer@.map_values(|s: String| s@)
    }
}

impl CallLog {
    /// An empty log.
    pub fn new() -> (log: CallLog)
        ensures
            log@ == Seq::<Seq<char>>::empty(),
    {
        let log = CallLog { buffer: Vec::new() };
        assert(log@ =~= Seq::<Seq<char>>::empty());
        log
    }

    /// The first line of the CSV file, naming its columns.
    pub fn header() -> (h: String)
        ensures
            h@ == "timestamp,caller,tower\n"@,
    {
        String::from_str("timestamp,caller,tower\n")
    }

    /// The number of rows that wait to be written.
    pub fn len(&self) -> (n: usize)
        ensures
            n == self@.len(),
    {
        self.buffer.len()
    }

    /// Keeps the row of a call that started at the time written `timestamp`.
    pub fn record(&mut self, timestamp: &str, call: &CallStarted)
        ensures
            final(self)@ == old(self)@.push(record_line(timestamp@, *call)),
    {
        let mut line = String::from_str(timestamp);
        line.append(",");
        let caller = id_to_text(call.caller);
        line.append(caller.as_str());
        line.append(",");
        let tower = id_to_text(call.tower);
        line.append(tower.as_str());
        proof {
            reveal_strlit(",");
        }
        assert(line@ =~= record_line(timestamp@, *call));
        self.buffer.push(line);
        assert(self@ =~= old(self)@.push(record_line(timestamp@, *call)));
    }

    /// Takes the pending rows out of the log and returns the text to write:
    /// each row followed by its own line break, in the order they were
    /// recorded; no text at all when no row waits. The log is empty afterwards.
    pub fn flush(&mut self) -> (out: String)
        ensures
            out@ == terminated_lines(old(self)@),
            final(self)@ == Seq::<Seq<char>>::empty(),
    {
        let ghost lines = self@;
        let mut out = String::new();
        let n = self.buffer.len();
        let mut i: usize = 0;
        proof {
            assert(lines.take(0) =~= Seq::<Seq<char>>::empty());
        }
        while i < n
            invariant
                n == self.buffer@.len(),
                lines == self@,
                i <= n,
                out@ == terminated_lines(lines.take(i as int)),
            decreases n - i,
        {
            proof {
                reveal_strlit("\n");
                assert(lines.take(i + 1).drop_last() =~= lines.take(i as int));
                assert(lines.take(i + 1).last() == self.buffer@[i as int]@);
            }
            out.append(self.buffer[i].as_str());
            out.append("\n");
            proof {
                assert(out@ =~= terminated_lines(lines.take(i as int)) + lines.take(i + 1).last()
                    + seq!['\n']);
            }
            i = i + 1;
        }
        proof {
            assert(lines.take(n as int) =~= lines);
        }
        self.buffer = Vec::new();
        assert(self@ =~= Seq::<Seq<char>>::empty());
        out
    }
}

/// Writing rows in two batches gives the same text as writing them all at
/// once: whenever the log is flushed, the file holds every recorded row, each
/// followed by its own line break, in the order recorded.
pub proof fn lemma_flushes_concatenate(first: Seq<Seq<char>>, second: Seq<Seq<char>>)
    ensures
        terminated_lines(first + second) == terminated_lines(first) + terminated_lines(second),
    decreases second.len(),
{
    if second.len() == 0 {
        assert(first + second =~= first);
        assert(terminated_lines(first) + terminated_lines(second) =~= terminated_lines(first));
    } else {
        lemma_flushes_concatenate(first, second.drop_last());
        assert((first + second).drop_last() =~= first + second.drop_last());
        assert((first + second).last() == second.last());
        assert(terminated_lines(first + second) =~= terminated_lines(first) + terminated_lines(second));
    }
}

/// A row whose timestamp holds no comma and no line break is one line of
/// three fields: its only commas stand right after the timestamp and right
/// after the caller's identifier, and the identifiers take 36 characters each.
pub proof fn lemma_record_has_three_fields(timestamp: Seq<char>, call: CallStarted)
    requires
        forall|i: int| 0 <= i < timestamp.len() ==> #[trigger] timestamp[i] != ',' && timestamp[i] != '\n',
    ensures
        ({
            let line = record_line(timestamp, call);
            let t = timestamp.len() as int;
            &&& line.len() == t + 74
            &&& line.subrange(0, t) == timestamp
            &&& line.subrange(t + 1, t + 37) == id_text(call.caller)
            &&& line.subrange(t + 38, t + 74) == id_text(call.tower)
            &&& forall|i: int| 0 <= i < line.len() ==> (#[trigger] line[i] == ',' <==> (i == t || i == t + 37))
            &&& forall|i: int| 0 <= i < line.len() ==> #[trigger] line[i] != '\n'
        }),
{
    lemma_id_text_is_plain(call.caller);
    lemma_id_text_is_plain(call.tower);
    let line = record_line(timestamp, call);
    let t = timestamp.len() as int;
    let a = id_text(call.caller);
    let b = id_text(call.tower);
    assert(line.subrange(0, t) =~= timestamp);
    assert(line.subrange(t + 1, t + 37) =~= a);
    assert(line.subrange(t + 38, t + 74) =~= b);
    assert forall|i: int| 0 <= i < line.len() implies (#[trigger] line[i] == ',' <==> (i == t || i == t
        + 37)) && line[i] != '\n' by {
        if i < t {
            assert(line[i] == timestamp[i]);
        } else if i == t {
        } else if i < t + 37 {
            assert(line[i] == a[i - t - 1]);
        } else if i == t + 37 {
        } else {
            assert(line[i] == b[i - t - 38]);
        }
    }
}

} // verus!
