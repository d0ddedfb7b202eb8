//! The log: a file, and the last lines of it for the overlay.

use std::collections::VecDeque;

use vstd::prelude::*;

use crate::text;

verus! {

/// How many lines are kept.
pub const RING_CAPACITY: usize = 256;

/// The time of day.
#[derive(Debug, Clone, Copy, PartialEq, Eq, Structural)]
pub struct Time {
    pub hour: u16,
    pub minute: u16,
    pub second: u16,
    pub milliseconds: u16,
}

/// A time of day as it stands in the log.
pub open spec fn stamped(t: Time) -> Seq<char> {
    crate::text::numeral(t.hour as nat, 10, 2) + ":"@ + crate::text::numeral(
        t.minute as nat,
        10,
        2,
    ) + ":"@ + crate::text::numeral(t.second as nat, 10, 2) + "."@ + crate::text::numeral(
        t.milliseconds as nat,
        10,
        3,
    )
}

/// A line of the log.
pub open spec fn entry(t: Time, msg: Seq<char>) -> Seq<char> {
    "["@ + stamped(t) + "] "@ + msg
}

/// Writes a time of day.
pub fn stamp(t: Time) -> (r: String)
    ensures
        r@ == stamped(t),
{
    let mut out = String::new();
    text::push_numeral(&mut out, t.hour as u64, 10, 2);
    assert(out@ =~= crate::text::numeral(t.hour as nat, 10, 2));
    out.append(":");
    text::push_numeral(&mut out, t.minute as u64, 10, 2);
    out.append(":");
    text::push_numeral(&mut out, t.second as u64, 10, 2);
    out.append(".");
    text::push_numeral(&mut out, t.milliseconds as u64, 10, 3);
    out
}

/// The log. A panic under its lock poisons it, and from then on nothing is written.
#[derive(Debug)]
pub struct Sink {
    pub poisoned: bool,
    /// Whether there is a file to write to.
    pub file: bool,
    /// The last lines, the oldest first.
    pub ring: VecDeque<String>,
}

/// The model of the lines that are kept.
pub open spec fn contents(ring: Seq<String>) -> Seq<Seq<char>> {
    ring.map_values(|s: String| s@)
}

/// The lines with one more, of which the oldest makes room where there is none.
pub open spec fn appended(lines: Seq<Seq<char>>, line: Seq<char>) -> Seq<Seq<char>> {
    if lines.len() == RING_CAPACITY {
        lines.drop_first().push(line)
    } else {
        lines.push(line)
    }
}

/// The last `n` lines, or all of them where there are fewer.
pub open spec fn last_of(lines: Seq<Seq<char>>, n: nat) -> Seq<Seq<char>> {
    if n >= lines.len() {
        lines
    } else {
        lines.skip(lines.len() - n)
    }
}

impl Sink {
    pub open spec fn lines(self) -> Seq<Seq<char>> {
        contents(self.ring@)
    }

    /// No more lines are kept than there is room for.
    pub open spec fn wf(self) -> bool {
        self.ring@.len() <= RING_CAPACITY
    }

    /// An empty log without a file.
    pub fn new() -> (r: Sink)
        ensures
            r.wf(),
            !r.poisoned,
            !r.file,
            r.lines() == Seq::<Seq<char>>::empty(),
    {
        let r = Sink { poisoned: false, file: false, ring: VecDeque::new() };
        assert(r.lines() =~= Seq::<Seq<char>>::empty());
        r
    }
}

/// The lines that are kept after one more, and what goes into the file.
pub open spec fn noted(sink: Sink, line: Seq<char>) -> (Seq<Seq<char>>, Option<Seq<char>>) {
    if sink.poisoned {
        (sink.lines(), None)
    } else if sink.file {
        (appended(sink.lines(), line), Some(line))
    } else {
        (appended(sink.lines(), line), None)
    }
}

/// Adds a line to the log, and returns it where it has to be written to the file.
pub fn line(sink: &mut Sink, now: Time, msg: &str) -> (r: Option<String>)
    requires
        old(sink).wf(),
    ensures
        final(sink).wf(),
        final(sink).poisoned == old(sink).poisoned,
        final(sink).file == old(sink).file,
        final(sink).lines() == if old(sink).poisoned {
            old(sink).lines()
        } else {
            appended(old(sink).lines(), entry(now, msg@))
        },
        match r {
            Some(s) => !old(sink).poisoned && old(sink).file && s@ == entry(now, msg@),
            None => old(sink).poisoned || !old(sink).file,
        },
        (
            final(sink).lines(),
            match r {
                Some(s) => Some(s@),
                None => None,
            },
        ) == noted(*old(sink), entry(now, msg@)),
{
    if sink.poisoned {
        return None;
    }
    let mut text = text::owned("[");
    text.append(stamp(now).as_str());
    text.append("] ");
    text.append(msg);
    let written: Option<String> = if sink.file {
        Some(text.clone())
    } else {
        None
    };
    let ghost before = sink.ring@;
    if sink.ring.len() == RING_CAPACITY {
        sink.ring.pop_front();
    }
    sink.ring.push_back(text);
    assert(contents(sink.ring@) =~= appended(contents(before), entry(now, msg@)));
    written
}

/// Opens the log: `file` says whether there is a file. Without one only the last lines
/// are kept.
pub fn init(sink: &mut Sink, file: bool, now: Time) -> (r: Option<String>)
    requires
        old(sink).wf(),
    ensures
        final(sink).wf(),
        final(sink).poisoned == old(sink).poisoned,
        final(sink).file == if old(sink).poisoned {
            old(sink).file
        } else {
            file
        },
        final(sink).lines() == if old(sink).poisoned {
            old(sink).lines()
        } else {
            appended(old(sink).lines(), entry(now, "---- piscatio start ----"@))
        },
        match r {
            Some(s) => !old(sink).poisoned && file && s@ == entry(
                now,
                "---- piscatio start ----"@,
            ),
            None => old(sink).poisoned || !file,
        },
{
    if !sink.poisoned {
        sink.file = file;
    }
    line(sink, now, "---- piscatio start ----")
}

/// The last `n` lines.
pub fn tail(sink: &Sink, n: usize) -> (r: Vec<String>)
    ensures
        contents(r@) == if sink.poisoned {
            Seq::<Seq<char>>::empty()
        } else {
            last_of(sink.lines(), n as nat)
        },
{
    let mut out: Vec<String> = Vec::new();
    if sink.poisoned {
        assert(contents(out@) =~= Seq::<Seq<char>>::empty());
        return out;
    }
    let len: usize = sink.ring.len();
    let start: usize = if n >= len {
        0
    } else {
        len - n
    };
    let mut i: usize = start;
    while i < len
        invariant
            start <= i <= len == sink.ring@.len(),
            contents(out@) == sink.lines().subrange(start as int, i as int),
        decreases len - i,
    {
        let copy = sink.ring[i].clone();
        assert(copy@ == sink.ring@[i as int]@);
        let ghost prior = out@;
        out.push(copy);
        assert(contents(out@) =~= contents(prior).push(copy@));
        assert(contents(out@) =~= sink.lines().subrange(start as int, i + 1));
        i = i + 1;
    }
    assert(contents(out@) =~= last_of(sink.lines(), n as nat));
    out
}

/// The lines after some messages, one after the other.
pub open spec fn logged(lines: Seq<Seq<char>>, messages: Seq<Seq<char>>) -> Seq<Seq<char>>
    decreases messages.len(),
{
    if messages.len() == 0 {
        lines
    } else {
        appended(logged(lines, messages.drop_last()), messages.last())
    }
}

/// Whatever is written, what is kept are the newest lines, as many as there is room
/// for.
pub proof fn law_newest_lines_are_kept(lines: Seq<Seq<char>>, messages: Seq<Seq<char>>)
    requires
        lines.len() <= RING_CAPACITY,
    ensures
        logged(lines, messages) == last_of(lines + messages, RING_CAPACITY as nat),
    decreases messages.len(),
{
    if messages.len() == 0 {
        assert(lines + messages =~= lines);
    } else {
        let all = lines + messages;
        let before = lines + messages.drop_last();
        law_newest_lines_are_kept(lines, messages.drop_last());
        assert(all =~= before.push(messages.last()));
        assert(logged(lines, messages) =~= last_of(all, RING_CAPACITY as nat));
    }
}

} // verus!
