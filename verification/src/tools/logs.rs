//! The log of one tracked process: a bounded queue of tagged lines that
//! gives up its oldest line to admit a new one.

use crate::dispatch::texts_of;
use std::collections::VecDeque;
use vstd::prelude::*;

verus! {

/// The number of lines that the log of one process holds at most.
pub const LOG_CAPACITY: usize = 1000;

/// The stream of the child that a line was read from.
#[derive(Debug, PartialEq, Eq, Clone, Copy, Structural)]
pub enum Stream {
    Stdout,
    Stderr,
}

/// The tag that stands before the lines of `stream`.
pub open spec fn stream_tag(stream: Stream) -> Seq<char> {
    match stream {
        Stream::Stdout => "[stdout] "@,
        Stream::Stderr => "[stderr] "@,
    }
}

/// A line as the log holds it: the tag of its stream, then the line.
pub open spec fn tagged(stream: Stream, line: Seq<char>) -> Seq<char> {
    stream_tag(stream) + line
}

/// `queue` after `line` came in, where it holds at most `capacity` lines:
/// a full queue loses its oldest line.
pub open spec fn bounded_push(queue: Seq<Seq<char>>, line: Seq<char>, capacity: nat) -> Seq<
    Seq<char>,
> {
    if queue.len() >= capacity {
        queue.drop_first().push(line)
    } else {
        queue.push(line)
    }
}

/// The most recent `limit` lines of `lines`, or all of them where there is
/// no limit or there are fewer.
pub open spec fn last_lines(lines: Seq<Seq<char>>, limit: Option<usize>) -> Seq<Seq<char>> {
    match limit {
        None => lines,
        Some(n) => if lines.len() > n {
            lines.subrange(lines.len() - n, lines.len() as int)
        } else {
            lines
        },
    }
}

/// A line as the log holds it.
pub fn tag_line(stream: Stream, line: &str) -> (r: String)
    ensures
        r@ == tagged(stream, line@),
{
    match stream {
        Stream::Stdout => crate::text::join2("[stdout] ", line),
        Stream::Stderr => crate::text::join2("[stderr] ", line),
    }
}

/// The most recent `limit` lines of `lines`.
pub fn keep_last(lines: Vec<String>, limit: Option<usize>) -> (r: Vec<String>)
    ensures
        texts_of(r@) == last_lines(texts_of(lines@), limit),
{
    match limit {
        None => lines,
        Some(n) => {
            if lines.len() > n {
                let mut lines = lines;
                let ghost all = texts_of(lines@);
                let r = lines.split_off(lines.len() - n);
                proof {
                    assert(texts_of(r@) =~= all.subrange(all.len() - n, all.len() as int));
                }
                r
            } else {
                lines
            }
        },
    }
}

/// A bounded queue of log lines, oldest first.
pub struct LogQueue {
    lines: VecDeque<String>,
}

impl View for LogQueue {
    type V = Seq<Seq<char>>;

    closed spec fn view(&self) -> Seq<Seq<char>> {
        Seq::new(self.lines@.len(), |i: int| self.lines@[i]@)
    }
}

impl LogQueue {
    #[verifier::type_invariant]
    spec fn bounded(self) -> bool {
        self.lines@.len() <= LOG_CAPACITY
    }

    /// The queue without lines.
    pub fn new() -> (q: LogQueue)
        ensures
            q@ == Seq::<Seq<char>>::empty(),
    {
        let q = LogQueue { lines: VecDeque::new() };
        proof {
            assert(q@ =~= Seq::<Seq<char>>::empty());
        }
        q
    }

    /// The number of lines that wait in the queue.
    pub fn len(&self) -> (n: usize)
        ensures
            n == self@.len(),
            n <= LOG_CAPACITY,
    {
        proof {
            use_type_invariant(self);
        }
        self.lines.len()
    }

    /// Takes `line` in.  A full queue gives up its oldest line for it.
    pub fn push(&mut self, line: String)
        ensures
            final(self)@ == bounded_push(old(self)@, line@, LOG_CAPACITY as nat),
    {
        proof {
            use_type_invariant(&*self);
        }
        let ghost before = self@;
        let mut lines: VecDeque<String> = VecDeque::new();
        core::mem::swap(&mut self.lines, &mut lines);
        if lines.len() >= LOG_CAPACITY {
            let _ = lines.pop_front();
        }
        lines.push_back(line);
        core::mem::swap(&mut self.lines, &mut lines);
        proof {
            assert(self@ =~= bounded_push(before, line@, LOG_CAPACITY as nat));
        }
    }

    /// Hands out all lines, oldest first, and leaves the queue empty.
    pub fn drain(&mut self) -> (lines: Vec<String>)
        ensures
            texts_of(lines@) == old(self)@,
            final(self)@ == Seq::<Seq<char>>::empty(),
    {
        let ghost before = self@;
        let mut lines: VecDeque<String> = VecDeque::new();
        core::mem::swap(&mut self.lines, &mut lines);
        proof {
            assert(self@ =~= Seq::<Seq<char>>::empty());
        }
        let mut out: Vec<String> = Vec::new();
        let ghost all = lines@;
        loop
            invariant
                out@ + lines@ == all,
            ensures
                out@ == all,
            decreases lines@.len(),
        {
            let ghost held = lines@;
            let ghost done = out@;
            match lines.pop_front() {
                Some(line) => {
                    out.push(line);
                    proof {
                        assert(out@ + lines@ =~= done + held);
                    }
                },
                None => {
                    proof {
                        assert(out@ + lines@ =~= out@);
                    }
                    break ;
                },
            }
        }
        proof {
            assert(texts_of(out@) =~= before);
        }
        out
    }
}

/// A read limited to `n` lines hands out no more than `n`, and where more
/// are waiting it hands out exactly the `n` that came in last.
pub proof fn lemma_limited_read(lines: Seq<Seq<char>>, n: usize)
    ensures
        last_lines(lines, Some(n)).len() <= n,
        lines.len() > n ==> last_lines(lines, Some(n)) == lines.subrange(
            lines.len() - n,
            lines.len() as int,
        ),
        lines.len() <= n ==> last_lines(lines, Some(n)) == lines,
        forall|i: int|
            0 <= i < last_lines(lines, Some(n)).len() ==> last_lines(lines, Some(n))[i]
                == lines[lines.len() - last_lines(lines, Some(n)).len() + i],
{
}

/// A queue never holds more lines than its capacity, and the line that came
/// in last is its newest.
pub proof fn lemma_bounded_push(queue: Seq<Seq<char>>, line: Seq<char>, capacity: nat)
    requires
        capacity >= 1,
        queue.len() <= capacity,
    ensures
        bounded_push(queue, line, capacity).len() <= capacity,
        bounded_push(queue, line, capacity).last() == line,
        queue.len() < capacity ==> bounded_push(queue, line, capacity) == queue.push(line),
        queue.len() == capacity ==> bounded_push(queue, line, capacity) == queue.subrange(
            1,
            queue.len() as int,
        ).push(line),
{
}

/// Lines stay in the order in which they came: of two lines that come in
/// one after the other, the first stands right before the second, and
/// before them stand the newest of the lines that were there, in their old
/// order.
pub proof fn lemma_lines_keep_their_order(
    queue: Seq<Seq<char>>,
    first: Seq<char>,
    second: Seq<char>,
    capacity: nat,
)
    requires
        capacity >= 2,
        queue.len() <= capacity,
    ensures
        ({
            let after = bounded_push(bounded_push(queue, first, capacity), second, capacity);
            let kept = after.len() - 2;
            &&& 0 <= kept <= queue.len()
            &&& after[kept] == first
            &&& after[kept + 1] == second
            &&& after.subrange(0, kept) == queue.subrange(queue.len() - kept, queue.len() as int)
        }),
{
    let after = bounded_push(bounded_push(queue, first, capacity), second, capacity);
    let kept = after.len() - 2;
    assert(after.subrange(0, kept) =~= queue.subrange(queue.len() - kept, queue.len() as int));
}

} // verus!
