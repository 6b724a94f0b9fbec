//! Bounded rolling store of captured output lines.
//!
//! Each spawned process owns one `LogBuffer`. Writers append tagged lines at
//! the tail; once the buffer is at capacity the oldest line is evicted before
//! the new one is kept, so the buffer always holds the most recent lines in
//! their original relative order and never more than [`LOG_CAPACITY`] of them.

use vstd::prelude::*;

verus! {

/// Upper bound on the number of lines a buffer retains.
pub const LOG_CAPACITY: usize = 1000;

/// The bounded-insertion rule: append `line`, then drop the oldest entry if
/// that pushed the length past the capacity.
pub open spec fn push_bounded(s: Seq<Seq<char>>, line: Seq<char>) -> Seq<Seq<char>> {
    let t = s.push(line);
    if t.len() > LOG_CAPACITY {
        t.subrange(1, t.len() as int)
    } else {
        t
    }
}

/// The most recent [`LOG_CAPACITY`] elements of `t`, or all of `t` when it is
/// no longer than that.
pub open spec fn last_capped(t: Seq<Seq<char>>) -> Seq<Seq<char>> {
    if t.len() <= LOG_CAPACITY {
        t
    } else {
        t.subrange(t.len() - LOG_CAPACITY, t.len() as int)
    }
}

/// The buffer contents after writing each line of `ls` in order, under the
/// bounded-insertion rule, starting from contents `s`.
pub open spec fn push_all(s: Seq<Seq<char>>, ls: Seq<Seq<char>>) -> Seq<Seq<char>>
    decreases ls.len(),
{
    if ls.len() == 0 {
        s
    } else {
        push_all(push_bounded(s, ls[0]), ls.drop_first())
    }
}

/// Re-capping after an extension equals capping the whole: the last
/// [`LOG_CAPACITY`] elements of `last_capped(t) + u` are those of `t + u`.
proof fn lemma_recap(t: Seq<Seq<char>>, u: Seq<Seq<char>>)
    ensures
        last_capped(last_capped(t) + u) =~= last_capped(t + u),
{
}

/// The rolling-window law: writing any sequence of lines `ls` into a buffer
/// that holds `s` leaves exactly the most recent [`LOG_CAPACITY`] lines of
/// `s + ls`, in their original relative order — everything earlier is
/// evicted, and nothing is ever reordered.
pub proof fn lemma_rolling_window(s: Seq<Seq<char>>, ls: Seq<Seq<char>>)
    requires
        s.len() <= LOG_CAPACITY,
    ensures
        push_all(s, ls) =~= last_capped(s + ls),
        push_all(s, ls).len() <= LOG_CAPACITY,
    decreases ls.len(),
{
    if ls.len() == 0 {
        assert(s + ls =~= s);
    } else {
        let head = ls[0];
        let rest = ls.drop_first();
        let stepped = push_bounded(s, head);
        assert(stepped =~= last_capped(s.push(head)));
        lemma_rolling_window(stepped, rest);
        lemma_recap(s.push(head), rest);
        assert(s.push(head) + rest =~= s + ls);
    }
}

/// A captured line tagged with its stream of origin: `"[ERR] "` ahead of a
/// line read from standard error, `"[OUT] "` ahead of one from standard
/// output.
pub open spec fn tagged_line(from_err: bool, line: Seq<char>) -> Seq<char> {
    (if from_err {
        "[ERR] "@
    } else {
        "[OUT] "@
    }) + line
}

/// Tag one captured line with its stream of origin.
pub fn tag_line(from_err: bool, line: &str) -> (r: String)
    ensures
        r@ == tagged_line(from_err, line@),
{
    let mut r = if from_err {
        String::from_str("[ERR] ")
    } else {
        String::from_str("[OUT] ")
    };
    r.append(line);
    r
}

/// A capacity-capped, order-preserving, oldest-evicted store of text lines.
/// Its view is the sequence of retained lines, oldest first.
pub struct LogBuffer {
    lines: Vec<String>,
}

impl View for LogBuffer {
    type V = Seq<Seq<char>>;

    closed spec fn view(&self) -> Seq<Seq<char>> {
        self.lines.deep_view()
    }
}

impl LogBuffer {
    /// The capacity bound. [`LogBuffer::new`] establishes it and
    /// [`LogBuffer::push`] preserves it, so every buffer built through this
    /// interface satisfies it at all times.
    pub open spec fn wf(self) -> bool {
        self@.len() <= LOG_CAPACITY
    }

    /// An empty buffer.
    pub fn new() -> (r: LogBuffer)
        ensures
            r@ =~= Seq::<Seq<char>>::empty(),
            r.wf(),
    {
        LogBuffer { lines: Vec::new() }
    }

    /// Number of retained lines.
    pub fn len(&self) -> (n: usize)
        ensures
            n == self@.len(),
    {
        self.lines.len()
    }

    /// Append `line` under the bounded-insertion rule: the new line is kept
    /// at the tail and, if the buffer was full, the oldest line is evicted
    /// first. A well-formed buffer stays well formed: it is never observed
    /// holding more than [`LOG_CAPACITY`] lines.
    pub fn push(&mut self, line: String)
        ensures
            final(self)@ == push_bounded(old(self)@, line@),
            old(self).wf() ==> final(self).wf(),
    {
        let ghost before = self.lines.deep_view();
        self.lines.push(line);
        assert(self.lines.deep_view() =~= before.push(line@));
        if self.lines.len() > LOG_CAPACITY {
            let ghost mid = self.lines.deep_view();
            self.lines.remove(0);
            assert(self.lines.deep_view() =~= mid.subrange(1, mid.len() as int));
        }
    }

    /// A snapshot copy of the retained lines, oldest first.
    pub fn snapshot(&self) -> (r: Vec<String>)
        ensures
            r.deep_view() == self@,
    {
        let r = self.lines.clone();
        proof {
            assert(r.deep_view() =~= self.lines.deep_view());
        }
        r
    }
}

} // verus!
