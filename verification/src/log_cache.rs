//! Bounded FIFO cache of node log lines.
//!
//! The cache retains the most recent [`LOG_CAPACITY`] lines in insertion
//! order: when a line is appended to a full cache, the oldest line is
//! evicted first.  Reads are paginated, 1-indexed, oldest page first.

use vstd::prelude::*;

verus! {

use std::collections::VecDeque;
use crate::errors::NodeError;

broadcast use vstd::seq::group_seq_axioms;

/// Capacity of the log cache: the number of most recent lines retained.
pub const LOG_CAPACITY: usize = 5000;

/// The views of a sequence of owned lines.
pub open spec fn views_of(lines: Seq<String>) -> Seq<Seq<char>> {
    lines.map_values(|l: String| l@)
}

/// The most recent `cap` elements of `s`, in their original order
/// (all of `s` when `s` is shorter than `cap`).
pub open spec fn recent_lines(s: Seq<Seq<char>>, cap: int) -> Seq<Seq<char>> {
    if s.len() <= cap {
        s
    } else {
        s.subrange(s.len() - cap, s.len() as int)
    }
}

/// The 1-indexed page of `s` with `size` elements per page: elements
/// `(page - 1) * size` up to (excluding) `page * size`, clipped to the end
/// of `s`; empty when the page lies beyond `s`.
pub open spec fn page_of(s: Seq<Seq<char>>, page: int, size: int) -> Seq<Seq<char>>
    recommends
        page >= 1,
        size >= 1,
{
    let start = (page - 1) * size;
    if start >= s.len() {
        Seq::empty()
    } else if start + size <= s.len() {
        s.subrange(start, start + size)
    } else {
        s.subrange(start, s.len() as int)
    }
}

/// One page of log lines together with the total number of retained lines,
/// as handed to the UI.
#[derive(Debug)]
pub struct NodeLogsResponse {
    /// The lines of the requested page, oldest first.
    pub logs: Vec<String>,
    /// The total number of retained lines, over all pages.
    pub total: u32,
}

/// Process-wide bounded FIFO buffer of textual log lines.
///
/// Its view is the sequence of retained lines, oldest first.  The ghost
/// history records every line ever appended; the invariant `wf` states
/// that the retained lines are exactly the most recent `LOG_CAPACITY`
/// lines of that history.
pub struct LogBuffer {
    lines: VecDeque<String>,
    hist: Ghost<Seq<Seq<char>>>,
}

impl View for LogBuffer {
    type V = Seq<Seq<char>>;

    closed spec fn view(&self) -> Seq<Seq<char>> {
        views_of(self.lines@)
    }
}

impl LogBuffer {
    /// All lines ever appended to the buffer, oldest first.
    pub closed spec fn history(&self) -> Seq<Seq<char>> {
        self.hist@
    }

    /// The buffer retains exactly the most recent `LOG_CAPACITY` lines of
    /// its append history, in their original order.
    pub closed spec fn wf(&self) -> bool {
        self@ == recent_lines(self.history(), LOG_CAPACITY as int)
    }

    /// Creates an empty buffer.
    pub fn new() -> (r: LogBuffer)
        ensures
            r.wf(),
            r@ == Seq::<Seq<char>>::empty(),
            r.history() == Seq::<Seq<char>>::empty(),
    {
        let r = LogBuffer { lines: VecDeque::new(), hist: Ghost(Seq::empty()) };
        proof {
            assert(r@ =~= Seq::<Seq<char>>::empty());
        }
        r
    }

    /// Number of retained lines; never exceeds `LOG_CAPACITY`.
    pub fn len(&self) -> (r: usize)
        requires
            self.wf(),
        ensures
            r == self@.len(),
            r <= LOG_CAPACITY,
    {
        proof {
            let h = self.history();
            let cap = LOG_CAPACITY as int;
            if h.len() <= cap {
                assert(self@.len() == h.len());
            } else {
                assert(self@.len() == cap);
            }
        }
        self.lines.len()
    }

    /// Appends one log line, evicting the oldest retained line first when
    /// the buffer is full.
    pub fn add_to_cache(&mut self, message: String)
        requires
            old(self).wf(),
        ensures
            final(self).wf(),
            final(self).history() == old(self).history().push(message@),
            final(self)@ == if old(self)@.len() < LOG_CAPACITY {
                old(self)@.push(message@)
            } else {
                old(self)@.drop_first().push(message@)
            },
            final(self)@.len() <= LOG_CAPACITY,
    {
        let ghost m = message@;
        let ghost old_lines = self.lines@;
        let ghost old_hist = self.hist@;
        let evict = self.lines.len() >= LOG_CAPACITY;
        if evict {
            self.lines.pop_front();
        }
        self.lines.push_back(message);
        self.hist = Ghost(old_hist.push(m));
        proof {
            let cap = LOG_CAPACITY as int;
            if !evict {
                assert(views_of(self.lines@) =~= views_of(old_lines).push(m));
                assert(views_of(self.lines@) =~= recent_lines(old_hist.push(m), cap));
            } else {
                assert(views_of(self.lines@) =~= views_of(old_lines).drop_first().push(m));
                assert(views_of(self.lines@) =~= recent_lines(old_hist.push(m), cap));
            }
        }
    }

    /// Returns the 1-indexed page `page` of the retained lines, oldest
    /// lines first, together with the total number of retained lines.
    /// A page beyond the retained range is empty; a zero page number or
    /// zero page size is rejected.
    pub fn get_logs(&self, page: u32, page_size: u32) -> (r: Result<(Vec<String>, u32), NodeError>)
        requires
            self.wf(),
        ensures
            match r {
                Ok(p) => {
                    &&& page >= 1 && page_size >= 1
                    &&& p.1 == self@.len()
                    &&& views_of(p.0@) == page_of(self@, page as int, page_size as int)
                    &&& p.0@.len() == page_of(self@, page as int, page_size as int).len()
                },
                Err(e) => {
                    &&& page == 0 || page_size == 0
                    &&& e == NodeError::InvalidPageRequest
                },
            },
    {
        if page == 0 || page_size == 0 {
            return Err(NodeError::InvalidPageRequest);
        }
        let total = self.len();
        let pm1: u64 = (page - 1) as u64;
        proof {
            assert(pm1 * (page_size as u64) < 0x1_0000_0000_0000_0000) by (nonlinear_arith)
                requires
                    pm1 < 0x1_0000_0000,
                    (page_size as u64) < 0x1_0000_0000,
            ;
        }
        let start64: u64 = pm1 * (page_size as u64);
        if start64 >= total as u64 {
            let logs: Vec<String> = Vec::new();
            proof {
                assert(views_of(logs@) =~= page_of(self@, page as int, page_size as int));
            }
            return Ok((logs, total as u32));
        }
        let start: usize = start64 as usize;
        let end64: u64 = start64 + page_size as u64;
        let end: usize = if end64 >= total as u64 {
            total
        } else {
            end64 as usize
        };
        let mut logs: Vec<String> = Vec::new();
        let mut i: usize = start;
        while i < end
            invariant
                self.wf(),
                start <= i <= end <= self@.len() <= LOG_CAPACITY,
                end <= self.lines@.len(),
                views_of(logs@) =~= self@.subrange(start as int, i as int),
            decreases end - i,
        {
            let ghost prev = logs@;
            proof {
                assert(views_of(prev) == self@.subrange(start as int, i as int));
                assert(prev.len() == i - start);
            }
            let line = &self.lines[i];
            logs.push(line.clone());
            proof {
                assert(forall|k: int|
                    0 <= k < prev.len() ==> #[trigger] views_of(prev)[k] == prev[k]@);
                assert(views_of(logs@) =~= self@.subrange(start as int, i + 1 as int));
            }
            i += 1;
        }
        proof {
            assert(views_of(logs@) =~= page_of(self@, page as int, page_size as int));
        }
        Ok((logs, total as u32))
    }

    /// Answers a UI page request: the same result as [`Self::get_logs`],
    /// packaged for transport.
    pub fn get_node_logs(&self, page: u32, page_size: u32) -> (r: Result<
        NodeLogsResponse,
        NodeError,
    >)
        requires
            self.wf(),
        ensures
            match r {
                Ok(resp) => {
                    &&& page >= 1 && page_size >= 1
                    &&& resp.total == self@.len()
                    &&& views_of(resp.logs@) == page_of(self@, page as int, page_size as int)
                    &&& resp.logs@.len() == page_of(self@, page as int, page_size as int).len()
                },
                Err(e) => {
                    &&& page == 0 || page_size == 0
                    &&& e == NodeError::InvalidPageRequest
                },
            },
    {
        match self.get_logs(page, page_size) {
            Ok(p) => Ok(NodeLogsResponse { logs: p.0, total: p.1 }),
            Err(e) => Err(e),
        }
    }

    /// Borrows the retained lines, oldest first, for export.
    pub fn all_lines(&self) -> (r: &VecDeque<String>)
        ensures
            views_of(r@) == self@,
    {
        &self.lines
    }

    /// Law: however many lines have ever been appended, at most
    /// `LOG_CAPACITY` of them are retained, and they are exactly the most
    /// recent lines of the append history, in their original order.
    pub proof fn lemma_retained_is_recent(&self)
        requires
            self.wf(),
        ensures
            self@.len() <= LOG_CAPACITY,
            self@ == recent_lines(self.history(), LOG_CAPACITY as int),
    {
    }
}

} // verus!
