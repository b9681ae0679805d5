use vstd::prelude::*;

use std::collections::VecDeque;

verus! {

/// How many samples the history keeps.
pub const HISTORY_LEN: usize = 60;

/// The history after recording `sample`: the oldest entry leaves once the
/// history is full, the new one goes to the back.
pub open spec fn pushed_history(h: Seq<(u64, i64)>, sample: (u64, i64)) -> Seq<(u64, i64)> {
    if h.len() >= HISTORY_LEN {
        h.drop_first().push(sample)
    } else {
        h.push(sample)
    }
}

/// The history after recording every sample of `samples` in turn.
pub open spec fn history_after(h: Seq<(u64, i64)>, samples: Seq<(u64, i64)>) -> Seq<(u64, i64)>
    decreases samples.len(),
{
    if samples.len() == 0 {
        h
    } else {
        pushed_history(history_after(h, samples.drop_last()), samples.last())
    }
}

/// The `n` newest entries of `s` (all of them when there are fewer).
pub open spec fn newest(s: Seq<(u64, i64)>, n: int) -> Seq<(u64, i64)> {
    if s.len() <= n {
        s
    } else {
        s.subrange(s.len() - n, s.len() as int)
    }
}

/// Live history of read-back and target temperature: two windows of the last
/// [`HISTORY_LEN`] samples, each sample stamped with a running index.
/// Temperatures are fixed-point thousandths of `unit`.
pub struct GraphWidget {
    pub title: String,
    pub unit: String,
    pub min: i64,
    pub max: i64,
    pub current_history: VecDeque<(u64, i64)>,
    pub target_history: VecDeque<(u64, i64)>,
    pub next_x: u64,
}

/// The plain values a [`GraphWidget`] holds.
pub struct GraphView {
    pub title: Seq<char>,
    pub unit: Seq<char>,
    pub min: i64,
    pub max: i64,
    pub current_history: Seq<(u64, i64)>,
    pub target_history: Seq<(u64, i64)>,
    pub next_x: u64,
}

impl View for GraphWidget {
    type V = GraphView;

    open spec fn view(&self) -> GraphView {
        GraphView {
            title: self.title@,
            unit: self.unit@,
            min: self.min,
            max: self.max,
            current_history: self.current_history@,
            target_history: self.target_history@,
            next_x: self.next_x,
        }
    }
}

/// The history after recording one read-back and one target temperature.
pub open spec fn graph_pushed(g: GraphView, current: i64, target: i64) -> GraphView {
    GraphView {
        current_history: pushed_history(g.current_history, (g.next_x, current)),
        target_history: pushed_history(g.target_history, (g.next_x, target)),
        next_x: g.next_x.saturating_add(1),
        ..g
    }
}

impl GraphWidget {
    /// An empty history titled `title`, for values in `[min, max]`.
    pub fn new(title: &str, unit: &str, min: i64, max: i64) -> (w: Self)
        ensures
            w@ == (GraphView {
                title: title@,
                unit: unit@,
                min,
                max,
                current_history: Seq::empty(),
                target_history: Seq::empty(),
                next_x: 0,
            }),
    {
        GraphWidget {
            title: String::from_str(title),
            unit: String::from_str(unit),
            min,
            max,
            current_history: VecDeque::with_capacity(HISTORY_LEN),
            target_history: VecDeque::with_capacity(HISTORY_LEN),
            next_x: 0,
        }
    }

    /// Records one read-back and one target temperature under the next index.
    pub fn push_sample(&mut self, current: i64, target: i64)
        ensures
            final(self)@ == graph_pushed(old(self)@, current, target),
    {
        if self.current_history.len() >= HISTORY_LEN {
            self.current_history.pop_front();
        }
        if self.target_history.len() >= HISTORY_LEN {
            self.target_history.pop_front();
        }
        self.current_history.push_back((self.next_x, current));
        self.target_history.push_back((self.next_x, target));
        self.next_x = self.next_x.saturating_add(1);
    }

    /// The span of indices shown: from the oldest kept sample (zero when
    /// there is none) to the next index, and at least one wide.
    pub fn x_bounds(&self) -> (r: [u64; 2])
        ensures
            r[0] == if self.current_history@.len() == 0 {
                0
            } else {
                self.current_history@[0].0
            },
            r[1] == if self.next_x >= r[0].saturating_add(1) {
                self.next_x
            } else {
                r[0].saturating_add(1)
            },
    {
        let min_x = if self.current_history.len() == 0 {
            0
        } else {
            self.current_history[0].0
        };
        let lower = min_x.saturating_add(1);
        let max_x = if self.next_x >= lower {
            self.next_x
        } else {
            lower
        };
        [min_x, max_x]
    }
}

/// Recording a sample never lets the history grow past [`HISTORY_LEN`], and
/// the new sample is its newest entry.
pub proof fn lemma_history_bounded(h: Seq<(u64, i64)>, sample: (u64, i64))
    requires
        h.len() <= HISTORY_LEN,
    ensures
        pushed_history(h, sample).len() <= HISTORY_LEN,
        pushed_history(h, sample).last() == sample,
        pushed_history(h, sample).len() == if h.len() < HISTORY_LEN {
            h.len() + 1int
        } else {
            HISTORY_LEN as int
        },
{
}

/// From an empty history, recording any run of samples keeps exactly the
/// newest [`HISTORY_LEN`] of them, oldest first.
pub proof fn lemma_history_keeps_newest(samples: Seq<(u64, i64)>)
    ensures
        history_after(Seq::empty(), samples) == newest(samples, HISTORY_LEN as int),
    decreases samples.len(),
{
    if samples.len() > 0 {
        let prev = samples.drop_last();
        lemma_history_keeps_newest(prev);
        let h = newest(prev, HISTORY_LEN as int);
        if prev.len() >= HISTORY_LEN {
            assert(h.drop_first().push(samples.last()) =~= newest(samples, HISTORY_LEN as int));
        } else {
            assert(h.push(samples.last()) =~= newest(samples, HISTORY_LEN as int));
        }
    } else {
        assert(newest(samples, HISTORY_LEN as int) =~= samples);
    }
}

} // verus!
