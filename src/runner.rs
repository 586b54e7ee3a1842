use vstd::prelude::*;
use crate::sampling::{fast_keep, keeps_path};
use crate::cancel::Cancellation;
use crate::stats::TrialSample;

verus! {

/// What the driver of a run does next.
pub enum Step {
    /// Time implementation `implementation` on corpus file `file`, then hand the
    /// outcome to `TrialRunner::record`.
    Trial { implementation: usize, file: usize },
    /// Print the statistics of `implementation` over `samples` (nothing where
    /// `samples` is empty). `interrupted` tells that the run stops after it.
    Report { implementation: usize, samples: Vec<TrialSample>, interrupted: bool },
    /// The run is over.
    Done,
}

/// The abstract state of a run.
pub struct RunnerView {
    /// The registry indices of the implementations to run, in order.
    pub selected: Seq<usize>,
    /// For each corpus file, whether it takes part in the run.
    pub keep: Seq<bool>,
    /// The position in `selected` of the implementation being measured.
    pub pos: int,
    /// The next corpus file to consider for it.
    pub file: int,
    /// Whether a trial was handed out and its outcome is awaited.
    pub pending: bool,
    /// Whether a stop request ended the run.
    pub stopped: bool,
    /// The samples gathered so far for the implementation being measured.
    pub samples: Seq<TrialSample>,
    /// The files handed out so far to the implementation being measured.
    pub tried: Seq<usize>,
}

/// The trial loop of a benchmark run, as a state machine: the driver asks for
/// the next step, performs it (reading files, timing the transform, printing)
/// and hands back what a trial gave.
pub struct TrialRunner {
    selected: Vec<usize>,
    keep: Vec<bool>,
    pos: usize,
    file: usize,
    pending: bool,
    stopped: bool,
    samples: Vec<TrialSample>,
    tried: Ghost<Seq<usize>>,
}

/// The first file at or after `f` that takes part in the run, or the corpus
/// length where none does.
pub open spec fn next_kept(keep: Seq<bool>, f: int) -> int
    decreases keep.len() - f,
{
    if f >= keep.len() {
        keep.len() as int
    } else if f < 0 {
        next_kept(keep, 0)
    } else if keep[f] {
        f
    } else {
        next_kept(keep, f + 1)
    }
}

/// The files before `f` that take part in the run, in corpus order.
pub open spec fn kept_before(keep: Seq<bool>, f: int) -> Seq<usize>
    decreases f,
{
    if f <= 0 {
        Seq::empty()
    } else {
        let r = kept_before(keep, f - 1);
        if keep[f - 1] {
            r.push((f - 1) as usize)
        } else {
            r
        }
    }
}

impl RunnerView {
    /// The state of a run that has not yet begun.
    pub open spec fn initial(selected: Seq<usize>, keep: Seq<bool>) -> RunnerView {
        RunnerView {
            selected,
            keep,
            pos: 0,
            file: 0,
            pending: false,
            stopped: false,
            samples: Seq::empty(),
            tried: Seq::empty(),
        }
    }

    pub open spec fn wf(self) -> bool {
        &&& 0 <= self.pos <= self.selected.len()
        &&& 0 <= self.file <= self.keep.len()
        &&& self.keep.len() < usize::MAX
        &&& self.pending ==> {
            &&& self.pos < self.selected.len()
            &&& self.file < self.keep.len()
            &&& self.keep[self.file]
            &&& self.tried == kept_before(self.keep, self.file + 1)
        }
        &&& !self.pending ==> self.tried == kept_before(self.keep, self.file)
        &&& self.stopped ==> !self.pending
    }

    /// Whether the run has nothing left to do.
    pub open spec fn finished(self) -> bool {
        self.stopped || self.pos >= self.selected.len()
    }
}

impl View for TrialRunner {
    type V = RunnerView;

    closed spec fn view(&self) -> RunnerView {
        RunnerView {
            selected: self.selected@,
            keep: self.keep@,
            pos: self.pos as int,
            file: self.file as int,
            pending: self.pending,
            stopped: self.stopped,
            samples: self.samples@,
            tried: self.tried@,
        }
    }
}

/// Skipping files that take no part leaves the files handed out unchanged.
proof fn lemma_kept_before_skip(keep: Seq<bool>, f: int, j: int)
    requires
        0 <= f <= j <= next_kept(keep, f),
        j <= keep.len(),
    ensures
        kept_before(keep, j) == kept_before(keep, f),
    decreases j - f,
{
    if j > f {
        lemma_kept_before_skip(keep, f, j - 1);
        lemma_next_kept_skips(keep, f, j - 1);
    }
}

/// No file between `f` and `next_kept(keep, f)` takes part.
proof fn lemma_next_kept_skips(keep: Seq<bool>, f: int, i: int)
    requires
        0 <= f <= i < next_kept(keep, f),
    ensures
        !keep[i],
        next_kept(keep, f) <= keep.len(),
    decreases keep.len() - f,
{
    assert(f < keep.len());
    lemma_next_kept_bounds(keep, f);
    assert(!keep[f]);
    if f < i {
        lemma_next_kept_skips(keep, f + 1, i);
    }
}

/// `next_kept` lands on a file that takes part, or at the end.
proof fn lemma_next_kept_bounds(keep: Seq<bool>, f: int)
    requires
        0 <= f <= keep.len(),
    ensures
        f <= next_kept(keep, f) <= keep.len(),
        next_kept(keep, f) < keep.len() ==> keep[next_kept(keep, f)],
    decreases keep.len() - f,
{
    if f < keep.len() && !keep[f] {
        lemma_next_kept_bounds(keep, f + 1);
    }
}

/// Which corpus files take part in a run: all of them, or in fast mode those
/// whose path the sampling predicate keeps.
pub open spec fn sampled(paths: Seq<String>, fast: bool) -> Seq<bool> {
    Seq::new(paths.len(), |i: int| !fast || keeps_path(paths[i]@))
}

/// For each corpus file, whether it takes part in a run. Computed once per run,
/// so that every implementation is measured over the same files.
pub fn sampled_files(paths: &Vec<String>, fast: bool) -> (r: Vec<bool>)
    ensures
        r@ == sampled(paths@, fast),
{
    let mut r: Vec<bool> = Vec::new();
    let mut i: usize = 0;
    while i < paths.len()
        invariant
            0 <= i <= paths.len(),
            r@ == sampled(paths@, fast).subrange(0, i as int),
        decreases paths.len() - i,
    {
        let k = !fast || fast_keep(paths[i].as_str());
        r.push(k);
        assert(r@ == sampled(paths@, fast).subrange(0, i + 1));
        i = i + 1;
    }
    assert(r@ == sampled(paths@, fast));
    r
}

impl TrialRunner {
    /// A run over the implementations `selected` (registry indices, in order)
    /// and the corpus files marked in `keep`.
    pub fn new(selected: Vec<usize>, keep: Vec<bool>) -> (r: Self)
        requires
            keep@.len() < usize::MAX,
        ensures
            r@ == RunnerView::initial(selected@, keep@),
            r@.wf(),
    {
        TrialRunner {
            selected,
            keep,
            pos: 0,
            file: 0,
            pending: false,
            stopped: false,
            samples: Vec::new(),
            tried: Ghost(Seq::empty()),
        }
    }

    /// Whether a trial was handed out and its outcome is awaited.
    pub fn is_pending(&self) -> (r: bool)
        ensures
            r == self@.pending,
    {
        self.pending
    }

    /// The next step of the run. Files that take no part are passed over; at
    /// the next file that does, the cancellation signal is polled, and a stop
    /// request ends the run after reporting the
    /// samples gathered so far for the implementation being measured. After the
    /// last file an implementation is reported and the next one begins.
    pub fn next_step(&mut self, cancel: Cancellation) -> (r: Step)
        requires
            old(self)@.wf(),
            !old(self)@.pending,
        ensures
            final(self)@.wf(),
            ({
                let o = old(self)@;
                let n = final(self)@;
                let k = next_kept(o.keep, o.file);
                let stop = cancel == Cancellation::StopRequested;
                if o.finished() {
                    r is Done && n == o
                } else if k < o.keep.len() && stop {
                    &&& r matches Step::Report { implementation, samples, interrupted }
                        && implementation == o.selected[o.pos] && samples@ == o.samples && interrupted
                    &&& o.tried == kept_before(o.keep, k)
                    &&& n == RunnerView { stopped: true, file: k, samples: Seq::empty(), ..o }
                } else if k < o.keep.len() {
                    &&& r matches Step::Trial { implementation, file } && implementation
                        == o.selected[o.pos] && file == k
                    &&& n == RunnerView { pending: true, file: k, tried: o.tried.push(k as usize), ..o }
                } else {
                    &&& r matches Step::Report { implementation, samples, interrupted }
                        && implementation == o.selected[o.pos] && samples@ == o.samples && !interrupted
                    &&& o.tried == kept_before(o.keep, o.keep.len() as int)
                    &&& n == RunnerView {
                        pos: o.pos + 1,
                        file: 0,
                        samples: Seq::empty(),
                        tried: Seq::empty(),
                        ..o
                    }
                }
            }),
    {
        if self.stopped || self.pos >= self.selected.len() {
            return Step::Done;
        }
        let ghost f0 = self.file as int;
        let ghost keep = self.keep@;
        proof {
            lemma_next_kept_bounds(keep, f0);
        }
        let mut f = self.file;
        while f < self.keep.len() && !self.keep[f]
            invariant
                keep == self.keep@,
                f0 <= f <= next_kept(keep, f0),
                next_kept(keep, f as int) == next_kept(keep, f0),
                next_kept(keep, f0) <= keep.len(),
            decreases keep.len() - f,
        {
            f = f + 1;
            proof {
                lemma_next_kept_bounds(keep, f as int);
            }
        }
        proof {
            lemma_kept_before_skip(keep, f0, f as int);
        }
        self.file = f;
        let implementation = self.selected[self.pos];
        if self.file < self.keep.len() {
            if cancel.stop_requested() {
                self.stopped = true;
                let mut samples: Vec<TrialSample> = Vec::new();
                std::mem::swap(&mut samples, &mut self.samples);
                return Step::Report { implementation, samples, interrupted: true };
            }
            self.pending = true;
            proof {
                let keep = self.keep@;
                let f = self.file as int;
                assert(kept_before(keep, f + 1) == kept_before(keep, f).push(f as usize));
                self.tried@ = self.tried@.push(self.file);
            }
            return Step::Trial { implementation, file: self.file };
        }
        self.pos = self.pos + 1;
        self.file = 0;
        self.tried = Ghost(Seq::empty());
        let mut samples: Vec<TrialSample> = Vec::new();
        std::mem::swap(&mut samples, &mut self.samples);
        Step::Report { implementation, samples, interrupted: false }
    }

    /// Hands back the outcome of the trial that was handed out: the sample it
    /// gave, or `None` where the prepare step declined the file, which then
    /// counts for nothing.
    pub fn record(&mut self, outcome: Option<TrialSample>)
        requires
            old(self)@.wf(),
            old(self)@.pending,
        ensures
            final(self)@.wf(),
            final(self)@ == (RunnerView {
                pending: false,
                file: old(self)@.file + 1,
                samples: match outcome {
                    Some(s) => old(self)@.samples.push(s),
                    None => old(self)@.samples,
                },
                ..old(self)@
            }),
    {
        if let Some(s) = outcome {
            self.samples.push(s);
        }
        self.pending = false;
        self.file = self.file + 1;
    }
}

/// Every implementation of a run is measured over the same files in the same
/// order: at the same point of the corpus, two runs over the same files hand out
/// the same trials, whichever implementations they selected and whichever one
/// they are measuring.
pub proof fn lemma_same_files_for_every_implementation(a: RunnerView, b: RunnerView)
    requires
        a.wf(),
        b.wf(),
        a.keep == b.keep,
        a.file == b.file,
        a.pending == b.pending,
    ensures
        a.tried == b.tried,
{
}

} // verus!
