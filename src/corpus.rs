use vstd::prelude::*;
use rand::seq::SliceRandom;
use rand::SeedableRng;

verus! {

/// The named file collections that a benchmark can run over.
#[derive(Clone, Copy, Debug, PartialEq, Eq, Structural)]
pub enum Corpus {
    /// The QOI benchmark suite.
    QoiBench,
    CwebpQoiBench,
    Raw,
}

/// The directory, relative to the working directory, that holds a corpus.
pub open spec fn corpus_dir(c: Corpus) -> Seq<char> {
    match c {
        Corpus::QoiBench => "corpus/qoi_benchmark_suite"@,
        Corpus::CwebpQoiBench => "corpus/cwebp_qoi_bench"@,
        Corpus::Raw => "corpus/raw"@,
    }
}

impl Corpus {
    /// The root directory of this corpus.
    pub fn directory(&self) -> (r: &'static str)
        ensures
            r@ == corpus_dir(*self),
    {
        match self {
            Corpus::QoiBench => "corpus/qoi_benchmark_suite",
            Corpus::CwebpQoiBench => "corpus/cwebp_qoi_bench",
            Corpus::Raw => "corpus/raw",
        }
    }
}

/// One item met while walking a corpus directory.
pub struct WalkEntry {
    pub path: String,
    pub is_file: bool,
}

/// The paths of the regular files among `entries`, in walk order.
pub open spec fn file_paths(entries: Seq<WalkEntry>) -> Seq<String>
    decreases entries.len(),
{
    if entries.len() == 0 {
        Seq::empty()
    } else {
        let rest = file_paths(entries.drop_last());
        if entries.last().is_file {
            rest.push(entries.last().path)
        } else {
            rest
        }
    }
}

/// How the corpus files are put in order.
#[derive(Clone, Copy, Debug, PartialEq, Eq, Structural)]
pub enum Shuffle {
    /// A fresh random permutation for this process.
    Fresh,
    /// A permutation fixed by the given seed.
    Seeded(u64),
}

/// Relies on rand's `SliceRandom::shuffle` with the thread-local generator:
/// the slice ends up as a permutation of what it held.
#[verifier::external_body]
fn shuffle_fresh(v: &mut Vec<String>)
    ensures
        final(v)@.to_multiset() == old(v)@.to_multiset(),
{
    v.shuffle(&mut rand::rng());
}

/// Relies on rand's `StdRng::seed_from_u64`, a generator determined by the seed.
#[verifier::external_body]
fn seeded_rng(seed: u64) -> (r: rand::rngs::StdRng) {
    rand::rngs::StdRng::seed_from_u64(seed)
}

/// Relies on rand's `SliceRandom::shuffle` with a given generator: the slice ends
/// up as a permutation of what it held.
#[verifier::external_body]
fn shuffle_with(v: &mut Vec<String>, rng: &mut rand::rngs::StdRng)
    ensures
        final(v)@.to_multiset() == old(v)@.to_multiset(),
{
    v.shuffle(rng);
}

#[verifier::external_type_specification]
#[verifier::external_body]
pub struct ExStdRng(rand::rngs::StdRng);

/// The files of a corpus, out of the entries of a directory walk, in one
/// permutation that every implementation of a run then shares.
pub fn resolve_files(entries: Vec<WalkEntry>, order: Shuffle) -> (r: Vec<String>)
    ensures
        r@.to_multiset() == file_paths(entries@).to_multiset(),
{
    let mut files: Vec<String> = Vec::new();
    let mut i: usize = 0;
    let ghost all = entries@;
    while i < entries.len()
        invariant
            entries@ == all,
            0 <= i <= all.len(),
            files@ == file_paths(all.subrange(0, i as int)),
        decreases all.len() - i,
    {
        assert(all.subrange(0, i + 1).drop_last() == all.subrange(0, i as int));
        if entries[i].is_file {
            files.push(entries[i].path.clone());
        }
        i = i + 1;
    }
    assert(all.subrange(0, all.len() as int) == all);
    match order {
        Shuffle::Fresh => shuffle_fresh(&mut files),
        Shuffle::Seeded(seed) => {
            let mut rng = seeded_rng(seed);
            shuffle_with(&mut files, &mut rng);
        },
    }
    files
}

/// Whether path `p` lies under directory `root`.
pub open spec fn within(root: Seq<char>, p: Seq<char>) -> bool {
    p.len() > root.len() && p.subrange(0, root.len() as int) == root
}

/// A resolved corpus has one entry per file found, none twice, each under the
/// corpus root, when the walk reported each file once and under that root.
pub proof fn lemma_resolved_corpus(root: Seq<char>, entries: Seq<WalkEntry>, resolved: Seq<String>)
    requires
        resolved.to_multiset() == file_paths(entries).to_multiset(),
        file_paths(entries).no_duplicates(),
        forall|i: int| 0 <= i < entries.len() ==> within(root, (#[trigger] entries[i]).path@),
    ensures
        resolved.len() == file_paths(entries).len(),
        resolved.no_duplicates(),
        forall|i: int| 0 <= i < resolved.len() ==> within(root, (#[trigger] resolved[i])@),
{
    broadcast use vstd::seq_lib::group_to_multiset_ensures;
    let files = file_paths(entries);
    lemma_file_paths_from_entries(entries);
    vstd::seq_lib::to_multiset_len(files);
    vstd::seq_lib::to_multiset_len(resolved);
    files.lemma_multiset_has_no_duplicates();
    resolved.lemma_multiset_has_no_duplicates_conv();
    assert forall|i: int| 0 <= i < resolved.len() implies within(root, (#[trigger] resolved[i])@) by {
        assert(resolved.to_multiset().count(resolved[i]) > 0);
        assert(files.contains(resolved[i]));
    }
}

/// Every file path comes from some entry of the walk.
proof fn lemma_file_paths_from_entries(entries: Seq<WalkEntry>)
    ensures
        forall|j: int| 0 <= j < file_paths(entries).len() ==>
            exists|i: int| 0 <= i < entries.len() && (#[trigger] file_paths(entries)[j]) == entries[i].path,
    decreases entries.len(),
{
    if entries.len() > 0 {
        let init = entries.drop_last();
        lemma_file_paths_from_entries(init);
        assert forall|j: int| 0 <= j < file_paths(entries).len() implies
            exists|i: int| 0 <= i < entries.len() && (#[trigger] file_paths(entries)[j]) == entries[i].path by {
            if j < file_paths(init).len() {
                let i = choose|i: int| 0 <= i < init.len() && file_paths(init)[j] == init[i].path;
                assert(entries[i] == init[i]);
            } else {
                assert(file_paths(entries)[j] == entries[entries.len() - 1].path);
            }
        }
    }
}

} // verus!
