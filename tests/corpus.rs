use harness::corpus::{resolve_files, Shuffle, WalkEntry};
use harness::sampling::{fast_keep, keep_hash, FAST_SAMPLE_LIMIT};
use harness::Corpus;

fn walk(n: usize) -> Vec<WalkEntry> {
    let mut v = vec![WalkEntry { path: "corpus/raw".to_string(), is_file: false }];
    for i in 0..n {
        v.push(WalkEntry { path: format!("corpus/raw/{i:03}.raw"), is_file: true });
        if i % 3 == 0 {
            v.push(WalkEntry { path: format!("corpus/raw/dir{i}"), is_file: false });
        }
    }
    v
}

#[test]
fn corpus_directories() {
    assert_eq!(Corpus::QoiBench.directory(), "corpus/qoi_benchmark_suite");
    assert_eq!(Corpus::CwebpQoiBench.directory(), "corpus/cwebp_qoi_bench");
    assert_eq!(Corpus::Raw.directory(), "corpus/raw");
}

#[test]
fn resolved_corpus_has_each_file_once_under_root() {
    let files = resolve_files(walk(40), Shuffle::Fresh);
    assert_eq!(files.len(), 40);
    let mut sorted = files.clone();
    sorted.sort();
    sorted.dedup();
    assert_eq!(sorted.len(), 40);
    assert!(files.iter().all(|p| p.starts_with("corpus/raw/")));
    let expected: Vec<String> = (0..40).map(|i| format!("corpus/raw/{i:03}.raw")).collect();
    assert_eq!(sorted, expected);
}

#[test]
fn seeded_order_is_reproducible() {
    let a = resolve_files(walk(25), Shuffle::Seeded(7));
    let b = resolve_files(walk(25), Shuffle::Seeded(7));
    assert_eq!(a, b);
    assert_eq!(a.len(), 25);
}

#[test]
fn empty_walk_gives_empty_corpus() {
    assert!(resolve_files(Vec::new(), Shuffle::Fresh).is_empty());
}

#[test]
fn fast_threshold_is_a_tenth_of_the_hash_space() {
    assert_eq!(FAST_SAMPLE_LIMIT, u32::MAX / 10);
    assert!(keep_hash(0));
    assert!(keep_hash(u32::MAX / 10));
    assert!(!keep_hash(u32::MAX / 10 + 1));
    assert!(!keep_hash(u32::MAX));
}

#[test]
fn fast_predicate_follows_path_crc() {
    // The CRC-32 of "123456789" is 0xCBF43926, above the threshold.
    assert!(!fast_keep("123456789"));
    let mut kept = 0;
    for i in 0..1000 {
        let p = format!("corpus/qoi_benchmark_suite/{i:04}.png");
        let expected = crc32fast::hash(p.as_bytes()) <= u32::MAX / 10;
        assert_eq!(fast_keep(&p), expected);
        assert_eq!(fast_keep(&p), fast_keep(&p.clone()));
        if expected {
            kept += 1;
        }
    }
    assert!(kept > 0 && kept < 1000);
}
