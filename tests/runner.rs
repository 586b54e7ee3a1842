use harness::cancel::Cancellation;
use harness::report::{has_report, report_label};
use harness::runner::{sampled_files, Step, TrialRunner};
use harness::sampling::fast_keep;
use harness::stats::{ratio_of_means, TrialSample};
use harness::ToCompressedSize;

fn sample(elapsed_ns: u64, size: u64) -> TrialSample {
    TrialSample { elapsed_ns, logical_size: size, input_bytes: size, output_bytes: None }
}

/// Drives a run to its end; `outcome(implementation, file)` plays the trial.
/// Returns the reports and the trials in the order they were handed out.
fn drive(
    runner: &mut TrialRunner,
    stop_after: Option<usize>,
    outcome: impl Fn(usize, usize) -> Option<TrialSample>,
) -> (Vec<(usize, Vec<TrialSample>, bool)>, Vec<(usize, usize)>) {
    let mut reports = Vec::new();
    let mut trials = Vec::new();
    loop {
        let mut cancel = Cancellation::new();
        if stop_after.map_or(false, |n| trials.len() >= n) {
            cancel.interrupt();
        }
        match runner.next_step(cancel) {
            Step::Trial { implementation, file } => {
                trials.push((implementation, file));
                runner.record(outcome(implementation, file));
            }
            Step::Report { implementation, samples, interrupted } => {
                reports.push((implementation, samples, interrupted))
            }
            Step::Done => return (reports, trials),
        }
    }
}

fn geomean(samples: &[TrialSample]) -> f64 {
    let n = samples.len() as f64;
    samples
        .iter()
        .map(|s| s.logical_size as f64 / (s.elapsed_ns as f64 * 1e-9))
        .fold(1.0, |acc, x| acc * x.powf(1.0 / n))
}

#[test]
fn two_implementations_ranked_by_geomean() {
    let mut runner = TrialRunner::new(vec![0, 1], vec![true, true, true]);
    let times = [[1_000_000_000u64, 2_000_000_000, 4_000_000_000], [1_000_000_000; 3]];
    let (reports, _) = drive(&mut runner, None, |i, f| Some(sample(times[i][f], 1_000_000)));
    assert_eq!(reports.len(), 2);
    let (a, b) = (&reports[0], &reports[1]);
    assert_eq!((a.0, a.2, b.0, b.2), (0, false, 1, false));
    let speeds: Vec<f64> =
        a.1.iter().map(|s| s.logical_size as f64 / (s.elapsed_ns as f64 * 1e-9)).collect();
    assert_eq!(speeds, vec![1e6, 5e5, 2.5e5]);
    assert!((geomean(&a.1) - 5.0e5).abs() < 1.0);
    assert!((geomean(&b.1) - 1.0e6).abs() < 1e-6);
    assert!(geomean(&b.1) > geomean(&a.1));
}

#[test]
fn interrupt_reports_files_so_far_and_stops() {
    let mut runner = TrialRunner::new(vec![4, 7], vec![true; 5]);
    let (reports, trials) = drive(&mut runner, Some(2), |_, f| Some(sample(10 + f as u64, 100)));
    assert_eq!(trials, vec![(4, 0), (4, 1)]);
    assert_eq!(reports.len(), 1);
    let (implementation, samples, interrupted) = &reports[0];
    assert_eq!(*implementation, 4);
    assert!(*interrupted);
    assert_eq!(samples, &vec![sample(10, 100), sample(11, 100)]);
    assert!(matches!(runner.next_step(Cancellation::new()), Step::Done));
}

#[test]
fn declined_files_count_for_nothing() {
    let mut runner = TrialRunner::new(vec![0], vec![true; 4]);
    let (reports, trials) =
        drive(&mut runner, None, |_, f| if f % 2 == 1 { None } else { Some(sample(5, f as u64)) });
    assert_eq!(trials.len(), 4);
    assert_eq!(reports[0].1, vec![sample(5, 0), sample(5, 2)]);
}

#[test]
fn every_implementation_sees_the_same_files() {
    let paths: Vec<String> =
        (0..300).map(|i| format!("corpus/qoi_benchmark_suite/{i:04}.png")).collect();
    let keep = sampled_files(&paths, true);
    let expected: Vec<usize> = (0..300).filter(|&i| fast_keep(&paths[i])).collect();
    assert!(!expected.is_empty() && expected.len() < 300);
    let mut runner = TrialRunner::new(vec![0, 1, 2], keep.clone());
    let (_, trials) = drive(&mut runner, None, |_, _| None);
    for implementation in 0..3 {
        let files: Vec<usize> =
            trials.iter().filter(|t| t.0 == implementation).map(|t| t.1).collect();
        assert_eq!(files, expected);
    }
    let mut single = TrialRunner::new(vec![1], keep);
    let (_, single_trials) = drive(&mut single, None, |_, _| None);
    let of_one: Vec<(usize, usize)> = trials.into_iter().filter(|t| t.0 == 1).collect();
    assert_eq!(single_trials, of_one);
}

#[test]
fn without_fast_mode_every_file_takes_part() {
    let paths: Vec<String> = (0..20).map(|i| format!("f{i}")).collect();
    assert_eq!(sampled_files(&paths, false), vec![true; 20]);
}

#[test]
fn no_implementations_means_no_reports() {
    let mut runner = TrialRunner::new(Vec::new(), vec![true; 3]);
    let (reports, trials) = drive(&mut runner, None, |_, _| None);
    assert!(reports.is_empty() && trials.is_empty());
}

#[test]
fn ratio_of_means_is_exact() {
    let s = vec![
        TrialSample { elapsed_ns: 1, logical_size: 10, input_bytes: 100, output_bytes: Some(50) },
        TrialSample { elapsed_ns: 1, logical_size: 10, input_bytes: 300, output_bytes: Some(30) },
    ];
    assert_eq!(ratio_of_means(&s), Some((80, 400)));
    assert_eq!(ratio_of_means(&vec![sample(1, 1)]), None);
    assert_eq!(ratio_of_means(&Vec::new()), None);
}

#[test]
fn half_sized_outputs_give_half_ratio() {
    let s: Vec<TrialSample> = [100u64, 2_000, 64, 1_000_000]
        .iter()
        .map(|&n| TrialSample { elapsed_ns: 3, logical_size: n, input_bytes: n, output_bytes: Some(n / 2) })
        .collect();
    let (o, i) = ratio_of_means(&s).unwrap();
    assert_eq!(2 * o, i);
    assert_eq!((o, i), (501_082, 1_002_164));
}

#[test]
fn second_interrupt_exits() {
    let mut c = Cancellation::new();
    assert!(!c.stop_requested());
    assert!(!c.interrupt());
    assert!(c.stop_requested());
    assert!(c.interrupt());
    assert!(c.stop_requested());
}

#[test]
fn report_labels_are_padded() {
    assert_eq!(report_label("qoi"), "qoi:              ");
    assert_eq!(report_label("qoi").len(), 18);
    let long = "a-very-long-implementation";
    assert_eq!(report_label(long), format!("{long}:"));
    assert!(has_report(&vec![sample(1, 1)]));
    assert!(!has_report::<TrialSample>(&Vec::new()));
}

#[test]
fn compressed_sizes() {
    assert_eq!(vec![1u8, 2, 3].to_compressed_size(), Some(3));
    assert_eq!((&[7u8; 9][..]).to_compressed_size(), Some(9));
    assert_eq!(().to_compressed_size(), None);
}
