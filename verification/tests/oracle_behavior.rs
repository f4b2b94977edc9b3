use bisect::engine::Bisect;
use bisect::oracle::{Check, FixedOracle};
use bisect::outcome::MinimalCompatibility;
use bisect::progress::RecordingOutput;
use bisect::release::Release;
use bisect::verdict::Verdict;

#[test]
fn scripted_entry_decides_the_verdict() {
    let release = Release::new(1, 42, 0);
    let mut entries = Vec::new();
    entries.push((release, Verdict::Incompatible { reason: "too old".to_string() }));
    let oracle = FixedOracle::new(entries, Verdict::Compatible);

    let verdict = oracle.check(&release);

    assert_eq!(verdict, Verdict::Incompatible { reason: "too old".to_string() });
}

#[test]
fn first_matching_entry_wins() {
    let release = Release::new(1, 42, 0);
    let mut entries = Vec::new();
    entries.push((release, Verdict::Incompatible { reason: "first".to_string() }));
    entries.push((release, Verdict::Compatible));
    let oracle = FixedOracle::new(entries, Verdict::Compatible);

    let verdict = oracle.check(&release);

    assert_eq!(verdict, Verdict::Incompatible { reason: "first".to_string() });
}

#[test]
fn unscripted_release_falls_back() {
    let scripted = Release::new(1, 1, 0);
    let unscripted = Release::new(1, 9, 3);
    let mut entries = Vec::new();
    entries.push((scripted, Verdict::Compatible));
    let oracle = FixedOracle::new(entries, Verdict::Incompatible { reason: "unknown".to_string() });

    let verdict = oracle.check(&unscripted);

    assert_eq!(verdict, Verdict::Incompatible { reason: "unknown".to_string() });
}

#[test]
fn fallback_verdict_drives_a_whole_search() {
    let catalog = vec![Release::new(1, 7, 0)];
    let oracle = FixedOracle::new(Vec::new(), Verdict::Compatible);
    let engine = Bisect::new(oracle);
    let mut recorder = RecordingOutput::new();

    let result = engine.find_toolchain(&catalog, &mut recorder);

    assert_eq!(
        result,
        Ok(MinimalCompatibility::CapableToolchain {
            version: Release::new(1, 7, 0),
            last_error: None,
        })
    );
}

#[test]
fn duplicate_returns_an_equal_verdict() {
    let verdict = Verdict::Incompatible { reason: "kept as is".to_string() };
    assert_eq!(verdict.duplicate(), verdict);
    assert_eq!(Verdict::Compatible.duplicate(), Verdict::Compatible);
}
