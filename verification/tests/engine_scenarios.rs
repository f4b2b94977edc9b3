use bisect::engine::Bisect;
use bisect::oracle::FixedOracle;
use bisect::outcome::MinimalCompatibility;
use bisect::progress::{RecordingOutput, SilentOutput};
use bisect::release::Release;
use bisect::verdict::{FatalError, Verdict};

fn rel(minor: u64) -> Release {
    Release::new(1, minor, 0)
}

fn incompatible(reason: &str) -> Verdict {
    Verdict::Incompatible { reason: reason.to_string() }
}

fn boundary_oracle(catalog: &[Release], boundary: usize) -> FixedOracle {
    let mut entries = Vec::new();
    for (i, release) in catalog.iter().enumerate() {
        if i < boundary {
            entries.push((*release, incompatible(&format!("candidate {} fails", i))));
        } else {
            entries.push((*release, Verdict::Compatible));
        }
    }
    FixedOracle::new(entries, incompatible("not in catalog"))
}

#[test]
fn boundary_in_five_candidates() {
    let catalog = vec![rel(1), rel(2), rel(3), rel(4), rel(5)];
    let oracle = boundary_oracle(&catalog, 3);
    let engine = Bisect::new(oracle);
    let mut recorder = RecordingOutput::new();

    let result = engine.find_toolchain(&catalog, &mut recorder);

    assert_eq!(
        result,
        Ok(MinimalCompatibility::CapableToolchain {
            version: rel(4),
            last_error: Some("candidate 2 fails".to_string()),
        })
    );
    // Midpoint first, then the midpoints of the remaining window.
    assert_eq!(recorder.checked, vec![rel(3), rel(5), rel(4)]);
    // Each estimate is evaluations so far plus the remaining window's span.
    assert_eq!(recorder.steps, vec![3, 3, 3]);
}

#[test]
fn boundary_in_seven_candidates_within_three_calls() {
    let catalog: Vec<Release> = (1..=7).map(rel).collect();
    let oracle = boundary_oracle(&catalog, 5);
    let engine = Bisect::new(oracle);
    let mut recorder = RecordingOutput::new();

    let result = engine.find_toolchain(&catalog, &mut recorder);

    assert_eq!(
        result,
        Ok(MinimalCompatibility::CapableToolchain {
            version: rel(6),
            last_error: Some("candidate 4 fails".to_string()),
        })
    );
    assert!(recorder.checked.len() <= 3);
}

#[test]
fn all_incompatible_keeps_last_reason() {
    let catalog = vec![rel(1), rel(2), rel(3), rel(4), rel(5)];
    let oracle = boundary_oracle(&catalog, 5);
    let engine = Bisect::new(oracle);
    let mut recorder = RecordingOutput::new();

    let result = engine.find_toolchain(&catalog, &mut recorder);

    // The last candidate the engine narrowed to is the catalog's last element.
    assert_eq!(
        result,
        Ok(MinimalCompatibility::NoCompatibleToolchains {
            last_error: Some("candidate 4 fails".to_string()),
        })
    );
    assert_eq!(recorder.checked, vec![rel(3), rel(5)]);
}

#[test]
fn all_compatible_reports_oldest_without_reason() {
    let catalog = vec![rel(1), rel(2), rel(3), rel(4), rel(5)];
    let oracle = boundary_oracle(&catalog, 0);
    let engine = Bisect::new(oracle);
    let mut recorder = RecordingOutput::new();

    let result = engine.find_toolchain(&catalog, &mut recorder);

    assert_eq!(
        result,
        Ok(MinimalCompatibility::CapableToolchain { version: rel(1), last_error: None })
    );
    assert_eq!(recorder.checked, vec![rel(3), rel(2), rel(1)]);
}

#[test]
fn single_compatible_candidate_takes_one_call() {
    let catalog = vec![rel(1)];
    let oracle = boundary_oracle(&catalog, 0);
    let engine = Bisect::new(oracle);
    let mut recorder = RecordingOutput::new();

    let result = engine.find_toolchain(&catalog, &mut recorder);

    assert_eq!(
        result,
        Ok(MinimalCompatibility::CapableToolchain { version: rel(1), last_error: None })
    );
    assert_eq!(recorder.checked, vec![rel(1)]);
}

#[test]
fn empty_catalog_needs_no_oracle_call() {
    let catalog: Vec<Release> = Vec::new();
    let oracle = FixedOracle::new(Vec::new(), Verdict::Compatible);
    let engine = Bisect::new(oracle);
    let mut recorder = RecordingOutput::new();

    let result = engine.find_toolchain(&catalog, &mut recorder);

    assert_eq!(result, Ok(MinimalCompatibility::NoCompatibleToolchains { last_error: None }));
    assert_eq!(recorder.checked, Vec::<Release>::new());
    assert_eq!(recorder.steps, Vec::<u64>::new());
}

#[test]
fn unrecoverable_error_aborts_and_propagates_unchanged() {
    let catalog = vec![rel(1), rel(2), rel(3), rel(4), rel(5)];
    let mut entries = Vec::new();
    entries.push((rel(1), incompatible("v1 fails")));
    entries.push((rel(2), incompatible("v2 fails")));
    entries.push((
        rel(3),
        Verdict::Unrecoverable {
            error: FatalError::new("checker cannot run at all".to_string()),
        },
    ));
    entries.push((rel(4), Verdict::Compatible));
    entries.push((rel(5), Verdict::Compatible));
    let oracle = FixedOracle::new(entries, Verdict::Compatible);
    let engine = Bisect::new(oracle);
    let mut recorder = RecordingOutput::new();

    let result = engine.find_toolchain(&catalog, &mut recorder);

    assert_eq!(result, Err(FatalError::new("checker cannot run at all".to_string())));
    // The first midpoint was the only evaluation: the search stopped at once.
    assert_eq!(recorder.checked, vec![rel(3)]);
}

#[test]
fn repeated_searches_are_identical() {
    let catalog: Vec<Release> = (1..=6).map(rel).collect();
    let oracle = boundary_oracle(&catalog, 4);
    let engine = Bisect::new(oracle);

    let mut first_recorder = RecordingOutput::new();
    let first = engine.find_toolchain(&catalog, &mut first_recorder);
    let mut second_recorder = RecordingOutput::new();
    let second = engine.find_toolchain(&catalog, &mut second_recorder);

    assert_eq!(first, second);
    assert_eq!(first_recorder.checked, second_recorder.checked);
    assert_eq!(first_recorder.steps, second_recorder.steps);
}

#[test]
fn silent_output_is_legal_and_changes_nothing() {
    let catalog = vec![rel(1), rel(2), rel(3), rel(4), rel(5)];
    let engine = Bisect::new(boundary_oracle(&catalog, 3));
    let mut silent = SilentOutput;

    let with_silence = engine.find_toolchain(&catalog, &mut silent);

    let engine = Bisect::new(boundary_oracle(&catalog, 3));
    let mut recorder = RecordingOutput::new();
    let with_recording = engine.find_toolchain(&catalog, &mut recorder);

    assert_eq!(with_silence, with_recording);
}
