use license_scan::{
    Classification, LicenseKind, Localization, Scan, ScanResult, ScanStep, ScanStrategy, Score, SCORE_SCALE,
};

fn score(units: u32) -> Score {
    Score::new(units).expect("score within range")
}

fn classified(units: u32, name: &str) -> Classification {
    Classification { score: score(units), name: name.to_string(), kind: LicenseKind::Original }
}

fn located(units: u32, start: usize, end: usize) -> Localization {
    Localization { score: score(units), line_range: (start, end) }
}

/// Runs a scan against scripted engine answers. Each pass takes the next
/// localization and, after a hit, the next classification of the masked
/// text. Returns the result and the number of engine calls made.
fn drive(
    strategy: &ScanStrategy,
    first: Classification,
    localizations: Vec<Localization>,
    reclassifications: Vec<Classification>,
) -> (ScanResult, usize) {
    let mut calls = 1;
    let mut found = localizations.into_iter();
    let mut next = reclassifications.into_iter();
    let mut scan: Scan = strategy.begin(first);
    loop {
        match scan.next_step() {
            ScanStep::Localize => {
                calls += 1;
                scan = scan.localized(found.next().expect("engine asked to localize"));
            }
            ScanStep::Reclassify => {
                calls += 1;
                scan = scan.classified(next.next().expect("engine asked to classify"));
            }
            ScanStep::Done => return (scan.finish(), calls),
        }
    }
}

fn names(result: &ScanResult) -> Vec<String> {
    result.containing.iter().map(|c| c.license.name.clone()).collect()
}

#[test]
fn can_construct() {
    let _ = ScanStrategy::new();
    let s = ScanStrategy::new().confidence_threshold(score(500_000));
    assert_eq!(s.confidence_threshold.units(), 500_000);
    let s = ScanStrategy::new().shallow_limit(score(990_000)).optimize(true).max_passes(100);
    assert_eq!(s.shallow_limit.units(), 990_000);
    assert!(s.optimize);
    assert_eq!(s.max_passes, 100);
}

#[test]
fn default_strategy() {
    let s = ScanStrategy::new();
    assert_eq!(s.confidence_threshold.units(), 800_000);
    assert_eq!(s.shallow_limit.units(), 990_000);
    assert!(!s.optimize);
    assert_eq!(s.max_passes, 10);
}

#[test]
fn shallow_scan() {
    // "lorem ipsum\naaaaa bbbbb\nccccc\nhello" resembles license-1 with a
    // score between one half and 0.8.
    let first = || classified(640_000, "license-1");
    let strategy = ScanStrategy::new().confidence_threshold(score(500_000)).shallow_limit(score(0));
    let (result, calls) = drive(&strategy, first(), vec![], vec![]);
    assert!(result.score.units() > 500_000, "score must meet threshold; was {}", result.score.units());
    assert_eq!(result.license.expect("result has a license").name, "license-1");
    assert_eq!(calls, 1);

    let strategy = ScanStrategy::new().confidence_threshold(score(800_000)).shallow_limit(score(0));
    let (result, _) = drive(&strategy, first(), vec![], vec![]);
    assert!(result.license.is_none(), "result license is None");
}

#[test]
fn single_optimize() {
    // The whole text matches license-2 at about 0.46; its best range scores
    // about 0.57. Once that range is masked nothing else reaches one half.
    let strategy = ScanStrategy::new().confidence_threshold(score(500_000)).optimize(true).shallow_limit(score(1_000_000));
    let (result, _) = drive(
        &strategy,
        classified(460_000, "license-2"),
        vec![located(570_000, 2, 6), located(120_000, 0, 1)],
        vec![classified(150_000, "license-1")],
    );
    assert!(result.license.is_none(), "result license is None");
    assert_eq!(result.containing.len(), 1);
    let contained = &result.containing[0];
    assert_eq!(contained.license.name, "license-2");
    assert!(contained.score.units() > 500_000, "contained score is greater than threshold");
}

#[test]
fn find_multiple_licenses() {
    let strategy = ScanStrategy::new().confidence_threshold(score(500_000)).optimize(true).shallow_limit(score(1_000_000));
    let (result, _) = drive(
        &strategy,
        classified(460_000, "license-2"),
        vec![located(570_000, 2, 6), located(1_000_000, 9, 11), located(80_000, 0, 0)],
        vec![classified(400_000, "license-1"), classified(100_000, "license-2")],
    );
    assert!(result.license.is_none(), "result license is None");
    assert_eq!(result.containing.len(), 2);
    let mut found1 = 0;
    let mut found2 = 0;
    for contained in result.containing.iter() {
        match contained.license.name.as_ref() {
            "license-1" => {
                assert!(contained.score.units() > 500_000, "license-1 score meets threshold");
                found1 += 1;
            }
            "license-2" => {
                assert!(contained.score.units() > 500_000, "license-2 score meets threshold");
                found2 += 1;
            }
            _ => panic!("somehow got an unknown license name"),
        }
    }
    assert!(found1 == 1 && found2 == 1, "found both licenses exactly once");
    assert_eq!(result.containing[0].line_range, (2, 6));
    assert_eq!(result.containing[1].line_range, (9, 11));
}

#[test]
fn score_rejects_more_than_one() {
    assert!(Score::new(SCORE_SCALE + 1).is_none());
    assert_eq!(Score::new(SCORE_SCALE).map(|s| s.units()), Some(SCORE_SCALE));
    assert_eq!(Score::zero().units(), 0);
    assert_eq!(Score::one().units(), SCORE_SCALE);
}

#[test]
fn score_comparisons_are_strict() {
    let half = score(500_000);
    assert!(score(500_001).exceeds(half));
    assert!(!half.exceeds(half));
    assert!(score(499_999).falls_short_of(half));
    assert!(!half.falls_short_of(half));
}

#[test]
fn reported_score_is_within_range() {
    let strategy = ScanStrategy::new();
    for units in [0, 1, 799_999, 800_000, 999_999, SCORE_SCALE] {
        let (result, _) = drive(&strategy, classified(units, "x"), vec![], vec![]);
        assert_eq!(result.score.units(), units);
        assert!(result.score.units() <= SCORE_SCALE);
    }
}

#[test]
fn score_equal_to_threshold_identifies_nothing() {
    let strategy = ScanStrategy::new();
    let (result, _) = drive(&strategy, classified(800_000, "mit"), vec![], vec![]);
    assert!(result.license.is_none());
    let (result, _) = drive(&strategy, classified(800_001, "mit"), vec![], vec![]);
    let license = result.license.expect("confident");
    assert_eq!(license.name, "mit");
    assert_eq!(license.kind, LicenseKind::Original);
}

#[test]
fn shallow_exit_skips_search() {
    let strategy = ScanStrategy::new().optimize(true);
    let scan = strategy.begin(classified(995_000, "apache"));
    assert_eq!(scan.next_step(), ScanStep::Done);
    let result = scan.finish();
    assert_eq!(result.license.expect("confident").name, "apache");
    assert!(result.containing.is_empty());
}

#[test]
fn no_search_without_optimize() {
    let strategy = ScanStrategy::new();
    let scan = strategy.begin(classified(300_000, "apache"));
    assert_eq!(scan.next_step(), ScanStep::Done);
    assert!(scan.finish().containing.is_empty());
}

#[test]
fn shallow_limit_below_threshold_still_searches() {
    // A score between the two limits is not confident, so the shallow exit
    // does not apply and the search runs.
    let strategy = ScanStrategy::new().confidence_threshold(score(800_000)).shallow_limit(score(500_000)).optimize(true);
    let (result, _) = drive(
        &strategy,
        classified(700_000, "bsd"),
        vec![located(900_000, 0, 3), located(0, 0, 0)],
        vec![classified(0, "none")],
    );
    assert!(result.license.is_none());
    assert_eq!(names(&result), vec!["bsd".to_string()]);
}

#[test]
fn containing_bounded_by_max_passes() {
    let always = |n: usize| -> (Vec<Localization>, Vec<Classification>) {
        ((0..n).map(|i| located(900_000, 2 * i, 2 * i + 1)).collect(), (0..n).map(|i| classified(100_000, &format!("l{}", i))).collect())
    };
    for max in [0u16, 1, 3, 7] {
        let strategy = ScanStrategy::new().optimize(true).max_passes(max);
        let (found, next) = always(10);
        let (result, calls) = drive(&strategy, classified(100_000, "start"), found, next);
        assert_eq!(result.containing.len(), max as usize);
        assert_eq!(calls, 1 + 2 * max as usize);
    }
}

#[test]
fn more_passes_never_find_less() {
    let found = || vec![located(900_000, 0, 1), located(850_000, 2, 3), located(810_000, 4, 5), located(10_000, 0, 0)];
    let next = || vec![classified(10_000, "b"), classified(10_000, "c"), classified(10_000, "d")];
    let mut previous: Vec<String> = Vec::new();
    for max in [1u16, 2, 3, 4, 10] {
        let strategy = ScanStrategy::new().optimize(true).max_passes(max);
        let (result, _) = drive(&strategy, classified(10_000, "a"), found(), next());
        let now = names(&result);
        assert!(now.len() >= previous.len());
        assert_eq!(&now[..previous.len()], &previous[..]);
        previous = now;
    }
    assert_eq!(previous, vec!["a".to_string(), "b".to_string(), "c".to_string()]);
}

#[test]
fn localization_at_threshold_is_recorded() {
    let strategy = ScanStrategy::new().optimize(true).max_passes(1);
    let (result, _) = drive(&strategy, classified(0, "gpl"), vec![located(800_000, 1, 4)], vec![classified(0, "x")]);
    assert_eq!(result.containing.len(), 1);
    assert_eq!(result.containing[0].score.units(), 800_000);
    let (result, _) = drive(&strategy, classified(0, "gpl"), vec![located(799_999, 1, 4)], vec![]);
    assert!(result.containing.is_empty());
}

#[test]
fn contained_entry_names_license_looked_for() {
    let strategy = ScanStrategy::new().optimize(true).max_passes(2);
    let (result, _) = drive(
        &strategy,
        classified(200_000, "first"),
        vec![located(900_000, 0, 4), located(950_000, 7, 9)],
        vec![classified(300_000, "second"), classified(400_000, "third")],
    );
    assert_eq!(names(&result), vec!["first".to_string(), "second".to_string()]);
    assert_eq!(result.containing[1].line_range, (7, 9));
    assert_eq!(result.containing[1].score.units(), 950_000);
    assert_eq!(result.score.units(), 200_000);
}

#[test]
fn answers_outside_their_step_are_ignored() {
    let strategy = ScanStrategy::new().optimize(true);
    let scan = strategy.begin(classified(100_000, "a"));
    let scan = scan.classified(classified(900_000, "b"));
    assert_eq!(scan.next_step(), ScanStep::Localize);
    let scan = scan.localized(located(900_000, 0, 1));
    assert_eq!(scan.next_step(), ScanStep::Reclassify);
    let scan = scan.localized(located(900_000, 5, 6));
    let result = scan.finish();
    assert_eq!(result.containing.len(), 1);
    assert_eq!(result.containing[0].line_range, (0, 1));
}

#[test]
fn repeated_scan_gives_identical_results() {
    let strategy = ScanStrategy::new().confidence_threshold(score(500_000)).optimize(true).shallow_limit(score(1_000_000));
    let run = || {
        drive(
            &strategy,
            classified(460_000, "license-2"),
            vec![located(570_000, 2, 6), located(100_000, 0, 0)],
            vec![classified(100_000, "license-1")],
        )
        .0
    };
    let (a, b) = (run(), run());
    assert_eq!(a.score, b.score);
    assert_eq!(a.license.is_none(), b.license.is_none());
    assert_eq!(names(&a), names(&b));
    let ranges = |r: &ScanResult| r.containing.iter().map(|c| (c.score, c.line_range)).collect::<Vec<_>>();
    assert_eq!(ranges(&a), ranges(&b));
    assert_eq!(strategy, ScanStrategy::new().confidence_threshold(score(500_000)).optimize(true).shallow_limit(score(1_000_000)));
}
