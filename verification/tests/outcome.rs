use ice_fuzz::outcome::{classify, Outcome, Variant, Verdict};
use ice_fuzz::report::Disposition;

#[test]
fn reads_the_crash_code_as_a_crash() {
    assert_eq!(Outcome::from_exit_status(Some(101)), Outcome::Crashed);
}

#[test]
fn reads_success_and_diagnostics_as_no_crash() {
    assert_eq!(Outcome::from_exit_status(Some(0)), Outcome::NotCrashed);
    assert_eq!(Outcome::from_exit_status(Some(1)), Outcome::NotCrashed);
}

#[test]
fn reads_death_by_signal_as_no_crash() {
    assert_eq!(Outcome::from_exit_status(None), Outcome::NotCrashed);
}

#[test]
fn reads_any_other_code_as_unexpected() {
    assert_eq!(Outcome::from_exit_status(Some(42)), Outcome::Unexpected(42));
    assert_eq!(Outcome::from_exit_status(Some(2)), Outcome::Unexpected(2));
    assert_eq!(Outcome::from_exit_status(Some(100)), Outcome::Unexpected(100));
    assert_eq!(Outcome::from_exit_status(Some(102)), Outcome::Unexpected(102));
    assert_eq!(Outcome::from_exit_status(Some(-1)), Outcome::Unexpected(-1));
    assert_eq!(
        Outcome::from_exit_status(Some(i32::MIN)),
        Outcome::Unexpected(i32::MIN)
    );
    assert_eq!(
        Outcome::from_exit_status(Some(i32::MAX)),
        Outcome::Unexpected(i32::MAX)
    );
}

#[test]
fn classifies_every_pair_of_outcomes() {
    let crashed = Outcome::Crashed;
    let fine = Outcome::NotCrashed;
    let odd = Outcome::Unexpected(42);
    assert_eq!(classify(fine, fine), Verdict::Uninteresting);
    assert_eq!(
        classify(crashed, fine),
        Verdict::OneSidedCrash(Variant::Baseline)
    );
    assert_eq!(
        classify(fine, crashed),
        Verdict::OneSidedCrash(Variant::Candidate)
    );
    assert_eq!(classify(crashed, crashed), Verdict::BothCrashed);
    assert_eq!(classify(odd, fine), Verdict::UnexpectedExit(42));
    assert_eq!(classify(odd, crashed), Verdict::UnexpectedExit(42));
    assert_eq!(classify(fine, odd), Verdict::UnexpectedExit(42));
    assert_eq!(classify(crashed, odd), Verdict::UnexpectedExit(42));
    assert_eq!(classify(odd, odd), Verdict::UnexpectedExit(42));
}

#[test]
fn reports_the_baseline_code_where_both_are_unexpected() {
    assert_eq!(
        classify(Outcome::Unexpected(3), Outcome::Unexpected(4)),
        Verdict::UnexpectedExit(3)
    );
}

#[test]
fn only_double_crashes_and_unexpected_codes_are_fatal() {
    assert!(!Verdict::Uninteresting.fatal());
    assert!(!Verdict::OneSidedCrash(Variant::Baseline).fatal());
    assert!(!Verdict::OneSidedCrash(Variant::Candidate).fatal());
    assert!(Verdict::BothCrashed.fatal());
    assert!(Verdict::UnexpectedExit(42).fatal());
}

#[test]
fn a_case_without_a_crash_is_dropped() {
    let baseline = Outcome::from_exit_status(Some(0));
    let candidate = Outcome::from_exit_status(Some(0));
    let verdict = classify(baseline, candidate);
    assert_eq!(verdict, Verdict::Uninteresting);
    assert_eq!(
        verdict.disposition(),
        Disposition {
            report: false,
            progress: true,
            keep_file: false,
            halt: false
        }
    );
    assert_eq!(verdict.report_line("/tmp/fuzz0.rs"), None);
}

#[test]
fn an_arity_mismatch_with_diagnostics_on_both_sides_is_dropped() {
    let verdict = classify(
        Outcome::from_exit_status(Some(1)),
        Outcome::from_exit_status(Some(1)),
    );
    assert_eq!(verdict, Verdict::Uninteresting);
    assert!(!verdict.disposition().keep_file);
}

#[test]
fn a_crash_on_one_side_is_reported_and_kept() {
    let on_baseline = classify(
        Outcome::from_exit_status(Some(101)),
        Outcome::from_exit_status(Some(1)),
    );
    assert_eq!(on_baseline, Verdict::OneSidedCrash(Variant::Baseline));
    let on_candidate = classify(
        Outcome::from_exit_status(Some(1)),
        Outcome::from_exit_status(Some(101)),
    );
    assert_eq!(on_candidate, Verdict::OneSidedCrash(Variant::Candidate));
    let expected = Disposition {
        report: true,
        progress: false,
        keep_file: true,
        halt: false,
    };
    assert_eq!(on_baseline.disposition(), expected);
    assert_eq!(on_candidate.disposition(), expected);
}

#[test]
fn a_crash_on_both_sides_is_reported_and_halts() {
    let verdict = classify(
        Outcome::from_exit_status(Some(101)),
        Outcome::from_exit_status(Some(101)),
    );
    assert_eq!(verdict, Verdict::BothCrashed);
    assert_eq!(
        verdict.disposition(),
        Disposition {
            report: true,
            progress: false,
            keep_file: true,
            halt: true
        }
    );
    assert_eq!(
        verdict.report_line("/tmp/fuzz3.rs"),
        Some(String::from("BOTH ICE: /tmp/fuzz3.rs"))
    );
}

#[test]
fn an_unexpected_code_halts_whatever_the_other_side_did() {
    for other in [Some(0), Some(1), Some(101), Some(42), None] {
        let as_baseline = classify(
            Outcome::from_exit_status(Some(42)),
            Outcome::from_exit_status(other),
        );
        assert_eq!(as_baseline, Verdict::UnexpectedExit(42));
        assert!(as_baseline.disposition().halt);
        assert!(as_baseline.disposition().keep_file);
        let as_candidate = classify(
            Outcome::from_exit_status(other),
            Outcome::from_exit_status(Some(42)),
        );
        assert_eq!(as_candidate, Verdict::UnexpectedExit(42));
        assert!(as_candidate.disposition().halt);
    }
}

#[test]
fn writes_the_report_lines() {
    assert_eq!(
        Verdict::OneSidedCrash(Variant::Baseline).report_line("/tmp/fuzz12.rs"),
        Some(String::from("ICE: /tmp/fuzz12.rs"))
    );
    assert_eq!(
        Verdict::OneSidedCrash(Variant::Candidate).report_line("/tmp/fuzz12.rs"),
        Some(String::from("Only +stage1 ICEs: /tmp/fuzz12.rs"))
    );
    assert_eq!(
        Verdict::BothCrashed.report_line(""),
        Some(String::from("BOTH ICE: "))
    );
    assert_eq!(
        Verdict::UnexpectedExit(42).report_line("/tmp/fuzz12.rs"),
        Some(String::from("unexpected exit code 42: /tmp/fuzz12.rs"))
    );
    assert_eq!(
        Verdict::UnexpectedExit(-7).report_line("x"),
        Some(String::from("unexpected exit code -7: x"))
    );
    assert_eq!(
        Verdict::UnexpectedExit(i32::MIN).report_line("x"),
        Some(String::from("unexpected exit code -2147483648: x"))
    );
    assert_eq!(Verdict::Uninteresting.report_line("x"), None);
}
