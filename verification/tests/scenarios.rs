use ice_fuzz::case::TestCase;
use ice_fuzz::generator::CaseBody;
use ice_fuzz::outcome::{Variant, Verdict};
use ice_fuzz::worker::{start, step, Command, Event, Phase, Supervisor};

/// What a driver would have done for one case.
struct Trace {
    compiled: Vec<Variant>,
    printed: Vec<String>,
    file_kept: bool,
    halted: bool,
    verdict: Option<Verdict>,
}

/// Drives one worker through one case, answering each compiler run with the
/// next of the given exit statuses.
fn drive(supervisor: &mut Supervisor, case: &TestCase, statuses: &[Option<i32>]) -> Trace {
    let path = format!("/tmp/{}", case.file_name);
    let mut trace = Trace {
        compiled: Vec::new(),
        printed: Vec::new(),
        file_kept: true,
        halted: false,
        verdict: None,
    };
    let mut statuses = statuses.iter();
    let (mut phase, mut command) = start();
    loop {
        let event = match command {
            Command::Stage => {
                if trace.verdict.is_some() {
                    return trace;
                }
                Event::Done
            }
            Command::Compile(variant) => {
                trace.compiled.push(variant);
                Event::Exited(*statuses.next().unwrap())
            }
            Command::Conclude(verdict) => {
                trace.verdict = Some(verdict);
                let disposition = supervisor.conclude(verdict);
                if disposition.report {
                    trace.printed.push(verdict.report_line(&path).unwrap());
                }
                if disposition.progress {
                    trace.printed.push(String::from("."));
                }
                trace.file_kept = disposition.keep_file;
                assert_eq!(phase == Phase::Halted, verdict.fatal());
                if disposition.halt {
                    trace.halted = true;
                    return trace;
                }
                Event::Done
            }
            Command::Stop => unreachable!(),
        };
        let next = step(phase, event);
        phase = next.0;
        command = next.1;
    }
}

fn case(id: usize, parameters: Vec<u8>, arguments: Vec<u8>) -> TestCase {
    TestCase::assemble(
        id,
        CaseBody {
            parameters,
            arguments,
        },
    )
}

#[test]
fn empty_lists_on_healthy_compilers_are_dropped() {
    let case = case(0, vec![], vec![]);
    assert!(case.source.contains("fn foo0() {}"));
    assert!(case.source.contains("fn test0() { foo0(); }"));
    let mut supervisor = Supervisor::new();
    let trace = drive(&mut supervisor, &case, &[Some(0), Some(0)]);
    assert_eq!(trace.compiled, vec![Variant::Baseline, Variant::Candidate]);
    assert_eq!(trace.verdict, Some(Verdict::Uninteresting));
    assert_eq!(trace.printed, vec!["."]);
    assert!(!trace.file_kept);
    assert!(!trace.halted);
}

#[test]
fn an_arity_mismatch_is_dropped_unless_one_build_crashes() {
    let case = case(1, vec![1, 2, 3], vec![1, 2]);
    assert!(case.source.contains("fn foo1(_: S1, _: S2, _: S3) {}"));
    assert!(case.source.contains("fn test1() { foo1(S1, S2); }"));

    let mut supervisor = Supervisor::new();
    let healthy = drive(&mut supervisor, &case, &[Some(1), Some(1)]);
    assert_eq!(healthy.verdict, Some(Verdict::Uninteresting));
    assert!(!healthy.file_kept);

    let candidate = drive(&mut supervisor, &case, &[Some(1), Some(101)]);
    assert_eq!(
        candidate.verdict,
        Some(Verdict::OneSidedCrash(Variant::Candidate))
    );
    assert_eq!(candidate.printed, vec!["Only +stage1 ICEs: /tmp/fuzz1.rs"]);
    assert!(candidate.file_kept);
    assert!(!candidate.halted);

    let baseline = drive(&mut supervisor, &case, &[Some(101), Some(1)]);
    assert_eq!(
        baseline.verdict,
        Some(Verdict::OneSidedCrash(Variant::Baseline))
    );
    assert_eq!(baseline.printed, vec!["ICE: /tmp/fuzz1.rs"]);
    assert!(baseline.file_kept);
    assert!(!baseline.halted);
}

#[test]
fn a_crash_of_both_builds_is_reported_and_halts_the_harness() {
    let case = case(2, vec![4], vec![4]);
    let mut supervisor = Supervisor::new();
    let trace = drive(&mut supervisor, &case, &[Some(101), Some(101)]);
    assert_eq!(trace.verdict, Some(Verdict::BothCrashed));
    assert_eq!(trace.printed, vec!["BOTH ICE: /tmp/fuzz2.rs"]);
    assert!(trace.file_kept);
    assert!(trace.halted);
    assert!(supervisor.halted());

    let later = drive(&mut supervisor, &case, &[Some(0), Some(0)]);
    assert_eq!(later.printed, Vec::<String>::new());
    assert!(later.file_kept);
    assert!(later.halted);
}

#[test]
fn an_exit_code_out_of_the_contract_halts_the_harness() {
    let case = case(3, vec![2, 2], vec![5]);

    let mut supervisor = Supervisor::new();
    let on_baseline = drive(&mut supervisor, &case, &[Some(42)]);
    assert_eq!(on_baseline.compiled, vec![Variant::Baseline]);
    assert_eq!(on_baseline.verdict, Some(Verdict::UnexpectedExit(42)));
    assert_eq!(
        on_baseline.printed,
        vec!["unexpected exit code 42: /tmp/fuzz3.rs"]
    );
    assert!(on_baseline.file_kept);
    assert!(on_baseline.halted);

    for baseline in [Some(0), Some(1), Some(101), None] {
        let mut supervisor = Supervisor::new();
        let on_candidate = drive(&mut supervisor, &case, &[baseline, Some(42)]);
        assert_eq!(on_candidate.verdict, Some(Verdict::UnexpectedExit(42)));
        assert!(on_candidate.file_kept);
        assert!(on_candidate.halted);
        assert!(supervisor.halted());
    }
}
