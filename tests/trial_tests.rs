use dsastress::exec::ExecError;
use dsastress::trial::{Report, Stage, TrialLoop};

type Outcome = Result<Vec<u8>, ExecError>;

/// Runs the loop to its end with the given stand-ins for the three commands,
/// returning the reports that were not quiet and how often the solution ran.
fn drive(
    lp: &mut TrialLoop,
    gen: &dyn Fn() -> Outcome,
    reference: &dyn Fn(&[u8]) -> Outcome,
    sol: &dyn Fn(&[u8]) -> Outcome,
) -> (Vec<Report>, u64) {
    let mut reports = Vec::new();
    let mut solved = 0u64;
    loop {
        let o = match lp.stage() {
            Stage::Generate => gen(),
            Stage::Reference => reference(lp.input()),
            Stage::Solve => {
                solved += 1;
                sol(lp.input())
            }
            Stage::Finished => break,
        };
        let r = lp.record(o);
        if r != Report::Quiet {
            reports.push(r);
        }
    }
    (reports, solved)
}

fn five() -> Outcome {
    Ok(b"5\n".to_vec())
}

fn echo(i: &[u8]) -> Outcome {
    Ok(i.to_vec())
}

fn six(_: &[u8]) -> Outcome {
    Ok(b"6\n".to_vec())
}

fn crash(_: &[u8]) -> Outcome {
    Err(ExecError::NonZero { code: Some(1), stderr: "crash".to_string() })
}

#[test]
fn echo_against_echo_passes() {
    let mut lp = TrialLoop::new(10, false, false, true);
    let (reports, solved) = drive(&mut lp, &five, &echo, &echo);
    assert!(reports.is_empty());
    assert_eq!(lp.failures(), 0);
    assert_eq!(lp.completed(), 10);
    assert_eq!(solved, 10);
}

#[test]
fn mismatch_stops_run() {
    let mut lp = TrialLoop::new(10, false, false, true);
    let (reports, _) = drive(&mut lp, &five, &echo, &six);
    assert_eq!(lp.failures(), 1);
    assert_eq!(lp.completed(), 1);
    assert!(lp.is_finished());
    assert_eq!(
        reports,
        vec![Report::Mismatch {
            trial: 1,
            input: "5\n".to_string(),
            expected: "5".to_string(),
            got: "6".to_string(),
        }]
    );
}

#[test]
fn mismatch_with_keep_going_runs_all() {
    let mut lp = TrialLoop::new(10, true, false, true);
    let (reports, solved) = drive(&mut lp, &five, &echo, &six);
    assert_eq!(lp.failures(), 10);
    assert_eq!(lp.completed(), 10);
    assert_eq!(solved, 10);
    assert_eq!(reports.len(), 10);
}

#[test]
fn trailing_space_is_not_a_mismatch() {
    let mut lp = TrialLoop::new(3, false, false, true);
    let (reports, _) = drive(&mut lp, &five, &|_| Ok(b"5   \n\n".to_vec()), &|_| Ok(b"5".to_vec()));
    assert!(reports.is_empty());
    assert_eq!(lp.failures(), 0);
}

#[test]
fn inner_space_is_a_mismatch() {
    let mut lp = TrialLoop::new(3, true, false, true);
    let (reports, _) = drive(&mut lp, &five, &|_| Ok(b"1 2".to_vec()), &|_| Ok(b"1  2".to_vec()));
    assert_eq!(reports.len(), 3);
    assert_eq!(lp.failures(), 3);
}

#[test]
fn reference_failure_skips_solution() {
    let mut lp = TrialLoop::new(4, true, false, true);
    let (reports, solved) = drive(&mut lp, &five, &crash, &six);
    assert_eq!(solved, 0);
    assert_eq!(lp.failures(), 4);
    assert_eq!(lp.completed(), 4);
    for (k, r) in reports.iter().enumerate() {
        assert_eq!(
            *r,
            Report::ReferenceFailed {
                trial: k as u64 + 1,
                error: ExecError::NonZero { code: Some(1), stderr: "crash".to_string() },
                input: "5\n".to_string(),
            }
        );
    }
}

#[test]
fn reference_failure_stops_without_keep_going() {
    let mut lp = TrialLoop::new(4, false, false, true);
    let (reports, solved) = drive(&mut lp, &five, &crash, &echo);
    assert_eq!(solved, 0);
    assert_eq!(lp.failures(), 1);
    assert_eq!(lp.completed(), 1);
    assert_eq!(reports.len(), 1);
}

#[test]
fn generator_failure_is_counted() {
    let mut lp = TrialLoop::new(5, false, false, true);
    let (reports, solved) = drive(&mut lp, &|| Err(ExecError::Timeout(2000)), &echo, &echo);
    assert_eq!(solved, 0);
    assert_eq!(lp.failures(), 1);
    assert_eq!(reports, vec![Report::GeneratorFailed { trial: 1, error: ExecError::Timeout(2000) }]);
}

#[test]
fn solution_failure_without_reference() {
    let mut lp = TrialLoop::new(5, true, false, false);
    let (reports, solved) = drive(&mut lp, &five, &echo, &crash);
    assert_eq!(solved, 5);
    assert_eq!(lp.failures(), 5);
    assert_eq!(lp.completed(), 5);
    assert_eq!(
        reports[2],
        Report::SolutionFailed {
            trial: 3,
            error: ExecError::NonZero { code: Some(1), stderr: "crash".to_string() },
            input: "5\n".to_string(),
        }
    );
}

#[test]
fn without_reference_any_output_passes() {
    let mut lp = TrialLoop::new(6, false, false, false);
    let (reports, solved) = drive(&mut lp, &five, &crash, &six);
    assert!(reports.is_empty());
    assert_eq!(solved, 6);
    assert_eq!(lp.failures(), 0);
}

#[test]
fn failures_stop_after_first_without_keep_going() {
    let mut lp = TrialLoop::new(1000, false, false, false);
    let (reports, solved) = drive(&mut lp, &five, &echo, &crash);
    assert_eq!(solved, 1);
    assert_eq!(lp.failures(), 1);
    assert_eq!(reports.len(), 1);
}

#[test]
fn zero_trials_is_finished_at_once() {
    let lp = TrialLoop::new(0, true, true, true);
    assert!(lp.is_finished());
    assert_eq!(lp.completed(), 0);
    assert_eq!(lp.progress_due(), None);
}

#[test]
fn progress_every_hundredth() {
    let mut lp = TrialLoop::new(250, true, false, false);
    let mut seen = Vec::new();
    while !lp.is_finished() {
        if let Some(t) = lp.progress_due() {
            seen.push(t);
        }
        let o = if lp.stage() == Stage::Generate { five() } else { echo(lp.input()) };
        lp.record(o);
    }
    assert_eq!(seen, vec![100, 200]);
}

#[test]
fn progress_every_trial_when_verbose() {
    let mut lp = TrialLoop::new(3, true, true, true);
    let mut seen = Vec::new();
    while !lp.is_finished() {
        if let Some(t) = lp.progress_due() {
            seen.push(t);
        }
        let o = if lp.stage() == Stage::Generate { five() } else { echo(lp.input()) };
        lp.record(o);
    }
    assert_eq!(seen, vec![1, 2, 3]);
}
