use griffin::{outcome_of, valid_candidates, Domain, FuzzerStrategy, ScanOutcome, ScanStep, Scheduler};

#[test]
fn candidates_that_do_not_parse_are_dropped() {
    let d = Domain::try_from("x.com").unwrap();
    // Omitting the only letter leaves ".com", which has no domain label.
    let c = valid_candidates(&d, &vec![FuzzerStrategy::new_omission()]);
    assert!(c.is_empty());
}

#[test]
fn candidates_of_all_strategies_in_order() {
    let d = Domain::try_from("x.com").unwrap();
    let c = valid_candidates(&d, &vec![FuzzerStrategy::new_repetition(), FuzzerStrategy::new_addition()]);
    assert_eq!(c.len(), 37);
    assert_eq!(c[0].hostname(), "xx.com");
    assert_eq!(c[1].hostname(), "x0.com");
    assert_eq!(c[36].domain, "xz");
}

fn run(total: usize, workers: usize, finish_order_lifo: bool) -> (usize, usize, Vec<usize>) {
    let candidates: Vec<Domain> =
        (0..total).map(|i| Domain::try_from(format!("d{}.com", i).as_str()).unwrap()).collect();
    let mut s = Scheduler::new(candidates, workers);
    let mut in_flight: Vec<usize> = Vec::new();
    let mut most = 0;
    let mut outcomes = 0;
    let mut admitted = Vec::new();
    loop {
        match s.next_step() {
            ScanStep::Admit(i) => {
                assert_eq!(s.candidate(i).hostname(), format!("d{}.com", i));
                in_flight.push(i);
                admitted.push(i);
                most = most.max(in_flight.len());
            }
            ScanStep::Wait => {
                assert!(s.has_in_flight());
                if finish_order_lifo {
                    in_flight.pop();
                } else {
                    in_flight.remove(0);
                }
                s.complete();
                outcomes += 1;
            }
            ScanStep::Done => break,
        }
    }
    (most, outcomes, admitted)
}

#[test]
fn scheduler_bounds_lookups_in_flight() {
    let (most, outcomes, admitted) = run(10, 3, false);
    assert_eq!(most, 3);
    assert_eq!(outcomes, 10);
    assert_eq!(admitted, (0..10).collect::<Vec<_>>());
    let (most, outcomes, _) = run(10, 4, true);
    assert_eq!(most, 4);
    assert_eq!(outcomes, 10);
}

#[test]
fn scheduler_with_more_workers_than_candidates() {
    let (most, outcomes, _) = run(2, 8, false);
    assert_eq!(most, 2);
    assert_eq!(outcomes, 2);
}

#[test]
fn scheduler_with_no_candidates_is_done() {
    let mut s = Scheduler::new(Vec::new(), 1);
    assert_eq!(s.next_step(), ScanStep::Done);
    assert!(!s.has_in_flight());
}

#[test]
fn outcomes_of_lookups() {
    let d = Domain::try_from("a.com").unwrap();
    assert!(matches!(outcome_of(d.clone(), Ok(true)), ScanOutcome::Resolved(ref x) if x.hostname() == "a.com"));
    assert!(matches!(outcome_of(d.clone(), Ok(false)), ScanOutcome::Unresolved(_)));
    assert!(matches!(outcome_of(d, Err("panicked".to_string())), ScanOutcome::TaskFailure(ref m) if m == "panicked"));
}
