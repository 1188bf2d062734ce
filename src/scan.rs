use vstd::prelude::*;
use crate::domain::{parse_spec, Domain, DomainModel};
use crate::fuzzer::{DomainFuzzer, FuzzerStrategy};
use crate::text::views;

verus! {

/// What became of one candidate.
#[derive(Debug, Clone)]
pub enum ScanOutcome {
    /// The candidate resolves in DNS.
    Resolved(Domain),
    /// The lookup ran and found nothing.
    Unresolved(Domain),
    /// The lookup itself could not be carried out.
    TaskFailure(String),
}

/// The candidate strings of all the strategies, one strategy after another.
pub open spec fn generated(fuzzers: Seq<FuzzerStrategy>, d: DomainModel) -> Seq<Seq<char>>
    decreases fuzzers.len(),
{
    if fuzzers.len() == 0 {
        Seq::empty()
    } else {
        generated(fuzzers.drop_last(), d) + fuzzers.last().candidates(d)
    }
}

/// The strings that read as domains, read; the others are dropped.
pub open spec fn parsed(strings: Seq<Seq<char>>) -> Seq<DomainModel>
    decreases strings.len(),
{
    if strings.len() == 0 {
        Seq::empty()
    } else {
        match parse_spec(strings.last()) {
            Ok(m) => parsed(strings.drop_last()).push(m),
            Err(_) => parsed(strings.drop_last()),
        }
    }
}

pub open spec fn domain_views(v: Seq<Domain>) -> Seq<DomainModel> {
    v.map_values(|d: Domain| d@)
}

proof fn lemma_parsed_append(a: Seq<Seq<char>>, b: Seq<Seq<char>>)
    ensures
        parsed(a + b) == parsed(a) + parsed(b),
    decreases b.len(),
{
    if b.len() == 0 {
        assert(a + b == a);
    } else {
        lemma_parsed_append(a, b.drop_last());
        assert((a + b).drop_last() == a + b.drop_last());
    }
}

/// Reads each string as a domain, dropping those that do not read.
fn parse_all(strings: &Vec<String>, out: &mut Vec<Domain>)
    ensures
        domain_views(final(out)@) == domain_views(old(out)@) + parsed(views(strings@)),
{
    let mut i: usize = 0;
    while i < strings.len()
        invariant
            i <= strings@.len(),
            domain_views(out@) == domain_views(old(out)@) + parsed(views(strings@).subrange(0, i as int)),
        decreases strings@.len() - i,
    {
        let ghost before = out@;
        assert(views(strings@).subrange(0, i + 1).drop_last() == views(strings@).subrange(0, i as int));
        match Domain::try_from(strings[i].as_str()) {
            Ok(d) => {
                out.push(d);
                assert(domain_views(out@) == domain_views(before).push(d@));
            },
            Err(_) => {},
        }
        i = i + 1;
    }
    assert(views(strings@).subrange(0, strings@.len() as int) == views(strings@));
}

/// Every candidate of every strategy that reads as a domain, in order.
pub fn valid_candidates(domain: &Domain, fuzzers: &Vec<FuzzerStrategy>) -> (r: Vec<Domain>)
    ensures
        domain_views(r@) == parsed(generated(fuzzers@, domain@)),
{
    let mut out: Vec<Domain> = Vec::new();
    let mut i: usize = 0;
    while i < fuzzers.len()
        invariant
            i <= fuzzers@.len(),
            domain_views(out@) == parsed(generated(fuzzers@.subrange(0, i as int), domain@)),
        decreases fuzzers@.len() - i,
    {
        let strings = fuzzers[i].fuzz(domain);
        proof {
            let prev = fuzzers@.subrange(0, i as int);
            assert(fuzzers@.subrange(0, i + 1).drop_last() == prev);
            lemma_parsed_append(generated(prev, domain@), views(strings@));
        }
        parse_all(&strings, &mut out);
        i = i + 1;
    }
    assert(fuzzers@.subrange(0, fuzzers@.len() as int) == fuzzers@);
    out
}

/// The outcome of one lookup: `Ok(true)` if the candidate resolves,
/// `Ok(false)` if not, `Err` with a message if the lookup did not run.
pub fn outcome_of(domain: Domain, lookup: Result<bool, String>) -> (r: ScanOutcome)
    ensures
        match lookup {
            Ok(true) => r == ScanOutcome::Resolved(domain),
            Ok(false) => r == ScanOutcome::Unresolved(domain),
            Err(message) => r == ScanOutcome::TaskFailure(message),
        },
{
    match lookup {
        Ok(true) => ScanOutcome::Resolved(domain),
        Ok(false) => ScanOutcome::Unresolved(domain),
        Err(message) => ScanOutcome::TaskFailure(message),
    }
}

/// The counters of a scan: how many candidates there are, the ceiling on
/// lookups in flight, how many were admitted, are in flight and are done.
pub ghost struct ScanModel {
    pub total: nat,
    pub workers: nat,
    pub admitted: nat,
    pub in_flight: nat,
    pub completed: nat,
}

/// The counters of a scan are consistent: never more than `workers` lookups
/// in flight, and every admitted candidate either in flight or done.
pub open spec fn scan_wf(m: ScanModel) -> bool {
    &&& m.workers > 0
    &&& m.in_flight <= m.workers
    &&& m.admitted <= m.total
    &&& m.completed + m.in_flight == m.admitted
}

/// A lookup may start: a slot is free and a candidate waits.
pub open spec fn can_admit(m: ScanModel) -> bool {
    m.in_flight < m.workers && m.admitted < m.total
}

/// The next waiting candidate starts its lookup.
pub open spec fn admit_next(m: ScanModel) -> ScanModel {
    ScanModel { admitted: m.admitted + 1, in_flight: m.in_flight + 1, ..m }
}

/// One lookup in flight completes.
pub open spec fn complete(m: ScanModel) -> ScanModel {
    ScanModel { in_flight: (m.in_flight - 1) as nat, completed: m.completed + 1, ..m }
}

/// A measure that each admission and each completion lowers.
pub open spec fn remaining_work(m: ScanModel) -> nat {
    2 * (m.total - m.admitted) as nat + m.in_flight
}

/// At no point are more than `workers` lookups in flight, each step lowers
/// the remaining work, and once nothing is in flight and nothing can start
/// every candidate has had exactly one outcome.
pub proof fn lemma_scan_bounded(m: ScanModel)
    requires
        scan_wf(m),
    ensures
        m.in_flight <= m.workers,
        can_admit(m) ==> scan_wf(admit_next(m)) && remaining_work(admit_next(m)) < remaining_work(m),
        m.in_flight > 0 ==> scan_wf(complete(m)) && remaining_work(complete(m)) < remaining_work(m),
        !can_admit(m) && m.in_flight == 0 ==> m.completed == m.total,
{
}

/// One step of the admission policy: start a lookup when one may start,
/// else take one completion when lookups are in flight, else stay.
pub open spec fn policy_step(m: ScanModel) -> ScanModel {
    if can_admit(m) {
        admit_next(m)
    } else if m.in_flight > 0 {
        complete(m)
    } else {
        m
    }
}

/// The counters after `k` steps of the policy.
pub open spec fn drive(m: ScanModel, k: nat) -> ScanModel
    decreases k,
{
    if k == 0 {
        m
    } else {
        drive(policy_step(m), (k - 1) as nat)
    }
}

/// Every state that the policy reaches keeps at most `workers` lookups in
/// flight.
pub proof fn lemma_drive_bounded(m: ScanModel, k: nat)
    requires
        scan_wf(m),
    ensures
        scan_wf(drive(m, k)),
        drive(m, k).in_flight <= m.workers,
    decreases k,
{
    if k > 0 {
        lemma_drive_bounded(policy_step(m), (k - 1) as nat);
    }
}

/// Run from any consistent state for as many steps as there is remaining
/// work, the policy has admitted every candidate once (candidate indices are
/// handed out one by one, in order) and every admitted lookup has completed:
/// one outcome per candidate, nothing left in flight.
pub proof fn lemma_drive_completes(m: ScanModel)
    requires
        scan_wf(m),
    ensures
        drive(m, remaining_work(m)).admitted == m.total,
        drive(m, remaining_work(m)).completed == m.total,
        drive(m, remaining_work(m)).in_flight == 0,
    decreases remaining_work(m),
{
    if remaining_work(m) > 0 {
        let next = policy_step(m);
        assert(remaining_work(next) + 1 == remaining_work(m));
        lemma_drive_completes(next);
    }
}

/// What the caller is to do next.
#[derive(Debug, Clone, Copy, PartialEq, Eq, Structural)]
pub enum ScanStep {
    /// Start the lookup of the candidate at this index.
    Admit(usize),
    /// Wait for a lookup in flight to complete, then report it.
    Wait,
    /// Every candidate has had its outcome.
    Done,
}

/// Admission control for the lookups of one scan: at most `workers` in
/// flight, the next one admitted as soon as a slot frees.
pub struct Scheduler {
    candidates: Vec<Domain>,
    workers: usize,
    admitted: usize,
    in_flight: usize,
    completed: usize,
}

impl Scheduler {
    pub closed spec fn model(&self) -> ScanModel {
        ScanModel {
            total: self.candidates@.len(),
            workers: self.workers as nat,
            admitted: self.admitted as nat,
            in_flight: self.in_flight as nat,
            completed: self.completed as nat,
        }
    }

    pub closed spec fn candidate_views(&self) -> Seq<DomainModel> {
        domain_views(self.candidates@)
    }

    /// The counters are consistent; in particular no more than `workers`
    /// lookups are in flight.
    pub open spec fn wf(&self) -> bool {
        scan_wf(self.model())
    }

    /// A scheduler with nothing admitted yet.
    pub fn new(candidates: Vec<Domain>, workers: usize) -> (r: Scheduler)
        requires
            workers > 0,
        ensures
            r.wf(),
            r.candidate_views() == domain_views(candidates@),
            r.model() == (ScanModel {
                total: candidates@.len(),
                workers: workers as nat,
                admitted: 0,
                in_flight: 0,
                completed: 0,
            }),
    {
        Scheduler { candidates, workers, admitted: 0, in_flight: 0, completed: 0 }
    }

    /// The candidate at index `i`.
    pub fn candidate(&self, i: usize) -> (r: &Domain)
        requires
            i < self.model().total,
        ensures
            r@ == self.candidate_views()[i as int],
    {
        &self.candidates[i]
    }

    /// Decides the next step: admit the next candidate while a slot is free,
    /// else wait while lookups are in flight, else the scan is done.
    pub fn next_step(&mut self) -> (r: ScanStep)
        requires
            old(self).wf(),
        ensures
            final(self).wf(),
            final(self).model().in_flight <= final(self).model().workers,
            final(self).candidate_views() == old(self).candidate_views(),
            can_admit(old(self).model()) ==> r == ScanStep::Admit(old(self).model().admitted as usize)
                && final(self).model() == admit_next(old(self).model()),
            !can_admit(old(self).model()) ==> final(self).model() == old(self).model(),
            !can_admit(old(self).model()) && old(self).model().in_flight > 0 ==> r == ScanStep::Wait,
            !can_admit(old(self).model()) && old(self).model().in_flight == 0 ==> r == ScanStep::Done
                && old(self).model().completed == old(self).model().total,
    {
        if self.in_flight < self.workers && self.admitted < self.candidates.len() {
            let i = self.admitted;
            self.admitted = self.admitted + 1;
            self.in_flight = self.in_flight + 1;
            ScanStep::Admit(i)
        } else if self.in_flight > 0 {
            ScanStep::Wait
        } else {
            ScanStep::Done
        }
    }

    /// Records that one lookup in flight has completed.
    pub fn complete(&mut self)
        requires
            old(self).wf(),
            old(self).model().in_flight > 0,
        ensures
            final(self).wf(),
            final(self).model().in_flight <= final(self).model().workers,
            final(self).candidate_views() == old(self).candidate_views(),
            final(self).model() == complete(old(self).model()),
    {
        self.in_flight = self.in_flight - 1;
        self.completed = self.completed + 1;
    }

    /// Whether a lookup is in flight, so that [`Scheduler::complete`] may be
    /// called.
    pub fn has_in_flight(&self) -> (r: bool)
        ensures
            r == (self.model().in_flight > 0),
    {
        self.in_flight > 0
    }
}

} // verus!
