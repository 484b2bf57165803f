//! What holds of every run of a print job against a spooler that fails at a
//! chosen call of each attempt.
use vstd::prelude::*;
use crate::encoding::Encoding;
use crate::reason::ErrorReason;
use crate::resolver::{usable, resolve_spec};
use crate::job::{
    JobState, Outcome, Report, Stage, Step, is_terminal, next_attempt, outcome_of, start_spec,
    transition, wf_state,
};

verus! {

/// Where a spooler fails in one attempt.
pub enum SpoolerFault {
    /// Every call succeeds and every byte is taken.
    Never,
    AtOpen(ErrorReason),
    AtStartDocument(ErrorReason),
    AtStartPage(ErrorReason),
    AtWrite(ErrorReason),
    /// The write succeeds but the spooler takes only this many bytes.
    ShortWrite(nat),
}

/// Whether an attempt against `f` puts the whole payload of `len` bytes through.
pub open spec fn delivers(f: SpoolerFault, len: nat) -> bool {
    match f {
        SpoolerFault::Never => true,
        SpoolerFault::ShortWrite(n) => n == len,
        _ => false,
    }
}

/// The fault of the spooler in the attempt on candidate `i`.
pub open spec fn fault_at(faults: Seq<SpoolerFault>, i: nat) -> SpoolerFault {
    if i < faults.len() {
        faults[i as int]
    } else {
        SpoolerFault::Never
    }
}

/// What such a spooler reports of an action.
pub open spec fn reply(f: SpoolerFault, a: Step, len: nat, default: Option<Seq<char>>) -> Report {
    match a {
        Step::QueryDefaultPrinter => Report::DefaultPrinter(default),
        Step::Open(_) => match f {
            SpoolerFault::AtOpen(r) => Report::Failed(r),
            _ => Report::Done,
        },
        Step::StartDocument(_) => match f {
            SpoolerFault::AtStartDocument(r) => Report::Failed(r),
            _ => Report::Done,
        },
        Step::StartPage => match f {
            SpoolerFault::AtStartPage(r) => Report::Failed(r),
            _ => Report::Done,
        },
        Step::Write => match f {
            SpoolerFault::AtWrite(r) => Report::Failed(r),
            SpoolerFault::ShortWrite(n) => Report::Wrote(n),
            _ => Report::Wrote(len),
        },
        _ => Report::Done,
    }
}

/// Runs `n` moves of a job in state `s` whose last action was `a`, against a
/// spooler that fails as `faults` says, attempt by attempt. Gives the state,
/// the last action and the actions asked for, in order.
pub open spec fn drive(
    s: JobState,
    a: Step,
    faults: Seq<SpoolerFault>,
    default: Option<Seq<char>>,
    n: nat,
) -> (JobState, Step, Seq<Step>)
    decreases n,
{
    if n == 0 {
        (s, a, Seq::empty())
    } else {
        let e = reply(fault_at(faults, s.current), a, s.len, default);
        let (s1, a1) = transition(s, e);
        let (s2, a2, t) = drive(s1, a1, faults, default, (n - 1) as nat);
        (s2, a2, seq![a1] + t)
    }
}

/// The actions of one attempt on `target` with data type `enc`, from the
/// open to the close, against a spooler that fails as `f` says.
pub open spec fn attempt_trace(f: SpoolerFault, target: Option<Seq<char>>, enc: Encoding) -> Seq<
    Step,
> {
    match f {
        SpoolerFault::AtOpen(_) => seq![Step::Open(target)],
        SpoolerFault::AtStartDocument(_) => seq![
            Step::Open(target),
            Step::StartDocument(enc),
            Step::Close,
        ],
        SpoolerFault::AtStartPage(_) => seq![
            Step::Open(target),
            Step::StartDocument(enc),
            Step::StartPage,
            Step::EndDocument,
            Step::Close,
        ],
        _ => seq![
            Step::Open(target),
            Step::StartDocument(enc),
            Step::StartPage,
            Step::Write,
            Step::EndPage,
            Step::EndDocument,
            Step::Close,
        ],
    }
}

/// The number of session closes among `t`.
pub open spec fn closes(t: Seq<Step>) -> nat
    decreases t.len(),
{
    if t.len() == 0 {
        0
    } else {
        closes(t.drop_last()) + if t.last() is Close {
            1nat
        } else {
            0nat
        }
    }
}

/// The actions asked for before the first attempt: the query of the default
/// printer, unless the caller named a printer.
pub open spec fn prelude_trace(explicit: Option<Seq<char>>) -> Seq<Step> {
    if usable(explicit) is Some {
        Seq::empty()
    } else {
        seq![Step::QueryDefaultPrinter]
    }
}


proof fn lemma_drive_split(
    s: JobState,
    a: Step,
    faults: Seq<SpoolerFault>,
    default: Option<Seq<char>>,
    n1: nat,
    n2: nat,
)
    ensures
        ({
            let (s1, a1, t1) = drive(s, a, faults, default, n1);
            let (s2, a2, t2) = drive(s1, a1, faults, default, n2);
            drive(s, a, faults, default, n1 + n2) == (s2, a2, t1 + t2)
        }),
    decreases n1,
{
    if n1 > 0 {
        let e = reply(fault_at(faults, s.current), a, s.len, default);
        let (s1, a1) = transition(s, e);
        lemma_drive_split(s1, a1, faults, default, (n1 - 1) as nat, n2);
        let (x1, b1, u1) = drive(s1, a1, faults, default, (n1 - 1) as nat);
        let (x2, b2, u2) = drive(x1, b1, faults, default, n2);
        assert(seq![a1] + (u1 + u2) =~= (seq![a1] + u1) + u2);
    } else {
        let (s2, a2, t2) = drive(s, a, faults, default, n2);
        assert(Seq::<Step>::empty() + t2 =~= t2);
    }
}

/// One attempt, from a state that has just asked to open a session: the
/// actions are those of `attempt_trace`, and the job then prints, moves on to
/// the next candidate, or ends exhausted.
pub proof fn law_attempt_lifecycle(s: JobState, faults: Seq<SpoolerFault>, default: Option<Seq<char>>)
    requires
        wf_state(s),
        s.stage == Stage::AwaitOpen,
        !s.printed,
    ensures
        ({
            let f = fault_at(faults, s.current);
            let t = attempt_trace(f, s.target, s.candidates[s.current as int]);
            let (s2, a2, u) = drive(s, Step::Open(s.target), faults, default, t.len());
            &&& u == t.drop_first().push(a2)
            &&& delivers(f, s.len) ==> {
                &&& s2 == JobState { stage: Stage::Printed, printed: true, ..s }
                &&& a2 == Step::Finish(
                    Outcome::Printed { bytes: s.len, encoding: s.candidates[s.current as int] },
                )
            }
            &&& !delivers(f, s.len) ==> (s2, a2) == next_attempt(s)
        }),
{
    let f = fault_at(faults, s.current);
    let enc = s.candidates[s.current as int];
    let t = attempt_trace(f, s.target, enc);
    reveal_with_fuel(drive, 8);
    let (s2, a2, u) = drive(s, Step::Open(s.target), faults, default, t.len());
    assert(u =~= t.drop_first().push(a2));
}

/// A job's first attempt uses the first candidate; when the spooler takes the
/// whole payload there, the job ends printed with that data type, and the
/// second candidate is never opened: the actions are the optional query of
/// the default printer, one full session, and the end.
pub proof fn law_first_success_short_circuits(
    len: nat,
    explicit: Option<Seq<char>>,
    candidates: Seq<Encoding>,
    default: Option<Seq<char>>,
    faults: Seq<SpoolerFault>,
)
    requires
        len <= usize::MAX,
        candidates.len() >= 1,
        delivers(fault_at(faults, 0), len),
    ensures
        ({
            let (s0, a0) = start_spec(len, explicit, candidates, true);
            let target = resolve_spec(explicit, default);
            let n = prelude_trace(explicit).len() + attempt_trace(
                fault_at(faults, 0),
                target,
                candidates[0],
            ).len();
            let (s, a, t) = drive(s0, a0, faults, default, n);
            &&& seq![a0] + t == prelude_trace(explicit) + attempt_trace(
                fault_at(faults, 0),
                target,
                candidates[0],
            ).push(Step::Finish(Outcome::Printed { bytes: len, encoding: candidates[0] }))
            &&& s.stage == Stage::Printed
            &&& a == Step::Finish(Outcome::Printed { bytes: len, encoding: candidates[0] })
        }),
{
    let (s0, a0) = start_spec(len, explicit, candidates, true);
    let target = resolve_spec(explicit, default);
    let f = fault_at(faults, 0);
    let at = attempt_trace(f, target, candidates[0]);
    if usable(explicit) is Some {
        law_attempt_lifecycle(s0, faults, default);
        let (s, a, t) = drive(s0, a0, faults, default, at.len());
        assert(seq![a0] + t =~= prelude_trace(explicit) + at.push(a));
    } else {
        let (s1, a1) = transition(s0, Report::DefaultPrinter(default));
        lemma_drive_split(s0, a0, faults, default, 1, at.len());
        reveal_with_fuel(drive, 2);
        law_attempt_lifecycle(s1, faults, default);
        let (s, a, t) = drive(s1, a1, faults, default, at.len());
        assert(seq![a0] + (seq![a1] + t) =~= prelude_trace(explicit) + at.push(a));
    }
}

/// When the spooler would take the whole payload under every candidate, the
/// job prints with the first candidate, never with a later one.
pub proof fn law_candidate_order(
    len: nat,
    explicit: Option<Seq<char>>,
    candidates: Seq<Encoding>,
    default: Option<Seq<char>>,
    faults: Seq<SpoolerFault>,
)
    requires
        len <= usize::MAX,
        candidates.len() >= 1,
        forall|i: nat| i < candidates.len() ==> delivers(#[trigger] fault_at(faults, i), len),
    ensures
        ({
            let (s0, a0) = start_spec(len, explicit, candidates, true);
            let target = resolve_spec(explicit, default);
            let n = prelude_trace(explicit).len() + attempt_trace(
                fault_at(faults, 0),
                target,
                candidates[0],
            ).len();
            drive(s0, a0, faults, default, n).1 == Step::Finish(
                Outcome::Printed { bytes: len, encoding: candidates[0] },
            )
        }),
{
    assert(delivers(fault_at(faults, 0), len));
    law_first_success_short_circuits(len, explicit, candidates, default, faults);
}

/// When the spooler fails every attempt of a two-candidate job, both
/// candidates are tried in order, each in one session, and the job ends
/// exhausted with both data types named.
pub proof fn law_exhaustion_names_every_candidate(
    len: nat,
    explicit: Option<Seq<char>>,
    candidates: Seq<Encoding>,
    default: Option<Seq<char>>,
    faults: Seq<SpoolerFault>,
)
    requires
        len <= usize::MAX,
        candidates.len() == 2,
        !delivers(fault_at(faults, 0), len),
        !delivers(fault_at(faults, 1), len),
    ensures
        ({
            let (s0, a0) = start_spec(len, explicit, candidates, true);
            let target = resolve_spec(explicit, default);
            let first = attempt_trace(fault_at(faults, 0), target, candidates[0]);
            let second = attempt_trace(fault_at(faults, 1), target, candidates[1]);
            let (s, a, t) = drive(
                s0,
                a0,
                faults,
                default,
                prelude_trace(explicit).len() + first.len() + second.len(),
            );
            &&& seq![a0] + t == prelude_trace(explicit) + first + second.push(
                Step::Finish(Outcome::Exhausted { attempted: candidates }),
            )
            &&& s.stage == Stage::Exhausted
            &&& a == Step::Finish(Outcome::Exhausted { attempted: candidates })
        }),
{
    let (s0, a0) = start_spec(len, explicit, candidates, true);
    let target = resolve_spec(explicit, default);
    let first = attempt_trace(fault_at(faults, 0), target, candidates[0]);
    let second = attempt_trace(fault_at(faults, 1), target, candidates[1]);
    let p = prelude_trace(explicit).len();
    lemma_prelude(len, explicit, candidates, default, faults);
    let (s1, a1, t1) = drive(s0, a0, faults, default, p);
    law_attempt_lifecycle(s1, faults, default);
    let (s2, a2, t2) = drive(s1, a1, faults, default, first.len());
    law_attempt_lifecycle(s2, faults, default);
    let (s3, a3, t3) = drive(s2, a2, faults, default, second.len());
    lemma_drive_split(s0, a0, faults, default, p, first.len());
    lemma_drive_split(s0, a0, faults, default, p + first.len(), second.len());
    assert(seq![a0] + (t1 + t2 + t3) =~= prelude_trace(explicit) + first + second.push(a3));
}

proof fn lemma_prelude(
    len: nat,
    explicit: Option<Seq<char>>,
    candidates: Seq<Encoding>,
    default: Option<Seq<char>>,
    faults: Seq<SpoolerFault>,
)
    requires
        len <= usize::MAX,
        candidates.len() >= 1,
    ensures
        ({
            let (s0, a0) = start_spec(len, explicit, candidates, true);
            let target = resolve_spec(explicit, default);
            let (s1, a1, t1) = drive(s0, a0, faults, default, prelude_trace(explicit).len());
            &&& s1 == JobState {
                len,
                candidates,
                target,
                current: 0,
                stage: Stage::AwaitOpen,
                printed: false,
            }
            &&& a1 == Step::Open(target)
            &&& seq![a0] + t1 == prelude_trace(explicit).push(a1)
        }),
{
    reveal_with_fuel(drive, 2);
    let (s0, a0) = start_spec(len, explicit, candidates, true);
    let (s1, a1, t1) = drive(s0, a0, faults, default, prelude_trace(explicit).len());
    assert(seq![a0] + t1 =~= prelude_trace(explicit).push(a1));
}

/// A session that was opened is closed exactly once, as the last action of
/// its attempt; an attempt whose open failed has no session and no close.
pub proof fn law_session_released_once(f: SpoolerFault, target: Option<Seq<char>>, enc: Encoding)
    ensures
        attempt_trace(f, target, enc)[0] == Step::Open(target),
        f is AtOpen ==> closes(attempt_trace(f, target, enc)) == 0,
        !(f is AtOpen) ==> closes(attempt_trace(f, target, enc)) == 1 && attempt_trace(
            f,
            target,
            enc,
        ).last() == Step::Close,
{
    let t = attempt_trace(f, target, enc);
    reveal_with_fuel(closes, 8);
    if !(f is AtOpen) {
        assert(closes(t) == 1);
    }
}

/// A target that names a printer names it with at least one character.
pub open spec fn target_ok(t: Option<Seq<char>>) -> bool {
    t matches Some(n) ==> n.len() > 0
}

pub open spec fn action_target_ok(a: Step) -> bool {
    a matches Step::Open(t) ==> target_ok(t)
}

/// With no printer named by the caller and none reported by the system, the
/// job asks for the default printer and then opens the spooler's own choice,
/// never a printer with an empty name.
pub proof fn law_resolver_fallback(
    len: nat,
    explicit: Option<Seq<char>>,
    candidates: Seq<Encoding>,
    default: Option<Seq<char>>,
)
    requires
        len <= usize::MAX,
        candidates.len() >= 1,
        usable(explicit) is None,
        usable(default) is None,
    ensures
        ({
            let (s0, a0) = start_spec(len, explicit, candidates, true);
            &&& a0 == Step::QueryDefaultPrinter
            &&& transition(s0, Report::DefaultPrinter(default)).1 == Step::Open(None)
        }),
{
}

/// No action of a job opens a printer with an empty name: the start gives
/// none, and each move keeps it so.
pub proof fn law_open_target_never_empty(
    len: nat,
    explicit: Option<Seq<char>>,
    candidates: Seq<Encoding>,
    available: bool,
    s: JobState,
    e: Report,
)
    requires
        wf_state(s),
        target_ok(s.target),
    ensures
        target_ok(start_spec(len, explicit, candidates, available).0.target),
        action_target_ok(start_spec(len, explicit, candidates, available).1),
        target_ok(transition(s, e).0.target),
        action_target_ok(transition(s, e).1),
{
}

/// A write of which the spooler took fewer bytes than the payload holds
/// fails the attempt: the session is released, then the next candidate is
/// opened or the job ends exhausted, whatever the release calls report.
pub proof fn law_short_write_fails(s: JobState, n: nat, e1: Report, e2: Report, e3: Report)
    requires
        wf_state(s),
        s.stage == Stage::AwaitWrite,
        n < s.len,
    ensures
        ({
            let (s1, a1) = transition(s, Report::Wrote(n));
            let (s2, a2) = transition(s1, e1);
            let (s3, a3) = transition(s2, e2);
            let (s4, a4) = transition(s3, e3);
            &&& a1 == Step::EndPage
            &&& a2 == Step::EndDocument
            &&& a3 == Step::Close
            &&& (s4, a4) == next_attempt(JobState { printed: false, ..s })
            &&& !(a4 is Finish && a4->Finish_0 is Printed)
        }),
{
}

/// Where no spooler is available the job ends at its start, unsupported,
/// before any call to the system, and stays ended.
pub proof fn law_unsupported_platform(
    len: nat,
    explicit: Option<Seq<char>>,
    candidates: Seq<Encoding>,
    e: Report,
)
    ensures
        ({
            let (s0, a0) = start_spec(len, explicit, candidates, false);
            &&& a0 == Step::Finish(Outcome::Unsupported)
            &&& transition(s0, e) == (s0, a0)
        }),
{
}

/// A job that has ended stays as it is and repeats its outcome, whatever is
/// reported; in particular nothing more is opened.
pub proof fn law_finished_job_stays(s: JobState, e: Report)
    requires
        is_terminal(s.stage),
    ensures
        transition(s, e) == (s, Step::Finish(outcome_of(s))),
{
}

} // verus!
