use vstd::prelude::*;
use vstd::string::StringExecFns;
use crate::encoding::{Encoding, tag_spec};
use crate::reason::ErrorReason;
use crate::resolver::{Target, name_view, usable, needs_default_query, target_of};
use crate::text::{decimal, push_decimal};

verus! {

/// Where a job stands: which spooler call it waits on, or how it ended.
#[derive(Clone, Copy, Debug, PartialEq, Eq, Structural)]
pub enum Stage {
    AwaitDefault,
    AwaitOpen,
    AwaitStartDocument,
    AwaitStartPage,
    AwaitWrite,
    AwaitEndPage,
    AwaitEndDocument,
    AwaitClose,
    Printed,
    Exhausted,
    Unsupported,
}

/// How a job ended.
#[derive(Debug, PartialEq, Eq)]
pub enum JobOutcome {
    /// The spooler took all `bytes` under `encoding`.
    Printed { bytes: usize, encoding: Encoding },
    /// This platform has no print spooler; nothing was attempted.
    Unsupported,
    /// Every candidate failed; they are listed in the order tried.
    Exhausted { attempted: Vec<Encoding> },
}

/// The mathematical value of a `JobOutcome`.
pub enum Outcome {
    Printed { bytes: nat, encoding: Encoding },
    Unsupported,
    Exhausted { attempted: Seq<Encoding> },
}

impl View for JobOutcome {
    type V = Outcome;

    open spec fn view(&self) -> Outcome {
        match self {
            JobOutcome::Printed { bytes, encoding } => Outcome::Printed {
                bytes: *bytes as nat,
                encoding: *encoding,
            },
            JobOutcome::Unsupported => Outcome::Unsupported,
            JobOutcome::Exhausted { attempted } => Outcome::Exhausted { attempted: attempted@ },
        }
    }
}

/// The data types of `s` by name, joined with `and`.
pub open spec fn joined_tags(s: Seq<Encoding>) -> Seq<char>
    decreases s.len(),
{
    if s.len() == 0 {
        Seq::empty()
    } else if s.len() == 1 {
        tag_spec(s[0])
    } else {
        joined_tags(s.drop_last()) + " and "@ + tag_spec(s.last())
    }
}

/// The message that tells the user how a job ended.
pub open spec fn message_spec(o: Outcome) -> Seq<char> {
    match o {
        Outcome::Printed { bytes, encoding } => "Successfully printed "@ + decimal(bytes)
            + " bytes using "@ + tag_spec(encoding) + " data type"@,
        Outcome::Unsupported => "Printing is not supported on this platform"@,
        Outcome::Exhausted { attempted } => if attempted.len() == 0 {
            "Failed to print: no data type was given"@
        } else {
            "Failed to print with "@ + joined_tags(attempted)
                + " data types. Check printer connection and driver."@
        },
    }
}

impl JobOutcome {
    /// Whether the job printed.
    pub fn is_printed(&self) -> (r: bool)
        ensures
            r == (self@ is Printed),
    {
        match self {
            JobOutcome::Printed { .. } => true,
            _ => false,
        }
    }

    /// The message for the user: the byte count and the data type on
    /// success, else why nothing was printed.
    pub fn message(&self) -> (r: String)
        ensures
            r@ == message_spec(self@),
    {
        match self {
            JobOutcome::Printed { bytes, encoding } => {
                let mut m = String::from_str("Successfully printed ");
                push_decimal(&mut m, *bytes as u64);
                m.append(" bytes using ");
                m.append(encoding.tag());
                m.append(" data type");
                m
            },
            JobOutcome::Unsupported => String::from_str("Printing is not supported on this platform"),
            JobOutcome::Exhausted { attempted } => {
                if attempted.len() == 0 {
                    String::from_str("Failed to print: no data type was given")
                } else {
                    let mut m = String::from_str("Failed to print with ");
                    let ghost start = m@;
                    let mut i: usize = 0;
                    while i < attempted.len()
                        invariant
                            i <= attempted@.len(),
                            attempted@.len() > 0,
                            m@ == start + joined_tags(attempted@.subrange(0, i as int)),
                        decreases attempted@.len() - i,
                    {
                        let ghost before = m@;
                        if i > 0 {
                            m.append(" and ");
                        }
                        m.append(attempted[i].tag());
                        proof {
                            let p = attempted@.subrange(0, i + 1);
                            assert(p.drop_last() =~= attempted@.subrange(0, i as int));
                            assert(p.last() == attempted@[i as int]);
                            if i == 0 {
                                assert(joined_tags(attempted@.subrange(0, 0)) =~= Seq::<char>::empty());
                                assert(m@ =~= start + joined_tags(p));
                            } else {
                                assert(m@ =~= start + joined_tags(p));
                            }
                        }
                        i = i + 1;
                    }
                    assert(attempted@.subrange(0, attempted@.len() as int) =~= attempted@);
                    m.append(" data types. Check printer connection and driver.");
                    m
                }
            },
        }
    }
}

/// What the driver must do next.
#[derive(Debug)]
pub enum Action {
    /// Ask the system for its default printer and report `Event::DefaultPrinter`.
    QueryDefaultPrinter,
    /// Open a spooler session on the target.
    Open(Target),
    /// Start a document of this data type in the open session.
    StartDocument(Encoding),
    /// Start a page in the open document.
    StartPage,
    /// Write the whole payload and report how many bytes the spooler took.
    Write,
    /// End the open page.
    EndPage,
    /// End the open document.
    EndDocument,
    /// Close the session.
    Close,
    /// The job is over; nothing more is to be done.
    Finish(JobOutcome),
}

/// The mathematical value of an `Action`.
pub enum Step {
    QueryDefaultPrinter,
    Open(Option<Seq<char>>),
    StartDocument(Encoding),
    StartPage,
    Write,
    EndPage,
    EndDocument,
    Close,
    Finish(Outcome),
}

impl View for Action {
    type V = Step;

    open spec fn view(&self) -> Step {
        match self {
            Action::QueryDefaultPrinter => Step::QueryDefaultPrinter,
            Action::Open(t) => Step::Open(t@),
            Action::StartDocument(e) => Step::StartDocument(*e),
            Action::StartPage => Step::StartPage,
            Action::Write => Step::Write,
            Action::EndPage => Step::EndPage,
            Action::EndDocument => Step::EndDocument,
            Action::Close => Step::Close,
            Action::Finish(o) => Step::Finish(o@),
        }
    }
}

/// What the driver reports of the action it performed.
#[derive(Debug)]
pub enum Event {
    /// The system's default printer, absent when it has none or the query failed.
    DefaultPrinter(Option<String>),
    /// The call succeeded.
    Done,
    /// The call failed.
    Failed(ErrorReason),
    /// The write call succeeded and the spooler took this many bytes.
    Wrote(usize),
}

/// The mathematical value of an `Event`.
pub enum Report {
    DefaultPrinter(Option<Seq<char>>),
    Done,
    Failed(ErrorReason),
    Wrote(nat),
}

impl View for Event {
    type V = Report;

    open spec fn view(&self) -> Report {
        match self {
            Event::DefaultPrinter(n) => Report::DefaultPrinter(name_view(*n)),
            Event::Done => Report::Done,
            Event::Failed(r) => Report::Failed(*r),
            Event::Wrote(n) => Report::Wrote(*n as nat),
        }
    }
}

/// The mathematical state of a job.
pub struct JobState {
    /// Length of the payload in bytes.
    pub len: nat,
    /// The data types to try, in order.
    pub candidates: Seq<Encoding>,
    /// The printer every attempt opens.
    pub target: Option<Seq<char>>,
    /// Index of the candidate being tried.
    pub current: nat,
    pub stage: Stage,
    /// Whether the spooler took the whole payload in the current attempt.
    pub printed: bool,
}

pub open spec fn in_attempt(stage: Stage) -> bool {
    match stage {
        Stage::AwaitOpen | Stage::AwaitStartDocument | Stage::AwaitStartPage | Stage::AwaitWrite
        | Stage::AwaitEndPage | Stage::AwaitEndDocument | Stage::AwaitClose | Stage::Printed => true,
        _ => false,
    }
}

/// Whether a job in this stage has ended.
pub open spec fn is_terminal(stage: Stage) -> bool {
    match stage {
        Stage::Printed | Stage::Exhausted | Stage::Unsupported => true,
        _ => false,
    }
}

pub open spec fn wf_state(s: JobState) -> bool {
    &&& s.len <= usize::MAX
    &&& s.current <= usize::MAX
    &&& in_attempt(s.stage) ==> s.current < s.candidates.len()
}

pub open spec fn outcome_of(s: JobState) -> Outcome {
    match s.stage {
        Stage::Printed => Outcome::Printed { bytes: s.len, encoding: s.candidates[s.current as int] },
        Stage::Unsupported => Outcome::Unsupported,
        _ => Outcome::Exhausted { attempted: s.candidates },
    }
}

/// The first attempt on `target`, or the end when there is nothing to try.
pub open spec fn first_attempt(s: JobState, target: Option<Seq<char>>) -> (JobState, Step) {
    if s.candidates.len() > 0 {
        (
            JobState { target, current: 0, stage: Stage::AwaitOpen, printed: false, ..s },
            Step::Open(target),
        )
    } else {
        let e = JobState { target, current: 0, stage: Stage::Exhausted, printed: false, ..s };
        (e, Step::Finish(outcome_of(e)))
    }
}

/// After an attempt failed with no session left open: the next candidate, or
/// the end when none is left.
pub open spec fn next_attempt(s: JobState) -> (JobState, Step) {
    if s.current + 1 < s.candidates.len() {
        (
            JobState { current: s.current + 1, stage: Stage::AwaitOpen, printed: false, ..s },
            Step::Open(s.target),
        )
    } else {
        let e = JobState { stage: Stage::Exhausted, ..s };
        (e, Step::Finish(outcome_of(e)))
    }
}

pub open spec fn reported_default(e: Report) -> Option<Seq<char>> {
    match e {
        Report::DefaultPrinter(n) => n,
        _ => None,
    }
}

pub open spec fn start_spec(
    len: nat,
    explicit: Option<Seq<char>>,
    candidates: Seq<Encoding>,
    spooler_available: bool,
) -> (JobState, Step) {
    let s = JobState {
        len,
        candidates,
        target: None,
        current: 0,
        stage: Stage::AwaitDefault,
        printed: false,
    };
    if !spooler_available {
        let u = JobState { stage: Stage::Unsupported, ..s };
        (u, Step::Finish(outcome_of(u)))
    } else if usable(explicit) is Some {
        first_attempt(s, usable(explicit))
    } else {
        (s, Step::QueryDefaultPrinter)
    }
}

/// One move of a job: the state after `e` was reported, and the next action.
/// A session that was opened is released on every path: a failed start of the
/// document closes it, a failed start of the page ends the document and closes
/// it, and a write, whatever its result, is followed by the end of the page,
/// the end of the document and the close. A write counts only when the
/// spooler took every byte.
pub open spec fn transition(s: JobState, e: Report) -> (JobState, Step) {
    match s.stage {
        Stage::AwaitDefault => first_attempt(s, usable(reported_default(e))),
        Stage::AwaitOpen => if e == Report::Done {
            (
                JobState { stage: Stage::AwaitStartDocument, ..s },
                Step::StartDocument(s.candidates[s.current as int]),
            )
        } else {
            next_attempt(s)
        },
        Stage::AwaitStartDocument => if e == Report::Done {
            (JobState { stage: Stage::AwaitStartPage, ..s }, Step::StartPage)
        } else {
            (JobState { stage: Stage::AwaitClose, ..s }, Step::Close)
        },
        Stage::AwaitStartPage => if e == Report::Done {
            (JobState { stage: Stage::AwaitWrite, ..s }, Step::Write)
        } else {
            (JobState { stage: Stage::AwaitEndDocument, ..s }, Step::EndDocument)
        },
        Stage::AwaitWrite => (
            JobState { stage: Stage::AwaitEndPage, printed: e == Report::Wrote(s.len), ..s },
            Step::EndPage,
        ),
        Stage::AwaitEndPage => (JobState { stage: Stage::AwaitEndDocument, ..s }, Step::EndDocument),
        Stage::AwaitEndDocument => (JobState { stage: Stage::AwaitClose, ..s }, Step::Close),
        Stage::AwaitClose => if s.printed {
            let p = JobState { stage: Stage::Printed, ..s };
            (p, Step::Finish(outcome_of(p)))
        } else {
            next_attempt(s)
        },
        _ => (s, Step::Finish(outcome_of(s))),
    }
}

/// One print job, driven by the spooler's reports.
#[derive(Debug)]
pub struct PrintJob {
    payload_len: usize,
    candidates: Vec<Encoding>,
    target: Target,
    current: usize,
    stage: Stage,
    printed: bool,
}

fn copy_encodings(v: &Vec<Encoding>) -> (r: Vec<Encoding>)
    ensures
        r@ == v@,
{
    let mut r: Vec<Encoding> = Vec::new();
    let mut i: usize = 0;
    while i < v.len()
        invariant
            i <= v@.len(),
            r@ == v@.subrange(0, i as int),
        decreases v@.len() - i,
    {
        r.push(v[i]);
        i = i + 1;
        assert(r@ =~= v@.subrange(0, i as int));
    }
    assert(v@.subrange(0, v@.len() as int) =~= v@);
    r
}

impl View for PrintJob {
    type V = JobState;

    closed spec fn view(&self) -> JobState {
        JobState {
            len: self.payload_len as nat,
            candidates: self.candidates@,
            target: self.target@,
            current: self.current as nat,
            stage: self.stage,
            printed: self.printed,
        }
    }
}

impl PrintJob {
    pub open spec fn wf(&self) -> bool {
        wf_state(self@)
    }

    fn outcome(&self) -> (r: JobOutcome)
        requires
            self.wf(),
        ensures
            r@ == outcome_of(self@),
    {
        match self.stage {
            Stage::Printed => JobOutcome::Printed {
                bytes: self.payload_len,
                encoding: self.candidates[self.current],
            },
            Stage::Unsupported => JobOutcome::Unsupported,
            _ => JobOutcome::Exhausted { attempted: copy_encodings(&self.candidates) },
        }
    }

    fn begin(&mut self, target: Target) -> (a: Action)
        requires
            old(self).wf(),
        ensures
            final(self).wf(),
            (final(self)@, a@) == first_attempt(old(self)@, target@),
    {
        self.target = target;
        self.current = 0;
        self.printed = false;
        if self.candidates.len() > 0 {
            self.stage = Stage::AwaitOpen;
            Action::Open(self.target.duplicate())
        } else {
            self.stage = Stage::Exhausted;
            Action::Finish(self.outcome())
        }
    }

    fn advance(&mut self) -> (a: Action)
        requires
            old(self).wf(),
            old(self).current < old(self)@.candidates.len(),
        ensures
            final(self).wf(),
            (final(self)@, a@) == next_attempt(old(self)@),
    {
        let n = self.candidates.len();
        if self.current + 1 < n {
            self.current = self.current + 1;
            self.stage = Stage::AwaitOpen;
            self.printed = false;
            Action::Open(self.target.duplicate())
        } else {
            self.stage = Stage::Exhausted;
            Action::Finish(self.outcome())
        }
    }

    /// Starts a job that sends `payload_len` bytes to the printer named by
    /// `explicit_name`, or else the system's default printer, trying the
    /// data types of `candidates` in order. Where no spooler is available the
    /// job ends at once, before any call to the system.
    pub fn start(
        payload_len: usize,
        explicit_name: Option<String>,
        candidates: Vec<Encoding>,
        spooler_available: bool,
    ) -> (r: (PrintJob, Action))
        ensures
            r.0.wf(),
            (r.0@, r.1@) == start_spec(
                payload_len as nat,
                name_view(explicit_name),
                candidates@,
                spooler_available,
            ),
    {
        let mut job = PrintJob {
            payload_len,
            candidates,
            target: Target::SystemDefault,
            current: 0,
            stage: Stage::AwaitDefault,
            printed: false,
        };
        if !spooler_available {
            job.stage = Stage::Unsupported;
            let o = job.outcome();
            (job, Action::Finish(o))
        } else if needs_default_query(&explicit_name) {
            (job, Action::QueryDefaultPrinter)
        } else {
            let a = job.begin(target_of(explicit_name));
            (job, a)
        }
    }

    /// Takes the report of the last action and returns the next one.
    pub fn step(&mut self, event: Event) -> (a: Action)
        requires
            old(self).wf(),
        ensures
            final(self).wf(),
            (final(self)@, a@) == transition(old(self)@, event@),
    {
        let done = match &event {
            Event::Done => true,
            _ => false,
        };
        match self.stage {
            Stage::AwaitDefault => {
                let reported = match event {
                    Event::DefaultPrinter(n) => n,
                    _ => None,
                };
                self.begin(target_of(reported))
            },
            Stage::AwaitOpen => {
                if done {
                    self.stage = Stage::AwaitStartDocument;
                    Action::StartDocument(self.candidates[self.current])
                } else {
                    self.advance()
                }
            },
            Stage::AwaitStartDocument => {
                if done {
                    self.stage = Stage::AwaitStartPage;
                    Action::StartPage
                } else {
                    self.stage = Stage::AwaitClose;
                    Action::Close
                }
            },
            Stage::AwaitStartPage => {
                if done {
                    self.stage = Stage::AwaitWrite;
                    Action::Write
                } else {
                    self.stage = Stage::AwaitEndDocument;
                    Action::EndDocument
                }
            },
            Stage::AwaitWrite => {
                self.printed = match event {
                    Event::Wrote(n) => n == self.payload_len,
                    _ => false,
                };
                self.stage = Stage::AwaitEndPage;
                Action::EndPage
            },
            Stage::AwaitEndPage => {
                self.stage = Stage::AwaitEndDocument;
                Action::EndDocument
            },
            Stage::AwaitEndDocument => {
                self.stage = Stage::AwaitClose;
                Action::Close
            },
            Stage::AwaitClose => {
                if self.printed {
                    self.stage = Stage::Printed;
                    Action::Finish(self.outcome())
                } else {
                    self.advance()
                }
            },
            _ => Action::Finish(self.outcome()),
        }
    }

    /// Whether the job has ended.
    pub fn is_finished(&self) -> (r: bool)
        ensures
            r == is_terminal(self@.stage),
    {
        match self.stage {
            Stage::Printed | Stage::Exhausted | Stage::Unsupported => true,
            _ => false,
        }
    }

    /// The data type of the attempt under way.
    pub fn current_encoding(&self) -> (r: Option<Encoding>)
        requires
            self.wf(),
        ensures
            r == (if in_attempt(self@.stage) {
                Some(self@.candidates[self@.current as int])
            } else {
                None::<Encoding>
            }),
    {
        if self.current < self.candidates.len() && match self.stage {
            Stage::AwaitDefault | Stage::Exhausted | Stage::Unsupported => false,
            _ => true,
        } {
            Some(self.candidates[self.current])
        } else {
            None
        }
    }
}

} // verus!
