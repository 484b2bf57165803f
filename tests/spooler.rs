use pos_printer::encoding::{default_candidates, Encoding};
use pos_printer::job::{Action, Event, JobOutcome, PrintJob};
use pos_printer::reason::ErrorReason;
use pos_printer::resolver::Target;

#[derive(Clone, Copy, PartialEq)]
enum Fault {
    Never,
    Open,
    StartDocument,
    StartPage,
    Write,
    Short(usize),
}

struct FakeSpooler {
    default: Option<String>,
    faults: Vec<Fault>,
    queries: usize,
    opens: Vec<Target>,
    documents: Vec<Encoding>,
    log: Vec<&'static str>,
}

impl FakeSpooler {
    fn new(default: Option<&str>, faults: Vec<Fault>) -> FakeSpooler {
        FakeSpooler {
            default: default.map(|d| d.to_string()),
            faults,
            queries: 0,
            opens: Vec::new(),
            documents: Vec::new(),
            log: Vec::new(),
        }
    }

    fn fault(&self) -> Fault {
        let attempt = self.opens.len() - 1;
        self.faults.get(attempt).copied().unwrap_or(Fault::Never)
    }

    fn calls(&self) -> usize {
        self.log.len()
    }

    fn count(&self, name: &str) -> usize {
        self.log.iter().filter(|c| **c == name).count()
    }

    fn run(
        &mut self,
        payload_len: usize,
        explicit: Option<&str>,
        candidates: Vec<Encoding>,
        available: bool,
    ) -> JobOutcome {
        let (mut job, mut action) =
            PrintJob::start(payload_len, explicit.map(|e| e.to_string()), candidates, available);
        for _ in 0..100 {
            let event = match action {
                Action::Finish(outcome) => {
                    assert!(job.is_finished());
                    return outcome;
                }
                Action::QueryDefaultPrinter => {
                    self.queries += 1;
                    self.log.push("query");
                    Event::DefaultPrinter(self.default.clone())
                }
                Action::Open(target) => {
                    self.opens.push(target);
                    self.log.push("open");
                    if self.fault() == Fault::Open {
                        Event::Failed(ErrorReason::NotFound)
                    } else {
                        Event::Done
                    }
                }
                Action::StartDocument(e) => {
                    self.documents.push(e);
                    self.log.push("start_document");
                    if self.fault() == Fault::StartDocument {
                        Event::Failed(ErrorReason::InvalidHandle)
                    } else {
                        Event::Done
                    }
                }
                Action::StartPage => {
                    self.log.push("start_page");
                    if self.fault() == Fault::StartPage {
                        Event::Failed(ErrorReason::Other(1804))
                    } else {
                        Event::Done
                    }
                }
                Action::Write => {
                    self.log.push("write");
                    match self.fault() {
                        Fault::Write => Event::Failed(ErrorReason::AccessDenied),
                        Fault::Short(n) => Event::Wrote(n),
                        _ => Event::Wrote(payload_len),
                    }
                }
                Action::EndPage => {
                    self.log.push("end_page");
                    Event::Done
                }
                Action::EndDocument => {
                    self.log.push("end_document");
                    Event::Done
                }
                Action::Close => {
                    self.log.push("close");
                    Event::Done
                }
            };
            action = job.step(event);
        }
        panic!("the job did not end");
    }
}

#[test]
fn candidate_order_prefers_text() {
    let mut sp = FakeSpooler::new(Some("Receipt-80mm"), vec![Fault::Never, Fault::Never]);
    let out = sp.run(10, None, default_candidates(), true);
    assert_eq!(out, JobOutcome::Printed { bytes: 10, encoding: Encoding::Text });
}

#[test]
fn first_success_short_circuits() {
    let mut sp = FakeSpooler::new(None, vec![Fault::Never, Fault::Never]);
    let out = sp.run(5, Some("POS-58"), default_candidates(), true);
    assert!(out.is_printed());
    assert_eq!(sp.opens.len(), 1);
    assert_eq!(sp.documents, vec![Encoding::Text]);
    assert_eq!(sp.queries, 0);
    assert_eq!(
        sp.log,
        vec!["open", "start_document", "start_page", "write", "end_page", "end_document", "close"]
    );
}

#[test]
fn exhaustion_names_both_encodings() {
    let mut sp = FakeSpooler::new(None, vec![Fault::StartDocument, Fault::Write]);
    let out = sp.run(8, None, default_candidates(), true);
    assert_eq!(out, JobOutcome::Exhausted { attempted: vec![Encoding::Text, Encoding::Raw] });
    assert_eq!(sp.documents, vec![Encoding::Text, Encoding::Raw]);
    let msg = out.message();
    assert!(msg.contains("TEXT"));
    assert!(msg.contains("RAW"));
    assert_eq!(
        msg,
        "Failed to print with TEXT and RAW data types. Check printer connection and driver."
    );
}

#[test]
fn release_on_open_failure() {
    let mut sp = FakeSpooler::new(None, vec![Fault::Open, Fault::Open]);
    let out = sp.run(3, None, default_candidates(), true);
    assert!(!out.is_printed());
    assert_eq!(sp.count("open"), 2);
    assert_eq!(sp.count("close"), 0);
    assert_eq!(sp.count("start_document"), 0);
}

#[test]
fn release_on_start_document_failure() {
    let mut sp = FakeSpooler::new(None, vec![Fault::StartDocument]);
    let out = sp.run(3, None, vec![Encoding::Text], true);
    assert!(!out.is_printed());
    assert_eq!(sp.log, vec!["query", "open", "start_document", "close"]);
}

#[test]
fn release_on_start_page_failure() {
    let mut sp = FakeSpooler::new(None, vec![Fault::StartPage]);
    let out = sp.run(3, None, vec![Encoding::Text], true);
    assert!(!out.is_printed());
    assert_eq!(sp.log, vec!["query", "open", "start_document", "start_page", "end_document", "close"]);
}

#[test]
fn release_on_write_failure() {
    let mut sp = FakeSpooler::new(None, vec![Fault::Write, Fault::Never]);
    let out = sp.run(3, None, default_candidates(), true);
    assert_eq!(out, JobOutcome::Printed { bytes: 3, encoding: Encoding::Raw });
    assert_eq!(sp.count("open"), 2);
    assert_eq!(sp.count("close"), 2);
    assert_eq!(sp.count("end_page"), 2);
    assert_eq!(sp.count("end_document"), 2);
}

#[test]
fn resolver_fallback_uses_system_default() {
    let mut sp = FakeSpooler::new(None, vec![Fault::Never]);
    let out = sp.run(4, None, default_candidates(), true);
    assert!(out.is_printed());
    assert_eq!(sp.queries, 1);
    assert_eq!(sp.opens, vec![Target::SystemDefault]);
}

#[test]
fn empty_default_name_is_not_opened() {
    let mut sp = FakeSpooler::new(Some(""), vec![Fault::Never]);
    sp.run(4, Some(""), default_candidates(), true);
    assert_eq!(sp.queries, 1);
    assert_eq!(sp.opens, vec![Target::SystemDefault]);
}

#[test]
fn explicit_name_wins_over_default() {
    let mut sp = FakeSpooler::new(Some("Office"), vec![Fault::Never]);
    sp.run(4, Some("POS-80"), default_candidates(), true);
    assert_eq!(sp.queries, 0);
    assert_eq!(sp.opens, vec![Target::Named("POS-80".to_string())]);
}

#[test]
fn partial_write_is_a_failure() {
    let mut sp = FakeSpooler::new(None, vec![Fault::Short(9), Fault::Short(0)]);
    let out = sp.run(10, None, default_candidates(), true);
    assert_eq!(out, JobOutcome::Exhausted { attempted: vec![Encoding::Text, Encoding::Raw] });
    assert_eq!(sp.count("open"), 2);
    assert_eq!(sp.count("close"), 2);
}

#[test]
fn partial_write_then_full_write() {
    let mut sp = FakeSpooler::new(None, vec![Fault::Short(9)]);
    let out = sp.run(10, None, default_candidates(), true);
    assert_eq!(out, JobOutcome::Printed { bytes: 10, encoding: Encoding::Raw });
}

#[test]
fn end_to_end_raw_only() {
    let mut sp = FakeSpooler::new(Some("Receipt-80mm"), vec![Fault::StartDocument, Fault::Never]);
    let out = sp.run(42, None, default_candidates(), true);
    assert_eq!(out, JobOutcome::Printed { bytes: 42, encoding: Encoding::Raw });
    assert_eq!(
        sp.opens,
        vec![Target::Named("Receipt-80mm".to_string()), Target::Named("Receipt-80mm".to_string())]
    );
    assert_eq!(out.message(), "Successfully printed 42 bytes using RAW data type");
}

#[test]
fn unsupported_platform_makes_no_call() {
    let mut sp = FakeSpooler::new(Some("Receipt-80mm"), vec![]);
    let out = sp.run(42, Some("POS"), default_candidates(), false);
    assert_eq!(out, JobOutcome::Unsupported);
    assert_eq!(sp.calls(), 0);
    assert_eq!(out.message(), "Printing is not supported on this platform");
}

#[test]
fn no_candidates_ends_exhausted_without_opening() {
    let mut sp = FakeSpooler::new(Some("X"), vec![]);
    let out = sp.run(1, None, vec![], true);
    assert_eq!(out, JobOutcome::Exhausted { attempted: vec![] });
    assert_eq!(sp.count("open"), 0);
    assert_eq!(out.message(), "Failed to print: no data type was given");
}

#[test]
fn alternate_candidate_order() {
    let mut sp = FakeSpooler::new(None, vec![Fault::Never]);
    let out = sp.run(2, None, vec![Encoding::Raw, Encoding::Text], true);
    assert_eq!(out, JobOutcome::Printed { bytes: 2, encoding: Encoding::Raw });
}

#[test]
fn empty_payload_prints() {
    let mut sp = FakeSpooler::new(None, vec![]);
    let out = sp.run(0, None, default_candidates(), true);
    assert_eq!(out, JobOutcome::Printed { bytes: 0, encoding: Encoding::Text });
    assert_eq!(out.message(), "Successfully printed 0 bytes using TEXT data type");
}

#[test]
fn finished_job_repeats_outcome() {
    let (mut job, action) = PrintJob::start(3, None, default_candidates(), false);
    assert!(matches!(action, Action::Finish(JobOutcome::Unsupported)));
    let again = job.step(Event::Done);
    assert!(matches!(again, Action::Finish(JobOutcome::Unsupported)));
    assert!(job.is_finished());
    assert_eq!(job.current_encoding(), None);
}

#[test]
fn current_encoding_follows_attempts() {
    let (mut job, action) = PrintJob::start(3, Some("P".to_string()), default_candidates(), true);
    assert!(matches!(action, Action::Open(_)));
    assert_eq!(job.current_encoding(), Some(Encoding::Text));
    let next = job.step(Event::Failed(ErrorReason::NotFound));
    assert!(matches!(next, Action::Open(_)));
    assert_eq!(job.current_encoding(), Some(Encoding::Raw));
    assert!(!job.is_finished());
}
