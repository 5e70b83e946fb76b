//! The upload of one part: a state machine that decides, from what happened
//! to the last send, whether to report an ETag, to wait and send again, or
//! to give up.
//!
//! The machine does no work of its own. A driver hands it an [`Event`] and
//! carries out the [`Action`] it answers with: it sends the request, sleeps
//! for the backoff, or passes the outcome on. The phases are
//! `Idle → Sending → {Succeeded | Retrying → Sending | Failed}`.
//!
//! Each client owns its request and its counter and shares nothing, so any
//! number of parts can be uploaded side by side. A driver that wants to
//! cancel an upload drops the client: the machine holds nothing that would
//! have to be released.

use vstd::prelude::*;
use crate::backoff::{wait_duration, wait_millis, Jitter};
use crate::error::ErrorKind;
use crate::part_number::{extract_part_number, part_number_of};
use crate::request::{build, request_of, url_parses, Request, RequestView};

verus! {

/// The number of retries after which an upload gives up.
pub const MAX_RETRIES: u8 = 5;

/// The part number reported where the URL carries none.
pub const UNKNOWN_PART: i32 = 0;

/// The part number under which a part with this URL is reported: the one
/// that the URL carries, or `UNKNOWN_PART`.
pub open spec fn resolved_part_number(url: Seq<char>) -> i32 {
    match part_number_of(url) {
        Some(n) => n,
        None => UNKNOWN_PART,
    }
}

/// The mathematical content of an [`UploadPart`].
pub ghost struct PartView {
    pub part_number: i32,
    pub url: Seq<char>,
    pub bytes: Seq<u8>,
}

/// One part to upload: its number, where it goes and what it holds.
#[derive(Debug, PartialEq, Eq)]
pub struct UploadPart {
    part_number: i32,
    url: String,
    bytes: Vec<u8>,
}

impl View for UploadPart {
    type V = PartView;

    closed spec fn view(&self) -> PartView {
        PartView { part_number: self.part_number, url: self.url@, bytes: self.bytes@ }
    }
}

impl UploadPart {
    #[verifier::type_invariant]
    spec fn inv(self) -> bool {
        self.part_number == resolved_part_number(self.url@)
    }

    /// The part that holds `bytes` and goes to the pre-signed `url`. Its
    /// number is the one that the URL carries, `UNKNOWN_PART` where it
    /// carries none.
    pub fn new(url: String, bytes: Vec<u8>) -> (part: UploadPart)
        ensures
            part@ == (PartView { part_number: resolved_part_number(url@), url: url@, bytes: bytes@ }),
    {
        let part_number = match extract_part_number(url.as_str()) {
            Some(n) => n,
            None => UNKNOWN_PART,
        };
        UploadPart { part_number, url, bytes }
    }

    /// The number of the part, or `UNKNOWN_PART`.
    pub fn part_number(&self) -> (part_number: i32)
        ensures
            part_number == self@.part_number,
            part_number == resolved_part_number(self@.url),
    {
        proof {
            use_type_invariant(self);
        }
        self.part_number
    }

    /// The pre-signed URL of the part.
    pub fn url(&self) -> (url: &str)
        ensures
            url@ == self@.url,
    {
        self.url.as_str()
    }

    /// The bytes of the part.
    pub fn bytes(&self) -> (bytes: &Vec<u8>)
        ensures
            bytes@ == self@.bytes,
    {
        &self.bytes
    }
}

/// Where an upload stands.
#[derive(Clone, Copy, Debug, PartialEq, Eq, Structural)]
pub enum Phase {
    /// Nothing was sent yet.
    Idle,
    /// The request is on its way and the response is awaited.
    Sending,
    /// The last send failed and the backoff runs.
    Retrying,
    /// An ETag was received. Final.
    Succeeded,
    /// The upload was given up. Final.
    Failed,
}

impl Phase {
    /// Whether the upload is over.
    pub open spec fn is_terminal(self) -> bool {
        self == Phase::Succeeded || self == Phase::Failed
    }
}

/// The retry counter of one upload and the part it belongs to.
#[derive(Clone, Copy, Debug, PartialEq, Eq, Structural)]
pub struct RetryState {
    /// The retries begun so far, from 0 to `MAX_RETRIES`.
    pub attempt: u8,
    /// The part number that the URL carries, or `UNKNOWN_PART`.
    pub part_number: i32,
}

/// The mathematical content of an [`UploadOutcome`].
pub ghost enum OutcomeView {
    Success { part_number: i32, etag: Seq<char> },
    Failure { part_number: i32, kind: ErrorKind, last_error: Option<ErrorKind> },
}

/// How the upload of one part ended.
#[derive(Debug, PartialEq, Eq)]
pub enum UploadOutcome {
    /// The part was stored. `etag` is the `ETag` header of the response,
    /// exactly as it was received.
    Success { part_number: i32, etag: String },
    /// The part was not stored. Where the retries ran out, `last_error` is
    /// the failure of the last send.
    Failure { part_number: i32, kind: ErrorKind, last_error: Option<ErrorKind> },
}

impl View for UploadOutcome {
    type V = OutcomeView;

    open spec fn view(&self) -> OutcomeView {
        match *self {
            UploadOutcome::Success { part_number, etag } => OutcomeView::Success {
                part_number,
                etag: etag@,
            },
            UploadOutcome::Failure { part_number, kind, last_error } => OutcomeView::Failure {
                part_number,
                kind,
                last_error,
            },
        }
    }
}

/// The mathematical content of an [`Event`].
pub ghost enum EventView {
    Start,
    RequestRefused,
    TransportFailed { jitter: int },
    ResponseWithoutEtag { jitter: int },
    ResponseWithEtag { etag: Seq<char> },
    BackoffElapsed,
}

/// What the driver reports to the machine.
///
/// The two failures carry the jitter drawn for the backoff that may follow.
#[derive(Debug, PartialEq, Eq)]
pub enum Event {
    /// The upload is to begin.
    Start,
    /// The request could not be sent at all: the driver's HTTP stack
    /// refuses to build it.
    RequestRefused,
    /// The send failed in transport: the server was not reached, or its
    /// response was malformed.
    TransportFailed { jitter: Jitter },
    /// A response arrived, and its `ETag` header is absent or unreadable.
    ResponseWithoutEtag { jitter: Jitter },
    /// A response arrived with this `ETag` header.
    ResponseWithEtag { etag: String },
    /// The wait that the machine asked for is over.
    BackoffElapsed,
}

impl View for Event {
    type V = EventView;

    open spec fn view(&self) -> EventView {
        match *self {
            Event::Start => EventView::Start,
            Event::RequestRefused => EventView::RequestRefused,
            Event::TransportFailed { jitter } => EventView::TransportFailed { jitter: jitter@ },
            Event::ResponseWithoutEtag { jitter } => EventView::ResponseWithoutEtag {
                jitter: jitter@,
            },
            Event::ResponseWithEtag { etag } => EventView::ResponseWithEtag { etag: etag@ },
            Event::BackoffElapsed => EventView::BackoffElapsed,
        }
    }
}

/// The mathematical content of an [`Action`].
pub ghost enum ActionView {
    Send,
    Wait { millis: int },
    Report(OutcomeView),
    Nothing,
}

/// What the machine asks of the driver.
#[derive(Debug, PartialEq, Eq)]
pub enum Action {
    /// Send the request of the client and report what came back.
    Send,
    /// Wait for `millis` milliseconds, then report `BackoffElapsed`.
    Wait { millis: u32 },
    /// The upload is over: pass the outcome on.
    Report(UploadOutcome),
    /// The event does not concern the machine in its phase: do nothing.
    Nothing,
}

impl View for Action {
    type V = ActionView;

    open spec fn view(&self) -> ActionView {
        match *self {
            Action::Send => ActionView::Send,
            Action::Wait { millis } => ActionView::Wait { millis: millis as int },
            Action::Report(outcome) => ActionView::Report(outcome@),
            Action::Nothing => ActionView::Nothing,
        }
    }
}

/// The mathematical content of an [`UploadClient`].
pub ghost struct ClientView {
    pub phase: Phase,
    pub attempt: int,
    pub part_number: i32,
    pub last_error: Option<ErrorKind>,
    pub request: Option<RequestView>,
}

impl ClientView {
    /// The client of a part before anything happened: idle, with the part
    /// number that the URL carries and the request built from the part, if
    /// the URL lets one be built.
    pub open spec fn initial(url: Seq<char>, bytes: Seq<u8>) -> ClientView {
        ClientView {
            phase: Phase::Idle,
            attempt: 0,
            part_number: resolved_part_number(url),
            last_error: None,
            request: if url_parses(url) {
                Some(request_of(url, bytes, None, None))
            } else {
                None
            },
        }
    }

    /// What holds of a client in every phase.
    ///
    /// The counter stays within `MAX_RETRIES`. It is 0 before the first
    /// send and at least 1 during a backoff. A send has failed exactly when
    /// the counter has moved, and what is remembered of it is one of the
    /// two transient kinds. Without a request the client is idle or has
    /// failed, and nothing was ever sent.
    pub open spec fn wf(self) -> bool {
        &&& 0 <= self.attempt <= MAX_RETRIES
        &&& (self.phase == Phase::Idle ==> self.attempt == 0)
        &&& (self.phase == Phase::Retrying ==> self.attempt >= 1)
        &&& (self.attempt >= 1 <==> self.last_error is Some)
        &&& (self.last_error matches Some(kind) ==> kind.is_transient())
        &&& (self.request is None ==> self.attempt == 0 && (self.phase == Phase::Idle
            || self.phase == Phase::Failed))
    }

    /// The outcome of an upload whose request cannot be built or sent.
    pub open spec fn unbuildable(self) -> OutcomeView {
        OutcomeView::Failure {
            part_number: self.part_number,
            kind: ErrorKind::InvalidRequest,
            last_error: None,
        }
    }

    /// The outcome of an upload that ran out of retries on a send that
    /// failed with `kind`.
    pub open spec fn exhausted(self, kind: ErrorKind) -> OutcomeView {
        OutcomeView::Failure {
            part_number: self.part_number,
            kind: ErrorKind::RetriesExhausted,
            last_error: Some(kind),
        }
    }

    /// What follows a send that failed with `kind`: a wait and one more
    /// retry, or, once `MAX_RETRIES` retries were made, the end.
    pub open spec fn after_failure(self, kind: ErrorKind, jitter: int) -> (ClientView, ActionView) {
        if self.attempt >= MAX_RETRIES {
            (
                ClientView { phase: Phase::Failed, last_error: Some(kind), ..self },
                ActionView::Report(self.exhausted(kind)),
            )
        } else {
            (
                ClientView {
                    phase: Phase::Retrying,
                    attempt: self.attempt + 1,
                    last_error: Some(kind),
                    ..self
                },
                ActionView::Wait { millis: wait_millis(self.attempt + 1, jitter) },
            )
        }
    }

    /// The transition of the machine: the client after `event`, and what
    /// the driver is to do.
    pub open spec fn next(self, event: EventView) -> (ClientView, ActionView) {
        match (self.phase, event) {
            (Phase::Idle, EventView::Start) => if self.request is Some {
                (ClientView { phase: Phase::Sending, ..self }, ActionView::Send)
            } else {
                (
                    ClientView { phase: Phase::Failed, ..self },
                    ActionView::Report(self.unbuildable()),
                )
            },
            (Phase::Sending, EventView::RequestRefused) => (
                ClientView { phase: Phase::Failed, ..self },
                ActionView::Report(self.unbuildable()),
            ),
            (Phase::Sending, EventView::ResponseWithEtag { etag }) => (
                ClientView { phase: Phase::Succeeded, ..self },
                ActionView::Report(OutcomeView::Success { part_number: self.part_number, etag }),
            ),
            (Phase::Sending, EventView::TransportFailed { jitter }) => self.after_failure(
                ErrorKind::NetworkError,
                jitter,
            ),
            (Phase::Sending, EventView::ResponseWithoutEtag { jitter }) => self.after_failure(
                ErrorKind::MissingETag,
                jitter,
            ),
            (Phase::Retrying, EventView::BackoffElapsed) => (
                ClientView { phase: Phase::Sending, ..self },
                ActionView::Send,
            ),
            _ => (self, ActionView::Nothing),
        }
    }
}

/// What of a client changes from event to event.
#[derive(Clone, Copy, Debug)]
struct Progress {
    phase: Phase,
    retry: RetryState,
    last_error: Option<ErrorKind>,
}

/// The upload of one part.
#[derive(Debug)]
pub struct UploadClient {
    progress: Progress,
    request: Option<Request>,
}

impl View for UploadClient {
    type V = ClientView;

    closed spec fn view(&self) -> ClientView {
        ClientView {
            phase: self.progress.phase,
            attempt: self.progress.retry.attempt as int,
            part_number: self.progress.retry.part_number,
            last_error: self.progress.last_error,
            request: match self.request {
                Some(request) => Some(request@),
                None => None,
            },
        }
    }
}

impl UploadClient {
    #[verifier::type_invariant]
    spec fn inv(self) -> bool {
        self@.wf()
    }

    /// Takes a part over. The client is idle, and reports under the number
    /// of the part. The request is built once, here, and sent unchanged at
    /// every attempt.
    pub fn new(part: UploadPart) -> (client: UploadClient)
        ensures
            client@ == ClientView::initial(part@.url, part@.bytes),
            client@.part_number == part@.part_number,
            client@.wf(),
    {
        proof {
            use_type_invariant(&part);
        }
        let UploadPart { part_number, url, bytes } = part;
        let request = match build(url.as_str(), bytes, None, None) {
            Ok(request) => Some(request),
            Err(_) => None,
        };
        UploadClient {
            progress: Progress {
                phase: Phase::Idle,
                retry: RetryState { attempt: 0, part_number },
                last_error: None,
            },
            request,
        }
    }

    /// The phase of the upload.
    pub fn phase(&self) -> (phase: Phase)
        ensures
            phase == self@.phase,
            self@.wf(),
    {
        proof {
            use_type_invariant(self);
        }
        self.progress.phase
    }

    /// Whether the upload is over.
    pub fn is_terminal(&self) -> (over: bool)
        ensures
            over == self@.phase.is_terminal(),
            self@.wf(),
    {
        proof {
            use_type_invariant(self);
        }
        match self.progress.phase {
            Phase::Succeeded => true,
            Phase::Failed => true,
            _ => false,
        }
    }

    /// The retry counter and the part number.
    pub fn retry_state(&self) -> (retry: RetryState)
        ensures
            retry.attempt == self@.attempt,
            retry.part_number == self@.part_number,
            retry.attempt <= MAX_RETRIES,
            self@.wf(),
    {
        proof {
            use_type_invariant(self);
        }
        self.progress.retry
    }

    /// The failure of the last send that failed, if any did.
    pub fn last_error(&self) -> (kind: Option<ErrorKind>)
        ensures
            kind == self@.last_error,
            self@.wf(),
    {
        proof {
            use_type_invariant(self);
        }
        self.progress.last_error
    }

    /// The request to send, or `None` where the URL let none be built.
    pub fn request(&self) -> (request: Option<&Request>)
        ensures
            request is Some <==> self@.request is Some,
            request matches Some(r) ==> Some(r@) == self@.request,
            self@.wf(),
    {
        proof {
            use_type_invariant(self);
        }
        self.request.as_ref()
    }

    /// What follows a send that failed with `kind`.
    fn fail_send(&mut self, kind: ErrorKind, jitter: Jitter) -> (action: Action)
        requires
            old(self)@.phase == Phase::Sending,
            kind.is_transient(),
        ensures
            final(self)@ == old(self)@.after_failure(kind, jitter@).0,
            action@ == old(self)@.after_failure(kind, jitter@).1,
    {
        proof {
            use_type_invariant(&*self);
        }
        let retry = self.progress.retry;
        if retry.attempt >= MAX_RETRIES {
            self.progress = Progress { phase: Phase::Failed, retry, last_error: Some(kind) };
            Action::Report(
                UploadOutcome::Failure {
                    part_number: retry.part_number,
                    kind: ErrorKind::RetriesExhausted,
                    last_error: Some(kind),
                },
            )
        } else {
            let attempt: u8 = retry.attempt + 1;
            self.progress = Progress {
                phase: Phase::Retrying,
                retry: RetryState { attempt, part_number: retry.part_number },
                last_error: Some(kind),
            };
            Action::Wait { millis: wait_duration(attempt, jitter) }
        }
    }

    /// Takes one event and answers with what the driver is to do.
    ///
    /// - `Start`, when idle: `Send`; or, where no request could be built,
    ///   the upload fails at once with `InvalidRequest`.
    /// - `RequestRefused`, when sending: the upload fails at once with
    ///   `InvalidRequest`, and is not retried.
    /// - A response with an ETag, when sending: the upload succeeds.
    /// - A failed send, when sending: `Wait` for the backoff of the retry
    ///   that begins; or, after `MAX_RETRIES` retries, the upload fails
    ///   with `RetriesExhausted`.
    /// - `BackoffElapsed`, when retrying: `Send`, with the same request.
    /// - Anything else, and anything after the upload is over: `Nothing`,
    ///   and the client stays as it is.
    pub fn step(&mut self, event: Event) -> (action: Action)
        ensures
            final(self)@ == old(self)@.next(event@).0,
            action@ == old(self)@.next(event@).1,
            old(self)@.wf(),
            final(self)@.wf(),
    {
        proof {
            use_type_invariant(&*self);
        }
        let progress = self.progress;
        match (progress.phase, event) {
            (Phase::Idle, Event::Start) => {
                if self.request.is_some() {
                    self.progress = Progress { phase: Phase::Sending, ..progress };
                    Action::Send
                } else {
                    self.progress = Progress { phase: Phase::Failed, ..progress };
                    Action::Report(
                        UploadOutcome::Failure {
                            part_number: progress.retry.part_number,
                            kind: ErrorKind::InvalidRequest,
                            last_error: None,
                        },
                    )
                }
            },
            (Phase::Sending, Event::RequestRefused) => {
                self.progress = Progress { phase: Phase::Failed, ..progress };
                Action::Report(
                    UploadOutcome::Failure {
                        part_number: progress.retry.part_number,
                        kind: ErrorKind::InvalidRequest,
                        last_error: None,
                    },
                )
            },
            (Phase::Sending, Event::ResponseWithEtag { etag }) => {
                self.progress = Progress { phase: Phase::Succeeded, ..progress };
                Action::Report(
                    UploadOutcome::Success { part_number: progress.retry.part_number, etag },
                )
            },
            (Phase::Sending, Event::TransportFailed { jitter }) => {
                self.fail_send(ErrorKind::NetworkError, jitter)
            },
            (Phase::Sending, Event::ResponseWithoutEtag { jitter }) => {
                self.fail_send(ErrorKind::MissingETag, jitter)
            },
            (Phase::Retrying, Event::BackoffElapsed) => {
                self.progress = Progress { phase: Phase::Sending, ..progress };
                Action::Send
            },
            _ => Action::Nothing,
        }
    }
}

} // verus!
