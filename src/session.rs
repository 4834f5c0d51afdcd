use vstd::prelude::*;
use crate::progress::{Progress, progress_for, progress_spec};

verus! {

/// Where a download session stands. `Completed` and `Failed` are final.
#[derive(Clone, Copy, Debug, PartialEq, Eq, Structural)]
pub enum Stage {
    /// Nothing done yet.
    Idle,
    /// The request has been sent; waiting for the response headers.
    Requested,
    /// The response was successful; waiting for the destination file.
    Creating,
    /// The body is being read chunk by chunk.
    Streaming,
    Completed,
    Failed,
}

/// Stages in the only order in which a session may go through them.
pub open spec fn stage_rank(s: Stage) -> nat {
    match s {
        Stage::Idle => 0,
        Stage::Requested => 1,
        Stage::Creating => 2,
        Stage::Streaming => 3,
        Stage::Completed => 4,
        Stage::Failed => 4,
    }
}

pub open spec fn is_finished(s: Stage) -> bool {
    s == Stage::Completed || s == Stage::Failed
}

/// The mutable part of a session: its stage, the advertised size once the
/// response has been read, and how many bytes were stored.
#[derive(Clone, Copy, Debug, PartialEq, Eq)]
pub struct DownloadState {
    pub stage: Stage,
    pub total: Option<u64>,
    pub written: u64,
}

impl DownloadState {
    /// Bytes stored never exceed a known total, and nothing is stored before
    /// the body is read.
    pub open spec fn wf(self) -> bool {
        &&& (self.total matches Some(t) ==> self.written <= t)
        &&& (stage_rank(self.stage) <= 2 ==> self.written == 0)
        &&& (stage_rank(self.stage) <= 1 ==> self.total is None)
    }
}

pub open spec fn initial_state() -> DownloadState {
    DownloadState { stage: Stage::Idle, total: None, written: 0 }
}

/// What the caller observed since the last action.
#[derive(Clone, Debug, PartialEq, Eq)]
pub enum Event {
    /// The caller is ready to start; tells whether the destination file is
    /// already there.
    Begin { destination_exists: bool },
    /// The response headers arrived.
    Response { status: u16, content_length: Option<u64> },
    /// The destination file was created (or truncated).
    FileCreated,
    /// A chunk of `len` bytes of the body was received, not yet stored. An
    /// empty chunk stores nothing and is not reported.
    Chunk { len: u64 },
    /// The body has no more chunks.
    EndOfBody,
    /// The HTTP exchange failed, with the transport's message.
    TransportError(String),
    /// Creating or writing the destination failed, with the system's message.
    FilesystemError(String),
}

/// Why a session failed.
#[derive(Clone, Debug, PartialEq, Eq)]
pub enum Failure {
    /// The response status was not a success.
    Status(u16),
    Transport(String),
    Filesystem(String),
    /// The body went on past its advertised length.
    Overrun { advertised: u64 },
    /// The body ended before its advertised length.
    Truncated { advertised: u64, received: u64 },
    /// The body of unknown length outgrew a 64-bit byte count.
    TooLarge,
    /// An event came that the current stage does not expect.
    OutOfOrder,
}

/// What the caller must do next.
#[derive(Clone, Debug, PartialEq, Eq)]
pub enum Action {
    /// Send the request for the source URL.
    SendRequest,
    /// Create the destination file, truncating any earlier content.
    CreateFile,
    /// Read the next chunk of the body.
    ReadChunk,
    /// Append the chunk just received to the file, emit this notification,
    /// then read the next chunk.
    StoreChunk(Progress),
    /// Emit the completion notification: the download succeeded.
    Complete,
    /// The destination is already there: success, with nothing transferred.
    AlreadyPresent,
    /// Stop and report this failure.
    Fail(Failure),
    /// The session is over; there is nothing to do.
    Nothing,
}

/// An HTTP status in the success class (200 to 299).
pub open spec fn is_success_spec(status: u16) -> bool {
    200 <= status && status <= 299
}

pub open spec fn fail_with(s: DownloadState, f: Failure) -> (DownloadState, Action) {
    (DownloadState { stage: Stage::Failed, ..s }, Action::Fail(f))
}

/// The transition of a session on one event: the next state and the action
/// that the caller performs.
pub open spec fn next(s: DownloadState, e: Event) -> (DownloadState, Action) {
    if is_finished(s.stage) {
        (s, Action::Nothing)
    } else {
        match e {
            Event::Begin { destination_exists } => {
                if s.stage != Stage::Idle {
                    fail_with(s, Failure::OutOfOrder)
                } else if destination_exists {
                    (DownloadState { stage: Stage::Completed, ..s }, Action::AlreadyPresent)
                } else {
                    (DownloadState { stage: Stage::Requested, ..s }, Action::SendRequest)
                }
            },
            Event::Response { status, content_length } => {
                if s.stage != Stage::Requested {
                    fail_with(s, Failure::OutOfOrder)
                } else if !is_success_spec(status) {
                    fail_with(s, Failure::Status(status))
                } else {
                    (
                        DownloadState { stage: Stage::Creating, total: content_length, ..s },
                        Action::CreateFile,
                    )
                }
            },
            Event::FileCreated => {
                if s.stage != Stage::Creating {
                    fail_with(s, Failure::OutOfOrder)
                } else {
                    (DownloadState { stage: Stage::Streaming, ..s }, Action::ReadChunk)
                }
            },
            Event::Chunk { len } => {
                if s.stage != Stage::Streaming {
                    fail_with(s, Failure::OutOfOrder)
                } else if len == 0 {
                    (s, Action::ReadChunk)
                } else {
                    match s.total {
                        Some(t) => {
                            if s.written + len > t {
                                fail_with(s, Failure::Overrun { advertised: t })
                            } else {
                                let w = (s.written + len) as u64;
                                (
                                    DownloadState { written: w, ..s },
                                    Action::StoreChunk(progress_spec(w, s.total)),
                                )
                            }
                        },
                        None => {
                            if s.written + len > u64::MAX {
                                fail_with(s, Failure::TooLarge)
                            } else {
                                let w = (s.written + len) as u64;
                                (
                                    DownloadState { written: w, ..s },
                                    Action::StoreChunk(progress_spec(w, s.total)),
                                )
                            }
                        },
                    }
                }
            },
            Event::EndOfBody => {
                if s.stage != Stage::Streaming {
                    fail_with(s, Failure::OutOfOrder)
                } else {
                    match s.total {
                        Some(t) if s.written != t => fail_with(
                            s,
                            Failure::Truncated { advertised: t, received: s.written },
                        ),
                        _ => (DownloadState { stage: Stage::Completed, ..s }, Action::Complete),
                    }
                }
            },
            Event::TransportError(m) => fail_with(s, Failure::Transport(m)),
            Event::FilesystemError(m) => fail_with(s, Failure::Filesystem(m)),
        }
    }
}

/// The states and actions of a session that goes through `events` in order.
pub open spec fn run(s: DownloadState, events: Seq<Event>) -> (DownloadState, Seq<Action>)
    decreases events.len(),
{
    if events.len() == 0 {
        (s, Seq::empty())
    } else {
        let (mid, acts) = run(s, events.drop_last());
        let (end, a) = next(mid, events.last());
        (end, acts.push(a))
    }
}

/// Whether `status` is in the success class.
pub fn is_success_status(status: u16) -> (r: bool)
    ensures
        r == is_success_spec(status),
{
    200 <= status && status <= 299
}

/// One download: where it comes from, where it goes, and its state.
pub struct DownloadSession {
    url: String,
    destination: String,
    state: DownloadState,
}

impl DownloadSession {
    #[verifier::type_invariant]
    spec fn inv(&self) -> bool {
        self.state.wf()
    }

    pub closed spec fn url_spec(&self) -> Seq<char> {
        self.url@
    }

    pub closed spec fn destination_spec(&self) -> Seq<char> {
        self.destination@
    }

    pub closed spec fn state_spec(&self) -> DownloadState {
        self.state
    }

    /// A session that has done nothing yet.
    pub fn new(url: String, destination: String) -> (r: DownloadSession)
        ensures
            r.url_spec() == url@,
            r.destination_spec() == destination@,
            r.state_spec() == initial_state(),
    {
        DownloadSession {
            url,
            destination,
            state: DownloadState { stage: Stage::Idle, total: None, written: 0 },
        }
    }

    pub fn url(&self) -> (r: &str)
        ensures
            r@ == self.url_spec(),
    {
        self.url.as_str()
    }

    pub fn destination(&self) -> (r: &str)
        ensures
            r@ == self.destination_spec(),
    {
        self.destination.as_str()
    }

    pub fn state(&self) -> (r: DownloadState)
        ensures
            r == self.state_spec(),
            r.wf(),
    {
        proof {
            use_type_invariant(self);
        }
        self.state
    }

    pub fn stage(&self) -> (r: Stage)
        ensures
            r == self.state_spec().stage,
    {
        self.state.stage
    }

    pub fn written(&self) -> (r: u64)
        ensures
            r == self.state_spec().written,
    {
        self.state.written
    }

    pub fn total(&self) -> (r: Option<u64>)
        ensures
            r == self.state_spec().total,
    {
        self.state.total
    }

    fn fail(&mut self, f: Failure) -> (r: Action)
        ensures
            (final(self).state_spec(), r) == fail_with(old(self).state_spec(), f),
            final(self).url_spec() == old(self).url_spec(),
            final(self).destination_spec() == old(self).destination_spec(),
    {
        proof {
            use_type_invariant(&*self);
        }
        self.state.stage = Stage::Failed;
        Action::Fail(f)
    }

    /// Takes in what the caller observed and says what it must do next.
    pub fn step(&mut self, event: Event) -> (r: Action)
        ensures
            old(self).state_spec().wf(),
            (final(self).state_spec(), r) == next(old(self).state_spec(), event),
            final(self).state_spec().wf(),
            final(self).url_spec() == old(self).url_spec(),
            final(self).destination_spec() == old(self).destination_spec(),
    {
        proof {
            use_type_invariant(&*self);
        }
        match self.state.stage {
            Stage::Completed | Stage::Failed => return Action::Nothing,
            _ => {},
        }
        match event {
            Event::Begin { destination_exists } => {
                match self.state.stage {
                    Stage::Idle => {
                        if destination_exists {
                            self.state.stage = Stage::Completed;
                            Action::AlreadyPresent
                        } else {
                            self.state.stage = Stage::Requested;
                            Action::SendRequest
                        }
                    },
                    _ => self.fail(Failure::OutOfOrder),
                }
            },
            Event::Response { status, content_length } => {
                match self.state.stage {
                    Stage::Requested => {
                        if !is_success_status(status) {
                            self.fail(Failure::Status(status))
                        } else {
                            self.state.stage = Stage::Creating;
                            self.state.total = content_length;
                            Action::CreateFile
                        }
                    },
                    _ => self.fail(Failure::OutOfOrder),
                }
            },
            Event::FileCreated => {
                match self.state.stage {
                    Stage::Creating => {
                        self.state.stage = Stage::Streaming;
                        Action::ReadChunk
                    },
                    _ => self.fail(Failure::OutOfOrder),
                }
            },
            Event::Chunk { len } => {
                match self.state.stage {
                    Stage::Streaming => {
                        if len == 0 {
                            return Action::ReadChunk;
                        }
                        let written = self.state.written;
                        match self.state.total {
                            Some(t) => {
                                if len > t - written {
                                    return self.fail(Failure::Overrun { advertised: t });
                                }
                            },
                            None => {
                                if len > u64::MAX - written {
                                    return self.fail(Failure::TooLarge);
                                }
                            },
                        }
                        let w = written + len;
                        self.state.written = w;
                        Action::StoreChunk(progress_for(w, self.state.total))
                    },
                    _ => self.fail(Failure::OutOfOrder),
                }
            },
            Event::EndOfBody => {
                match self.state.stage {
                    Stage::Streaming => {
                        match self.state.total {
                            Some(t) => {
                                if self.state.written != t {
                                    let received = self.state.written;
                                    return self.fail(
                                        Failure::Truncated { advertised: t, received },
                                    );
                                }
                            },
                            None => {},
                        }
                        self.state.stage = Stage::Completed;
                        Action::Complete
                    },
                    _ => self.fail(Failure::OutOfOrder),
                }
            },
            Event::TransportError(m) => self.fail(Failure::Transport(m)),
            Event::FilesystemError(m) => self.fail(Failure::Filesystem(m)),
        }
    }
}

} // verus!
