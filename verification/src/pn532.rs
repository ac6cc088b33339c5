//! Protocol driver for the PN532 chip, written as an explicit state
//! machine over bus actions and events.
//!
//! The driver never touches the bus itself. Starting an operation and
//! every subsequent [`Pn532Reader::step`] return the next [`Action`]
//! (write these bytes, read exactly so many bytes, sleep); the embedding
//! program performs it against the real device and reports the outcome
//! as an [`Event`]. All protocol decisions are made, and verified, here.
//!
//! Time is modeled by the milliseconds of the sleep actions the driver
//! itself issues: every status-poll delay and every inter-attempt
//! backoff advances the driver's clock by its duration, which is how
//! the acknowledgement, response, and overall tag-polling deadlines are
//! enforced.

use vstd::prelude::*;
use vstd::pervasive::unreached;

use crate::codec::{
    ack_frame, body_data, body_violation, check_response_body, check_response_header,
    command_frame, encode_command, header_violation, is_ack,
};
use crate::reader::{ProtocolFault, ReaderError, ReaderType};

verus! {

/// Command code of the "configure security access module" command.
pub const SAM_CONFIG_COMMAND: u8 = 0x14;

/// Command code of the "list passive target" command.
pub const LIST_TARGET_COMMAND: u8 = 0x4A;

/// Settle delay after the wake-up byte, in milliseconds.
pub const WAKE_SETTLE_MS: u64 = 20;

/// Delay between two polls of the status register, in milliseconds.
pub const POLL_INTERVAL_MS: u64 = 5;

/// Backoff between two tag-polling attempts, in milliseconds.
pub const BACKOFF_MS: u64 = 100;

/// Fixed deadline for acknowledgement waits and configuration
/// responses, in milliseconds.
pub const EXCHANGE_TIMEOUT_MS: u64 = 2000;

/// Per-attempt deadline for a tag-listing response, in milliseconds.
pub const LIST_RESPONSE_TIMEOUT_MS: u64 = 500;

/// The parameter bytes of the security-access-module configuration
/// command: normal mode, standard timeout, use the IRQ pin.
pub open spec fn sam_config_payload() -> Seq<u8> {
    seq![0x01u8, 0x14u8, 0x01u8]
}

/// The parameter bytes of the tag-listing command: at most one target,
/// 106 kbit type A modulation.
pub open spec fn list_target_payload() -> Seq<u8> {
    seq![0x01u8, 0x00u8]
}

/// What the driver is waiting for on the bus.
#[derive(Debug, Clone, Copy, PartialEq, Eq)]
pub enum Phase {
    /// No operation in flight.
    Idle,
    /// The wake-up byte is being written.
    WakeWrite,
    /// The post-wake-up settle delay is running.
    WakeSettle,
    /// A command frame is being written.
    CommandWrite,
    /// A one-byte status read is pending during the acknowledgement wait.
    AckStatus,
    /// A poll delay is running during the acknowledgement wait.
    AckDelay,
    /// The six acknowledgement bytes are being read.
    AckBody,
    /// A one-byte status read is pending during the response wait.
    RespStatus,
    /// A poll delay is running during the response wait.
    RespDelay,
    /// The five response header bytes are being read.
    RespHeader,
    /// The response body is being read.
    RespBody,
    /// The inter-attempt backoff delay is running.
    Backoff,
}

/// The next bus interaction the embedding program must perform, or the
/// outcome of the operation.
#[derive(Debug, PartialEq, Eq)]
pub enum Action {
    /// Write these bytes to the bus.
    Write(Vec<u8>),
    /// Read exactly this many bytes from the bus.
    Read(usize),
    /// Sleep this many milliseconds.
    Sleep(u64),
    /// Initialization completed.
    InitDone,
    /// A tag was found; these are its UID bytes.
    UidFound(Vec<u8>),
    /// The operation failed.
    Fail(ReaderError),
}

/// What happened when the embedding program performed the last action.
#[derive(Debug, PartialEq, Eq)]
pub enum Event {
    /// The write or sleep finished.
    Completed,
    /// The read returned exactly the requested bytes.
    Bytes(Vec<u8>),
    /// The transport failed, with its error message.
    Failed(String),
}

/// An action that ends the operation in flight.
pub open spec fn terminal(a: Action) -> bool {
    a is InitDone || a is UidFound || a is Fail
}

/// Saturating addition of modeled milliseconds.
pub open spec fn add_sat(a: u64, b: u64) -> u64 {
    if a + b > u64::MAX {
        u64::MAX
    } else {
        (a + b) as u64
    }
}

fn add_ms(a: u64, b: u64) -> (r: u64)
    ensures
        r == add_sat(a, b),
{
    if a > u64::MAX - b {
        u64::MAX
    } else {
        a + b
    }
}

/// The response-wait deadline of an exchange: tag-listing answers are
/// bounded per attempt, everything else by the fixed exchange deadline.
pub open spec fn response_limit(exchange: u8) -> u64 {
    if exchange == LIST_TARGET_COMMAND {
        LIST_RESPONSE_TIMEOUT_MS
    } else {
        EXCHANGE_TIMEOUT_MS
    }
}

/// The PN532 protocol driver.
///
/// One logical operation (initialization, or one tag read) is in flight
/// at a time; the embedding program owns the bus handle exclusively and
/// serializes all access through this machine, so at most one bus
/// transaction is ever outstanding.
pub struct Pn532Reader {
    /// Whether the wake-up and configuration sequence has completed.
    /// Never reverts automatically.
    pub initialized: bool,
    /// What the driver is waiting for.
    pub phase: Phase,
    /// The command code of the exchange in flight.
    pub exchange: u8,
    /// Whether a completed configuration exchange continues into tag
    /// polling (set when a tag read had to initialize first).
    pub resume_poll: bool,
    /// The length byte of the response currently being read.
    pub body_len: u8,
    /// Modeled milliseconds spent in the current acknowledgement or
    /// response wait.
    pub wait_ms: u64,
    /// Deadline of the current acknowledgement or response wait.
    pub wait_limit_ms: u64,
    /// Modeled milliseconds spent in the current tag-polling operation.
    pub total_ms: u64,
    /// The caller's overall deadline for the current tag-polling
    /// operation.
    pub timeout_ms: u64,
}

impl Pn532Reader {
    /// Well-formedness: the deadline bookkeeping is consistent, a
    /// pending body read is long enough to validate, and a tag read
    /// that is still initializing has not consumed polling time yet.
    pub open spec fn wf(self) -> bool {
        &&& self.wait_limit_ms <= EXCHANGE_TIMEOUT_MS
        &&& self.wait_ms <= self.wait_limit_ms
        &&& (self.phase is RespBody ==> self.body_len >= 2)
        &&& (self.resume_poll && !self.initialized ==> self.total_ms == 0)
        &&& (self.phase is WakeWrite || self.phase is WakeSettle ==> !self.initialized)
        &&& (self.in_exchange() ==> self.exchange == SAM_CONFIG_COMMAND || self.exchange
            == LIST_TARGET_COMMAND)
        &&& (self.in_exchange() && self.exchange == SAM_CONFIG_COMMAND ==> !self.initialized)
        &&& (self.in_exchange() && self.exchange == LIST_TARGET_COMMAND ==> self.initialized)
        &&& (self.phase is Backoff ==> self.exchange == LIST_TARGET_COMMAND && self.initialized)
    }

    /// Whether a command/acknowledgement/response exchange is in flight.
    pub open spec fn in_exchange(self) -> bool {
        self.phase is CommandWrite || self.phase is AckStatus || self.phase is AckDelay
            || self.phase is AckBody || self.phase is RespStatus || self.phase is RespDelay
            || self.phase is RespHeader || self.phase is RespBody
    }

    /// The number of bytes the pending read must return.
    pub open spec fn read_size(self) -> int {
        match self.phase {
            Phase::AckStatus => 1,
            Phase::RespStatus => 1,
            Phase::AckBody => 6,
            Phase::RespHeader => 5,
            Phase::RespBody => self.body_len + 2,
            _ => 0,
        }
    }

    /// Whether a read is pending.
    pub open spec fn awaits_bytes(self) -> bool {
        self.phase is AckStatus || self.phase is RespStatus || self.phase is AckBody
            || self.phase is RespHeader || self.phase is RespBody
    }

    /// Whether a write or sleep is pending.
    pub open spec fn awaits_completion(self) -> bool {
        self.phase is WakeWrite || self.phase is WakeSettle || self.phase is CommandWrite
            || self.phase is AckDelay || self.phase is RespDelay || self.phase is Backoff
    }

    /// Whether `event` answers the pending action: a completion for a
    /// write or sleep, exactly the requested bytes for a read, or a
    /// transport failure at any point.
    pub open spec fn accepts(self, event: Event) -> bool {
        match event {
            Event::Completed => self.awaits_completion(),
            Event::Bytes(v) => self.awaits_bytes() && v@.len() == self.read_size(),
            Event::Failed(_) => !(self.phase is Idle),
        }
    }

    /// The polling time still allowed by the caller's deadline.
    pub open spec fn outer_budget(self) -> int {
        if self.total_ms >= self.timeout_ms {
            0
        } else {
            self.timeout_ms - self.total_ms
        }
    }

    /// Whether a completed configuration exchange still has tag polling
    /// ahead of it.
    pub open spec fn init_pending(self) -> bool {
        self.resume_poll && !self.initialized
    }

    /// How far the current exchange has progressed; later stages are
    /// smaller.
    pub open spec fn phase_stage(self) -> int {
        match self.phase {
            Phase::Idle => 0,
            Phase::WakeWrite => 5,
            Phase::WakeSettle => 5,
            Phase::CommandWrite => 4,
            Phase::AckStatus => 3,
            Phase::AckDelay => 3,
            Phase::AckBody => 3,
            Phase::RespStatus => 2,
            Phase::RespDelay => 2,
            Phase::RespHeader => 2,
            Phase::RespBody => 2,
            Phase::Backoff => 1,
        }
    }

    /// Order of the phases within one wait; later steps are smaller.
    pub open spec fn phase_rank(self) -> int {
        match self.phase {
            Phase::WakeWrite => 1,
            Phase::AckStatus => 2,
            Phase::AckDelay => 1,
            Phase::RespStatus => 3,
            Phase::RespDelay => 2,
            Phase::RespHeader => 1,
            _ => 0,
        }
    }

    /// A nonnegative measure that every non-terminal step strictly
    /// decreases: no operation runs indefinitely.
    pub open spec fn progress_measure(self) -> int {
        self.outer_budget() * 10_000_000 + (
        if self.init_pending() {
            1int
        } else {
            0int
        }) * 1_000_000 + self.phase_stage() * 100_000 + (self.wait_limit_ms - self.wait_ms) * 10
            + self.phase_rank()
    }

    /// A fresh driver over a newly opened bus channel: uninitialized,
    /// nothing in flight.
    pub fn new() -> (r: Self)
        ensures
            r.phase is Idle,
            !r.initialized,
            !r.resume_poll,
            r.total_ms == 0,
            r.wf(),
    {
        Pn532Reader {
            initialized: false,
            phase: Phase::Idle,
            exchange: 0,
            resume_poll: false,
            body_len: 0,
            wait_ms: 0,
            wait_limit_ms: 0,
            total_ms: 0,
            timeout_ms: 0,
        }
    }

    /// True once the wake-up and configuration sequence has completed.
    pub fn is_initialized(&self) -> (r: bool)
        ensures
            r == self.initialized,
    {
        self.initialized
    }

    /// Modeled milliseconds the current or last tag-polling operation
    /// has spent in poll delays and backoffs.
    pub fn elapsed_ms(&self) -> (r: u64)
        ensures
            r == self.total_ms,
    {
        self.total_ms
    }

    /// Reports this driver's card technology.
    pub fn get_reader_type(&self) -> (t: ReaderType)
        ensures
            t == ReaderType::NFC,
    {
        ReaderType::NFC
    }

    /// Begins the initialization sequence. Idempotent: once the driver
    /// is initialized this is a no-op that succeeds immediately and
    /// issues no bus action at all; otherwise the first action is the
    /// wake-up write.
    pub fn start_init(&mut self) -> (r: Action)
        requires
            old(self).phase is Idle,
            old(self).wf(),
        ensures
            final(self).wf(),
            final(self).initialized == old(self).initialized,
            old(self).initialized ==> r == Action::InitDone && *final(self) == *old(self),
            !old(self).initialized ==> {
                &&& r matches Action::Write(w) && w@ == seq![0x00u8]
                &&& final(self).phase is WakeWrite
                &&& !final(self).resume_poll
            },
            terminal(r) <==> final(self).phase is Idle,
    {
        if self.initialized {
            return Action::InitDone;
        }
        self.phase = Phase::WakeWrite;
        self.resume_poll = false;
        let mut wake: Vec<u8> = Vec::new();
        wake.push(0x00);
        proof {
            assert(wake@ =~= seq![0x00u8]);
        }
        Action::Write(wake)
    }

    /// Begins a tag read bounded by `timeout_ms` modeled milliseconds.
    /// Initializes first when needed; an already-initialized driver goes
    /// straight to the first tag-listing attempt, or times out at once
    /// when no polling time was granted.
    pub fn start_read_uid(&mut self, timeout_ms: u64) -> (r: Action)
        requires
            old(self).phase is Idle,
            old(self).wf(),
        ensures
            final(self).wf(),
            final(self).initialized == old(self).initialized,
            final(self).timeout_ms == timeout_ms,
            final(self).total_ms == 0,
            !old(self).initialized ==> {
                &&& r matches Action::Write(w) && w@ == seq![0x00u8]
                &&& final(self).phase is WakeWrite
                &&& final(self).resume_poll
            },
            old(self).initialized && timeout_ms == 0 ==> r == Action::Fail(ReaderError::Timeout)
                && final(self).phase is Idle,
            old(self).initialized && timeout_ms > 0 ==> {
                &&& r matches Action::Write(w) && w@ == command_frame(
                    LIST_TARGET_COMMAND,
                    list_target_payload(),
                )
                &&& final(self).phase is CommandWrite
                &&& final(self).exchange == LIST_TARGET_COMMAND
            },
            terminal(r) <==> final(self).phase is Idle,
    {
        self.timeout_ms = timeout_ms;
        self.total_ms = 0;
        if !self.initialized {
            self.phase = Phase::WakeWrite;
            self.resume_poll = true;
            let mut wake: Vec<u8> = Vec::new();
            wake.push(0x00);
            proof {
                assert(wake@ =~= seq![0x00u8]);
            }
            return Action::Write(wake);
        }
        if timeout_ms == 0 {
            return Action::Fail(ReaderError::Timeout);
        }
        self.phase = Phase::CommandWrite;
        self.exchange = LIST_TARGET_COMMAND;
        Action::Write(list_command())
    }

    /// Feeds the outcome of the last action back into the driver and
    /// returns the next action. [`step_outcome`] pins every transition:
    /// the exchange sequencing, the deadline accounting (a timeout is
    /// reported exactly when a deadline has elapsed, never earlier), the
    /// validation of acknowledgement and response bytes, and the
    /// interpretation of tag-listing data.
    pub fn step(&mut self, event: Event) -> (r: Action)
        requires
            !(old(self).phase is Idle),
            old(self).wf(),
            old(self).accepts(event),
        ensures
            final(self).wf(),
            terminal(r) <==> final(self).phase is Idle,
            !terminal(r) ==> final(self).progress_measure() < old(self).progress_measure(),
            old(self).initialized ==> final(self).initialized,
            final(self).resume_poll == old(self).resume_poll,
            final(self).timeout_ms == old(self).timeout_ms,
            step_outcome(*old(self), event, *final(self), r),
    {
        match event {
            Event::Failed(msg) => {
                self.phase = Phase::Idle;
                Action::Fail(ReaderError::Device(msg))
            },
            Event::Completed => {
                match self.phase {
                    Phase::WakeWrite => {
                        self.phase = Phase::WakeSettle;
                        Action::Sleep(WAKE_SETTLE_MS)
                    },
                    Phase::WakeSettle => {
                        self.phase = Phase::CommandWrite;
                        self.exchange = SAM_CONFIG_COMMAND;
                        Action::Write(sam_command())
                    },
                    Phase::CommandWrite => {
                        self.phase = Phase::AckStatus;
                        self.wait_ms = 0;
                        self.wait_limit_ms = EXCHANGE_TIMEOUT_MS;
                        Action::Read(1)
                    },
                    Phase::AckDelay => {
                        if self.exchange == LIST_TARGET_COMMAND {
                            self.total_ms = add_ms(self.total_ms, POLL_INTERVAL_MS);
                        }
                        let waited = self.wait_ms + POLL_INTERVAL_MS;
                        if waited >= self.wait_limit_ms {
                            self.phase = Phase::Idle;
                            Action::Fail(ReaderError::Timeout)
                        } else {
                            self.wait_ms = waited;
                            self.phase = Phase::AckStatus;
                            Action::Read(1)
                        }
                    },
                    Phase::RespDelay => {
                        if self.exchange == LIST_TARGET_COMMAND {
                            self.total_ms = add_ms(self.total_ms, POLL_INTERVAL_MS);
                        }
                        let waited = self.wait_ms + POLL_INTERVAL_MS;
                        if waited >= self.wait_limit_ms {
                            self.phase = Phase::Idle;
                            Action::Fail(ReaderError::Timeout)
                        } else {
                            self.wait_ms = waited;
                            self.phase = Phase::RespStatus;
                            Action::Read(1)
                        }
                    },
                    Phase::Backoff => {
                        self.total_ms = add_ms(self.total_ms, BACKOFF_MS);
                        if self.total_ms >= self.timeout_ms {
                            self.phase = Phase::Idle;
                            Action::Fail(ReaderError::Timeout)
                        } else {
                            self.phase = Phase::CommandWrite;
                            self.exchange = LIST_TARGET_COMMAND;
                            Action::Write(list_command())
                        }
                    },
                    _ => unreached(),
                }
            },
            Event::Bytes(bytes) => {
                match self.phase {
                    Phase::AckStatus => {
                        if bytes[0] == 0x01 {
                            self.phase = Phase::AckBody;
                            Action::Read(6)
                        } else {
                            self.phase = Phase::AckDelay;
                            Action::Sleep(POLL_INTERVAL_MS)
                        }
                    },
                    Phase::AckBody => {
                        if is_ack(&bytes) {
                            self.phase = Phase::RespStatus;
                            self.wait_ms = 0;
                            self.wait_limit_ms = if self.exchange == LIST_TARGET_COMMAND {
                                LIST_RESPONSE_TIMEOUT_MS
                            } else {
                                EXCHANGE_TIMEOUT_MS
                            };
                            Action::Read(1)
                        } else {
                            self.phase = Phase::Idle;
                            Action::Fail(ReaderError::Protocol(ProtocolFault::Ack))
                        }
                    },
                    Phase::RespStatus => {
                        if bytes[0] == 0x01 {
                            self.phase = Phase::RespHeader;
                            Action::Read(5)
                        } else {
                            self.phase = Phase::RespDelay;
                            Action::Sleep(POLL_INTERVAL_MS)
                        }
                    },
                    Phase::RespHeader => {
                        match check_response_header(&bytes) {
                            Ok(len) => {
                                self.phase = Phase::RespBody;
                                self.body_len = len;
                                Action::Read(len as usize + 2)
                            },
                            Err(e) => {
                                self.phase = Phase::Idle;
                                Action::Fail(e)
                            },
                        }
                    },
                    Phase::RespBody => {
                        match check_response_body(&bytes, self.exchange) {
                            Err(e) => {
                                self.phase = Phase::Idle;
                                Action::Fail(e)
                            },
                            Ok(data) => {
                                if self.exchange == SAM_CONFIG_COMMAND {
                                    self.initialized = true;
                                    if !self.resume_poll {
                                        self.phase = Phase::Idle;
                                        Action::InitDone
                                    } else if self.timeout_ms == 0 {
                                        self.phase = Phase::Idle;
                                        Action::Fail(ReaderError::Timeout)
                                    } else {
                                        self.total_ms = 0;
                                        self.phase = Phase::CommandWrite;
                                        self.exchange = LIST_TARGET_COMMAND;
                                        Action::Write(list_command())
                                    }
                                } else {
                                    match interpret_list_response(&data) {
                                        Ok(None) => {
                                            self.phase = Phase::Backoff;
                                            Action::Sleep(BACKOFF_MS)
                                        },
                                        Ok(Some(uid)) => {
                                            self.phase = Phase::Idle;
                                            Action::UidFound(uid)
                                        },
                                        Err(e) => {
                                            self.phase = Phase::Idle;
                                            Action::Fail(e)
                                        },
                                    }
                                }
                            },
                        }
                    },
                    _ => unreached(),
                }
            },
        }
    }
}

/// What completing an acknowledgement or response poll delay does: the
/// wait clock advances by the poll interval (and counts toward the
/// caller's deadline during tag polling); when the wait deadline has
/// elapsed the exchange fails with a timeout, never earlier, otherwise
/// the status register is polled again.
pub open spec fn delay_outcome(pre: Pn532Reader, post: Pn532Reader, r: Action, ack: bool) -> bool {
    let waited = pre.wait_ms + POLL_INTERVAL_MS;
    &&& post.initialized == pre.initialized
    &&& post.exchange == pre.exchange
    &&& post.total_ms == if pre.exchange == LIST_TARGET_COMMAND {
        add_sat(pre.total_ms, POLL_INTERVAL_MS)
    } else {
        pre.total_ms
    }
    &&& waited >= pre.wait_limit_ms ==> r == Action::Fail(ReaderError::Timeout)
        && post.phase is Idle
    &&& waited < pre.wait_limit_ms ==> {
        &&& r == Action::Read(1)
        &&& post.wait_ms == waited
        &&& if ack {
            post.phase is AckStatus
        } else {
            post.phase is RespStatus
        }
    }
}

/// What a complete response body does to the driver. An invalid body
/// fails with the violated invariant. A valid configuration response
/// marks the driver initialized and either finishes the initialization
/// or, when a tag read is waiting, starts the first tag-listing attempt
/// with a fresh polling clock. A valid tag-listing response is
/// interpreted per [`interpret_list_response`]: no tag backs off for the
/// next attempt, a tag ends the read with its UID.
pub open spec fn resp_body_outcome(
    pre: Pn532Reader,
    body: Seq<u8>,
    post: Pn532Reader,
    r: Action,
) -> bool {
    match body_violation(body, pre.exchange) {
        Some(f) => {
            &&& r == Action::Fail(ReaderError::Protocol(f))
            &&& post.phase is Idle
            &&& post.initialized == pre.initialized
        },
        None => {
            let data = body_data(body);
            if pre.exchange == SAM_CONFIG_COMMAND {
                &&& post.initialized
                &&& if !pre.resume_poll {
                    r == Action::InitDone && post.phase is Idle
                } else if pre.timeout_ms == 0 {
                    r == Action::Fail(ReaderError::Timeout) && post.phase is Idle
                } else {
                    &&& r matches Action::Write(w) && w@ == command_frame(
                        LIST_TARGET_COMMAND,
                        list_target_payload(),
                    )
                    &&& post.phase is CommandWrite
                    &&& post.exchange == LIST_TARGET_COMMAND
                    &&& post.total_ms == 0
                }
            } else {
                &&& post.initialized == pre.initialized
                &&& if list_no_tag(data) {
                    r == Action::Sleep(BACKOFF_MS) && post.phase is Backoff
                        && post.total_ms == pre.total_ms
                } else if data.len() < 6 {
                    r == Action::Fail(ReaderError::Protocol(ProtocolFault::TargetIncomplete))
                        && post.phase is Idle
                } else if 6 + data[5] > data.len() {
                    r == Action::Fail(ReaderError::Protocol(ProtocolFault::UidLength(data[5])))
                        && post.phase is Idle
                } else {
                    &&& r matches Action::UidFound(uid) && uid@ == list_uid(data)
                    &&& post.phase is Idle
                }
            }
        },
    }
}

/// What backoff completion does: the polling clock advances by the
/// backoff; when the caller's deadline has elapsed the read fails with
/// a timeout, never earlier, otherwise the next tag-listing attempt
/// begins.
pub open spec fn backoff_outcome(pre: Pn532Reader, post: Pn532Reader, r: Action) -> bool {
    &&& post.total_ms == add_sat(pre.total_ms, BACKOFF_MS)
    &&& post.initialized == pre.initialized
    &&& if post.total_ms >= pre.timeout_ms {
        r == Action::Fail(ReaderError::Timeout) && post.phase is Idle
    } else {
        &&& r matches Action::Write(w) && w@ == command_frame(
            LIST_TARGET_COMMAND,
            list_target_payload(),
        )
        &&& post.phase is CommandWrite
        &&& post.exchange == LIST_TARGET_COMMAND
    }
}

/// The full transition relation of [`Pn532Reader::step`]: given the
/// driver before the call, the event handed in, the driver after the
/// call, and the returned action, this says exactly which transition
/// was taken. Phases the event cannot answer are ruled out by
/// [`Pn532Reader::accepts`].
pub open spec fn step_outcome(pre: Pn532Reader, event: Event, post: Pn532Reader, r: Action) -> bool {
    match event {
        Event::Failed(msg) => {
            &&& r == Action::Fail(ReaderError::Device(msg))
            &&& post.phase is Idle
            &&& post.initialized == pre.initialized
        },
        Event::Completed => match pre.phase {
            Phase::WakeWrite => {
                &&& r == Action::Sleep(WAKE_SETTLE_MS)
                &&& post.phase is WakeSettle
                &&& post.initialized == pre.initialized
            },
            Phase::WakeSettle => {
                &&& r matches Action::Write(w) && w@ == command_frame(
                    SAM_CONFIG_COMMAND,
                    sam_config_payload(),
                )
                &&& post.phase is CommandWrite
                &&& post.exchange == SAM_CONFIG_COMMAND
                &&& post.initialized == pre.initialized
            },
            Phase::CommandWrite => {
                &&& r == Action::Read(1)
                &&& post.phase is AckStatus
                &&& post.wait_ms == 0
                &&& post.wait_limit_ms == EXCHANGE_TIMEOUT_MS
                &&& post.exchange == pre.exchange
                &&& post.initialized == pre.initialized
            },
            Phase::AckDelay => delay_outcome(pre, post, r, true),
            Phase::RespDelay => delay_outcome(pre, post, r, false),
            Phase::Backoff => backoff_outcome(pre, post, r),
            _ => true,
        },
        Event::Bytes(v) => match pre.phase {
            Phase::AckStatus => {
                &&& post.initialized == pre.initialized
                &&& post.exchange == pre.exchange
                &&& post.wait_ms == pre.wait_ms
                &&& post.wait_limit_ms == pre.wait_limit_ms
                &&& (v@[0] == 0x01 ==> r == Action::Read(6) && post.phase is AckBody)
                &&& (v@[0] != 0x01 ==> r == Action::Sleep(POLL_INTERVAL_MS)
                    && post.phase is AckDelay)
            },
            Phase::AckBody => {
                &&& post.initialized == pre.initialized
                &&& (v@ == ack_frame() ==> r == Action::Read(1) && post.phase is RespStatus
                    && post.wait_ms == 0 && post.wait_limit_ms == response_limit(pre.exchange)
                    && post.exchange == pre.exchange)
                &&& (v@ != ack_frame() ==> r == Action::Fail(
                    ReaderError::Protocol(ProtocolFault::Ack),
                ) && post.phase is Idle)
            },
            Phase::RespStatus => {
                &&& post.initialized == pre.initialized
                &&& post.exchange == pre.exchange
                &&& post.wait_ms == pre.wait_ms
                &&& post.wait_limit_ms == pre.wait_limit_ms
                &&& (v@[0] == 0x01 ==> r == Action::Read(5) && post.phase is RespHeader)
                &&& (v@[0] != 0x01 ==> r == Action::Sleep(POLL_INTERVAL_MS)
                    && post.phase is RespDelay)
            },
            Phase::RespHeader => match header_violation(v@) {
                Some(f) => {
                    &&& r == Action::Fail(ReaderError::Protocol(f))
                    &&& post.phase is Idle
                    &&& post.initialized == pre.initialized
                },
                None => {
                    &&& r == Action::Read((v@[3] + 2) as usize)
                    &&& post.phase is RespBody
                    &&& post.body_len == v@[3]
                    &&& post.exchange == pre.exchange
                    &&& post.initialized == pre.initialized
                },
            },
            Phase::RespBody => resp_body_outcome(pre, v@, post, r),
            _ => true,
        },
    }
}

fn sam_command() -> (w: Vec<u8>)
    ensures
        w@ == command_frame(SAM_CONFIG_COMMAND, sam_config_payload()),
{
    let mut p: Vec<u8> = Vec::new();
    p.push(0x01);
    p.push(0x14);
    p.push(0x01);
    proof {
        assert(p@ =~= sam_config_payload());
    }
    encode_command(SAM_CONFIG_COMMAND, &p)
}

fn list_command() -> (w: Vec<u8>)
    ensures
        w@ == command_frame(LIST_TARGET_COMMAND, list_target_payload()),
{
    let mut p: Vec<u8> = Vec::new();
    p.push(0x01);
    p.push(0x00);
    proof {
        assert(p@ =~= list_target_payload());
    }
    encode_command(LIST_TARGET_COMMAND, &p)
}

/// A tag-listing response reports no tag this attempt: either it is
/// empty or its tag count byte is zero.
pub open spec fn list_no_tag(data: Seq<u8>) -> bool {
    data.len() == 0 || data[0] == 0
}

/// The UID bytes a tag-listing response carries: the slice of the
/// declared length starting right after the per-tag header.
pub open spec fn list_uid(data: Seq<u8>) -> Seq<u8>
    recommends
        data.len() >= 6 && 6 + data[5] <= data.len(),
{
    data.subrange(6, 6 + data[5] as int)
}

/// Interprets the data of a "list passive target" response: `None` when
/// no tag is present this attempt, the UID when one is, and a protocol
/// fault when the response is too short for the tag it reports or
/// declares a UID length exceeding the bytes available. A returned UID's
/// length always equals the declared length byte.
pub fn interpret_list_response(data: &Vec<u8>) -> (r: Result<Option<Vec<u8>>, ReaderError>)
    ensures
        list_no_tag(data@) <==> r == Result::<Option<Vec<u8>>, ReaderError>::Ok(None),
        !list_no_tag(data@) && data@.len() < 6 ==> r == Result::<Option<Vec<u8>>, ReaderError>::Err(
            ReaderError::Protocol(ProtocolFault::TargetIncomplete),
        ),
        !list_no_tag(data@) && data@.len() >= 6 && 6 + data@[5] > data@.len() ==> r
            == Result::<Option<Vec<u8>>, ReaderError>::Err(
            ReaderError::Protocol(ProtocolFault::UidLength(data@[5])),
        ),
        !list_no_tag(data@) && data@.len() >= 6 && 6 + data@[5] <= data@.len() ==> {
            &&& r matches Ok(Some(uid))
            &&& uid@ == list_uid(data@)
            &&& uid@.len() == data@[5]
        },
{
    if data.len() == 0 {
        return Ok(None);
    }
    if data[0] == 0 {
        return Ok(None);
    }
    if data.len() < 6 {
        return Err(ReaderError::Protocol(ProtocolFault::TargetIncomplete));
    }
    let uid_length = data[5] as usize;
    if data.len() < 6 + uid_length {
        return Err(ReaderError::Protocol(ProtocolFault::UidLength(data[5])));
    }
    let mut uid: Vec<u8> = Vec::new();
    let mut i: usize = 6;
    while i < 6 + uid_length
        invariant
            data@.len() >= 6,
            uid_length == data@[5],
            6 + uid_length <= data@.len(),
            6 <= i <= 6 + uid_length,
            uid@ == data@.subrange(6, i as int),
        decreases 6 + uid_length - i,
    {
        uid.push(data[i]);
        proof {
            assert(uid@ =~= data@.subrange(6, i + 1));
        }
        i = i + 1;
    }
    proof {
        assert(uid@ =~= list_uid(data@));
    }
    Ok(Some(uid))
}

/// The progress measure of a well-formed driver is nonnegative, so
/// together with the strict decrease in [`Pn532Reader::step`] no
/// operation can run indefinitely: a run makes at most as many steps as
/// the starting measure.
pub proof fn lemma_measure_nonnegative(m: Pn532Reader)
    requires
        m.wf(),
    ensures
        m.progress_measure() >= 0,
{
}

} // verus!
