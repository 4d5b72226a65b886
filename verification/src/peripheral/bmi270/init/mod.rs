//! Bringing the device up: probe its identity, upload its configuration, and
//! wait until it reports what came of that.
//!
//! The sequencer decides; the owner of the bus acts. Each call of
//! [`InitSequencer::step`] takes the answer to the request that is
//! outstanding and hands out the next request, or the result.

use super::bus::{Request, RequestView, Response, ResponseView};
use super::frame::{
    burst_write_request, burst_write_request_spec, lemma_read_len_of_burst,
    lemma_read_len_of_read, read_request, read_request_spec, set_init_addr_request,
    set_init_addr_request_spec, write_request, write_request_spec,
};
use super::regs::{
    ChipId, InitAddr0, InitCtrl, InitData, InternalStatus, InternalStatusMessage, PwrConf,
};
use crate::peripheral::Register;
use vstd::prelude::*;

pub mod run;

verus! {

/// The identity that the device family reports.
pub const CHIP_ID: u8 = 0x24;

/// Length of the configuration that is uploaded.
pub const CONFIG_LEN: usize = 328;

/// How often the status is read in one attempt before the attempt is given
/// up.
pub const MAX_STATUS_POLLS: u32 = 10_000;

/// Pause after the first identity read, in milliseconds.
pub const PROBE_DELAY_MS: u32 = 10;

/// Pause after a register write, in milliseconds.
pub const WRITE_DELAY_MS: u32 = 1;

/// Pause after the configuration load is started, in milliseconds, for the
/// device to take the configuration in.
pub const SETTLE_DELAY_MS: u32 = 200;

/// Requests of an attempt before its first read of the status: two reads of
/// the identity with a pause between them, the power configuration and its
/// pause, the upload address, the upload, the start of the load and the
/// pause after it.
pub const REQUESTS_BEFORE_STATUS: u32 = 9;

/// Requests of one attempt that is made to its end: those before the status
/// is read, and every read of the status.
pub open spec fn requests_per_attempt() -> nat {
    (REQUESTS_BEFORE_STATUS + MAX_STATUS_POLLS) as nat
}

/// Why bringing the device up gave no status.
#[derive(Clone, Debug, PartialEq, Eq)]
pub enum Bmi270InitError<E> {
    /// The bus failed; this is its error, unchanged.
    SpiDevice(E),
    /// The device still reported that it was not initialised when the last
    /// attempt ran out of status reads.
    Timeout,
}

impl<E> From<E> for Bmi270InitError<E> {
    fn from(value: E) -> (error: Self) {
        Bmi270InitError::SpiDevice(value)
    }
}

impl<E> vstd::std_specs::convert::FromSpecImpl<E> for Bmi270InitError<E> {
    open spec fn obeys_from_spec() -> bool {
        true
    }

    open spec fn from_spec(value: E) -> Self {
        Bmi270InitError::SpiDevice(value)
    }
}

/// Where an attempt stands: which request is outstanding.
#[derive(Clone, Copy, Debug, PartialEq, Eq, Structural)]
pub enum InitStage {
    /// Nothing was asked yet.
    Idle,
    /// A first read of the identity, whose value is not looked at. It takes
    /// the device out of detecting which protocol the host speaks.
    Prime,
    /// The pause after the first read.
    PrimeDelay,
    /// The read of the identity that is checked.
    ChipIdProbe,
    /// The write that switches advanced power save off.
    PowerConfig,
    /// The pause after that write.
    PowerConfigDelay,
    /// The write of the upload address, which is zero.
    InitAddrSet,
    /// The upload of the configuration, in one piece.
    FirmwareUpload,
    /// The write that starts the configuration load.
    InitCtrlEnable,
    /// The pause after that write.
    Settle,
    /// A read of the status.
    StatusPoll,
    /// The result was handed out.
    Finished,
}

impl InitStage {
    /// The stage that follows when the outstanding request went well and
    /// decided nothing.
    pub open spec fn next(self) -> InitStage {
        match self {
            InitStage::Idle => InitStage::Prime,
            InitStage::Prime => InitStage::PrimeDelay,
            InitStage::PrimeDelay => InitStage::ChipIdProbe,
            InitStage::ChipIdProbe => InitStage::PowerConfig,
            InitStage::PowerConfig => InitStage::PowerConfigDelay,
            InitStage::PowerConfigDelay => InitStage::InitAddrSet,
            InitStage::InitAddrSet => InitStage::FirmwareUpload,
            InitStage::FirmwareUpload => InitStage::InitCtrlEnable,
            InitStage::InitCtrlEnable => InitStage::Settle,
            InitStage::Settle => InitStage::StatusPoll,
            InitStage::StatusPoll => InitStage::StatusPoll,
            InitStage::Finished => InitStage::Finished,
        }
    }

    /// Whether a request is outstanding in this stage.
    pub open spec fn is_waiting(self) -> bool {
        self != InitStage::Idle && self != InitStage::Finished
    }

    /// The request that is outstanding in this stage, where one is.
    pub open spec fn request(self, config: Seq<u8>) -> RequestView {
        match self {
            InitStage::Prime | InitStage::ChipIdProbe => read_request_spec(ChipId::ADDRESS, 2),
            InitStage::PrimeDelay => RequestView::DelayMs(PROBE_DELAY_MS),
            InitStage::PowerConfig => write_request_spec(
                PwrConf::ADDRESS,
                (PwrConf { adv_power_save: false, ..PwrConf::reset_spec() }).encode_spec(),
            ),
            InitStage::PowerConfigDelay => RequestView::DelayMs(WRITE_DELAY_MS),
            InitStage::InitAddrSet => set_init_addr_request_spec(0),
            InitStage::FirmwareUpload => burst_write_request_spec(InitData::ADDRESS, config),
            InitStage::InitCtrlEnable => write_request_spec(
                InitCtrl::ADDRESS,
                (InitCtrl { init_ctrl: true }).encode_spec(),
            ),
            InitStage::Settle => RequestView::DelayMs(SETTLE_DELAY_MS),
            InitStage::StatusPoll => read_request_spec(InternalStatus::ADDRESS, 2),
            InitStage::Idle | InitStage::Finished => RequestView::DelayMs(0),
        }
    }
}

/// The state of an [`InitSequencer`] as a mathematical value.
pub struct InitState {
    /// Which request is outstanding.
    pub stage: InitStage,
    /// Attempts that are not over yet, the running one included.
    pub attempts_left: nat,
    /// Status reads that the running attempt may still make after the one
    /// that is outstanding.
    pub polls_left: nat,
    /// The configuration to upload.
    pub config: Seq<u8>,
}

/// What the owner of the bus does next.
#[derive(Debug, PartialEq, Eq)]
pub enum InitAction<E> {
    /// Carry out this request and come back with the answer.
    Perform(Request),
    /// Nothing more: this is the result.
    Finished(Result<InternalStatusMessage, Bmi270InitError<E>>),
}

/// An [`InitAction`] as a mathematical value.
pub enum InitActionView<E> {
    Perform(RequestView),
    Finished(Result<InternalStatusMessage, Bmi270InitError<E>>),
}

impl<E> View for InitAction<E> {
    type V = InitActionView<E>;

    open spec fn view(&self) -> InitActionView<E> {
        match self {
            InitAction::Perform(request) => InitActionView::Perform(request@),
            InitAction::Finished(result) => InitActionView::Finished(*result),
        }
    }
}

impl InitState {
    /// The state before anything was asked.
    pub open spec fn initial(config: Seq<u8>, max_attempts: nat) -> InitState {
        InitState { stage: InitStage::Idle, attempts_left: max_attempts, polls_left: 0, config }
    }

    /// The state is one that a sequencer can be in.
    pub open spec fn well_formed(self) -> bool {
        &&& self.config.len() == CONFIG_LEN
        &&& self.polls_left < MAX_STATUS_POLLS
        &&& self.stage.is_waiting() ==> self.attempts_left > 0
    }

    /// Whether `response` can be the answer that the sequencer waits for. To
    /// begin, the sequencer takes [`Response::Done`]; once it has finished it
    /// takes nothing.
    pub open spec fn expects<E>(self, response: ResponseView<E>) -> bool {
        match self.stage {
            InitStage::Idle => response is Done,
            InitStage::Finished => false,
            _ => response.answers(self.stage.request(self.config)),
        }
    }

    /// The state in which `stage` has just been asked for.
    pub open spec fn entering(self, stage: InitStage) -> InitState {
        InitState {
            stage,
            polls_left: if stage == InitStage::StatusPoll && self.stage != InitStage::StatusPoll {
                (MAX_STATUS_POLLS - 1) as nat
            } else if stage == InitStage::StatusPoll {
                (self.polls_left - 1) as nat
            } else {
                self.polls_left
            },
            ..self
        }
    }

    /// The state after the result was handed out.
    pub open spec fn finished(self) -> InitState {
        InitState { stage: InitStage::Finished, ..self }
    }

    /// Move on to `stage` and ask for its request.
    pub open spec fn proceed<E>(self, stage: InitStage) -> (InitState, InitActionView<E>) {
        (self.entering(stage), InitActionView::Perform(stage.request(self.config)))
    }

    /// Stop with `result`.
    pub open spec fn finish<E>(
        self,
        result: Result<InternalStatusMessage, Bmi270InitError<E>>,
    ) -> (InitState, InitActionView<E>) {
        (self.finished(), InitActionView::Finished(result))
    }

    /// Begin the next attempt, or stop with a timeout when none is left.
    /// `self.attempts_left` counts the attempts not yet begun.
    pub open spec fn begin_attempt<E>(self) -> (InitState, InitActionView<E>) {
        if self.attempts_left == 0 {
            self.finish(Err(Bmi270InitError::Timeout))
        } else {
            self.proceed(InitStage::Prime)
        }
    }

    /// What the sequencer does with `response`: the state it goes to and the
    /// action it hands out.
    ///
    /// A failure of the bus ends the run with that failure. A wrong identity
    /// ends it with the status `DrvErr`. A status other than `NotInit` ends it
    /// with that status. While the status is `NotInit` it is read again, until
    /// the attempt has made all its reads; then the next attempt begins with
    /// the first request, or, after the last attempt, the run ends with a
    /// timeout. Every other answer leads on to the next request.
    pub open spec fn step<E>(self, response: ResponseView<E>) -> (InitState, InitActionView<E>) {
        match response {
            ResponseView::Failed(error) => self.finish(Err(Bmi270InitError::SpiDevice(error))),
            ResponseView::Done => match self.stage {
                InitStage::Idle => self.begin_attempt(),
                _ => self.proceed(self.stage.next()),
            },
            ResponseView::Data(bytes) => match self.stage {
                InitStage::ChipIdProbe => if bytes[1] == CHIP_ID {
                    self.proceed(InitStage::PowerConfig)
                } else {
                    self.finish(Ok(InternalStatusMessage::DrvErr))
                },
                InitStage::StatusPoll => {
                    let message = InternalStatus::decode_spec(bytes[1]).message;
                    if message != InternalStatusMessage::NotInit {
                        self.finish(Ok(message))
                    } else if self.polls_left > 0 {
                        self.proceed(InitStage::StatusPoll)
                    } else {
                        (InitState { attempts_left: (self.attempts_left - 1) as nat, ..self })
                            .begin_attempt()
                    }
                },
                _ => self.proceed(self.stage.next()),
            },
        }
    }

    /// Requests that the running attempt can still hand out after the one
    /// that is outstanding.
    pub open spec fn requests_left_in_attempt(self) -> nat {
        let polls = MAX_STATUS_POLLS as nat;
        match self.stage {
            InitStage::Idle | InitStage::Finished => 0,
            InitStage::Prime => 8 + polls,
            InitStage::PrimeDelay => 7 + polls,
            InitStage::ChipIdProbe => 6 + polls,
            InitStage::PowerConfig => 5 + polls,
            InitStage::PowerConfigDelay => 4 + polls,
            InitStage::InitAddrSet => 3 + polls,
            InitStage::FirmwareUpload => 2 + polls,
            InitStage::InitCtrlEnable => 1 + polls,
            InitStage::Settle => polls,
            InitStage::StatusPoll => self.polls_left,
        }
    }

    /// An upper bound on the requests that the sequencer can still hand out.
    pub open spec fn requests_left(self) -> nat {
        let per_attempt = requests_per_attempt();
        match self.stage {
            InitStage::Idle => self.attempts_left * per_attempt,
            InitStage::Finished => 0,
            _ => (self.attempts_left - 1) as nat * per_attempt + self.requests_left_in_attempt(),
        }
    }
}

/// The state machine behind bringing the device up.
pub struct InitSequencer {
    stage: InitStage,
    attempts_left: u32,
    polls_left: u32,
    config: [u8; 328],
}

impl View for InitSequencer {
    type V = InitState;

    closed spec fn view(&self) -> InitState {
        InitState {
            stage: self.stage,
            attempts_left: self.attempts_left as nat,
            polls_left: self.polls_left as nat,
            config: self.config@,
        }
    }
}

impl InitSequencer {
    #[verifier::type_invariant]
    spec fn inv(self) -> bool {
        self@.well_formed()
    }

    /// A sequencer that uploads `config` and makes up to `max_attempts`
    /// attempts.
    pub fn new(config: &[u8; 328], max_attempts: u32) -> (sequencer: Self)
        ensures
            sequencer@ == InitState::initial(config@, max_attempts as nat),
            sequencer@.well_formed(),
    {
        InitSequencer {
            stage: InitStage::Idle,
            attempts_left: max_attempts,
            polls_left: 0,
            config: *config,
        }
    }

    /// Whether the result was handed out.
    pub fn is_finished(&self) -> (finished: bool)
        ensures
            finished == (self@.stage == InitStage::Finished),
    {
        self.stage == InitStage::Finished
    }

    /// Which request is outstanding.
    pub fn stage(&self) -> (stage: InitStage)
        ensures
            stage == self@.stage,
    {
        self.stage
    }

    /// Whether `response` can be the answer that the sequencer waits for.
    pub fn accepts<E>(&self, response: &Response<E>) -> (ok: bool)
        ensures
            ok == self@.expects(response@),
    {
        proof {
            use_type_invariant(self);
            lemma_requests_of_stages(self@.config);
        }
        match self.stage {
            InitStage::Idle => match response {
                Response::Done => true,
                _ => false,
            },
            InitStage::Finished => false,
            InitStage::Prime | InitStage::ChipIdProbe | InitStage::StatusPoll => match response {
                Response::Done => false,
                Response::Data(bytes) => bytes.len() == 2,
                Response::Failed(_) => true,
            },
            InitStage::PrimeDelay
            | InitStage::PowerConfigDelay
            | InitStage::Settle => match response {
                Response::Done => true,
                _ => false,
            },
            InitStage::PowerConfig
            | InitStage::InitAddrSet
            | InitStage::FirmwareUpload
            | InitStage::InitCtrlEnable => match response {
                Response::Done => true,
                Response::Data(_) => false,
                Response::Failed(_) => true,
            },
        }
    }

    /// The request of `stage`.
    fn request(&self, stage: InitStage) -> (request: Request)
        requires
            stage.is_waiting(),
        ensures
            request@ == stage.request(self@.config),
    {
        match stage {
            InitStage::Prime | InitStage::ChipIdProbe => read_request::<ChipId>(2),
            InitStage::PrimeDelay => Request::DelayMs(PROBE_DELAY_MS),
            InitStage::PowerConfig => write_request(
                &PwrConf::default().with_adv_power_save(false),
            ),
            InitStage::PowerConfigDelay => Request::DelayMs(WRITE_DELAY_MS),
            InitStage::InitAddrSet => set_init_addr_request(0),
            InitStage::FirmwareUpload => burst_write_request::<InitData>(self.config.as_slice()),
            InitStage::InitCtrlEnable => write_request(&InitCtrl::default().with_init_ctrl(true)),
            InitStage::Settle => Request::DelayMs(SETTLE_DELAY_MS),
            _ => read_request::<InternalStatus>(2),
        }
    }

    /// Move on to `stage` and ask for its request.
    fn proceed<E>(&mut self, stage: InitStage) -> (action: InitAction<E>)
        requires
            stage.is_waiting(),
            old(self)@.attempts_left > 0,
            stage == InitStage::StatusPoll && old(self)@.stage == InitStage::StatusPoll
                ==> old(self)@.polls_left > 0,
        ensures
            (final(self)@, action@) == old(self)@.proceed::<E>(stage),
    {
        proof {
            use_type_invariant(&*self);
        }
        let polls_left: u32 = if stage == InitStage::StatusPoll {
            if self.stage == InitStage::StatusPoll {
                self.polls_left - 1
            } else {
                MAX_STATUS_POLLS - 1
            }
        } else {
            self.polls_left
        };
        let request = self.request(stage);
        *self = InitSequencer {
            stage,
            attempts_left: self.attempts_left,
            polls_left,
            config: self.config,
        };
        InitAction::Perform(request)
    }

    /// Stop with `result`.
    fn finish<E>(&mut self, result: Result<InternalStatusMessage, Bmi270InitError<E>>) -> (action:
        InitAction<E>)
        ensures
            (final(self)@, action@) == old(self)@.finish(result),
    {
        proof {
            use_type_invariant(&*self);
        }
        *self = InitSequencer {
            stage: InitStage::Finished,
            attempts_left: self.attempts_left,
            polls_left: self.polls_left,
            config: self.config,
        };
        InitAction::Finished(result)
    }

    /// Begin the next attempt, or stop with a timeout when none is left.
    fn begin_attempt<E>(&mut self) -> (action: InitAction<E>)
        ensures
            (final(self)@, action@) == old(self)@.begin_attempt::<E>(),
    {
        if self.attempts_left == 0 {
            self.finish(Err(Bmi270InitError::Timeout))
        } else {
            self.proceed(InitStage::Prime)
        }
    }

    /// Give the running attempt up, and begin the next or stop with a timeout.
    fn end_attempt<E>(&mut self) -> (action: InitAction<E>)
        requires
            old(self)@.attempts_left > 0,
        ensures
            (final(self)@, action@) == (InitState {
                attempts_left: (old(self)@.attempts_left - 1) as nat,
                ..old(self)@
            }).begin_attempt::<E>(),
    {
        proof {
            use_type_invariant(&*self);
        }
        let attempts_left: u32 = self.attempts_left - 1;
        if attempts_left == 0 {
            *self = InitSequencer {
                stage: InitStage::Finished,
                attempts_left,
                polls_left: self.polls_left,
                config: self.config,
            };
            InitAction::Finished(Err(Bmi270InitError::Timeout))
        } else {
            let request = self.request(InitStage::Prime);
            *self = InitSequencer {
                stage: InitStage::Prime,
                attempts_left,
                polls_left: self.polls_left,
                config: self.config,
            };
            InitAction::Perform(request)
        }
    }

    /// Takes the answer to the outstanding request, and hands out the next
    /// request or the result. To begin, hand it [`Response::Done`].
    ///
    /// Every request that is handed out brings the end nearer, so a run ends
    /// whatever the device answers.
    pub fn step<E>(&mut self, response: Response<E>) -> (action: InitAction<E>)
        requires
            old(self)@.expects(response@),
        ensures
            (final(self)@, action@) == old(self)@.step(response@),
            final(self)@.well_formed(),
            action is Perform ==> final(self)@.requests_left() < old(self)@.requests_left(),
            action is Finished <==> final(self)@.stage == InitStage::Finished,
    {
        proof {
            use_type_invariant(&*self);
            lemma_requests_of_stages(self@.config);
            self@.lemma_step_brings_the_end_nearer(response@);
        }
        let stage = self.stage;
        match response {
            Response::Failed(error) => self.finish(Err(Bmi270InitError::SpiDevice(error))),
            Response::Done => match stage {
                InitStage::Idle => self.begin_attempt(),
                InitStage::Prime => self.proceed(InitStage::PrimeDelay),
                InitStage::PrimeDelay => self.proceed(InitStage::ChipIdProbe),
                InitStage::ChipIdProbe => self.proceed(InitStage::PowerConfig),
                InitStage::PowerConfig => self.proceed(InitStage::PowerConfigDelay),
                InitStage::PowerConfigDelay => self.proceed(InitStage::InitAddrSet),
                InitStage::InitAddrSet => self.proceed(InitStage::FirmwareUpload),
                InitStage::FirmwareUpload => self.proceed(InitStage::InitCtrlEnable),
                InitStage::InitCtrlEnable => self.proceed(InitStage::Settle),
                _ => self.proceed(InitStage::StatusPoll),
            },
            Response::Data(bytes) => match stage {
                InitStage::Prime => self.proceed(InitStage::PrimeDelay),
                InitStage::ChipIdProbe => if bytes[1] == CHIP_ID {
                    self.proceed(InitStage::PowerConfig)
                } else {
                    self.finish(Ok(InternalStatusMessage::DrvErr))
                },
                _ => {
                    let message = InternalStatus::decode(bytes[1]).message;
                    if message != InternalStatusMessage::NotInit {
                        self.finish(Ok(message))
                    } else if self.polls_left > 0 {
                        self.proceed(InitStage::StatusPoll)
                    } else {
                        self.end_attempt()
                    }
                },
            },
        }
    }
}

/// How many bytes each stage's request receives, and which stages use the
/// bus: the reads receive two bytes, everything else none, and only the
/// pauses leave the bus alone.
pub proof fn lemma_requests_of_stages(config: Seq<u8>)
    ensures
        forall|stage: InitStage| #[trigger]
            stage.request(config).read_len() == (if stage == InitStage::Prime || stage
                == InitStage::ChipIdProbe || stage == InitStage::StatusPoll {
                2nat
            } else {
                0nat
            }),
        forall|stage: InitStage| #[trigger]
            stage.request(config).uses_bus() == !(stage == InitStage::PrimeDelay || stage
                == InitStage::PowerConfigDelay || stage == InitStage::Settle || stage
                == InitStage::Idle || stage == InitStage::Finished),
{
    lemma_read_len_of_read(ChipId::ADDRESS, 2);
    lemma_read_len_of_read(InternalStatus::ADDRESS, 2);
    lemma_read_len_of_burst(InitData::ADDRESS, config);
    lemma_read_len_of_burst(
        InitAddr0::ADDRESS,
        seq![(0u16 % 0x10) as u8, (0u16 / 0x10) as u8],
    );
}

/// The requests of `attempts` attempts are those of one attempt and those of
/// the attempts that follow it.
pub proof fn lemma_one_attempt_less(attempts: nat)
    ensures
        attempts > 0 ==> attempts * requests_per_attempt() == (attempts - 1) as nat
            * requests_per_attempt() + requests_per_attempt(),
        attempts > 1 ==> (attempts - 1) as nat * requests_per_attempt() == (attempts - 2) as nat
            * requests_per_attempt() + requests_per_attempt(),
{
    let per_attempt = requests_per_attempt();
    if attempts > 0 {
        assert(attempts * per_attempt == (attempts - 1) as nat * per_attempt + per_attempt)
            by (nonlinear_arith)
            requires
                attempts > 0,
        ;
    }
    if attempts > 1 {
        assert((attempts - 1) as nat * per_attempt == (attempts - 2) as nat * per_attempt
            + per_attempt) by (nonlinear_arith)
            requires
                attempts > 1,
        ;
    }
}

impl InitState {
    /// Each step that hands out a request lowers the bound on the requests
    /// still to come, and keeps the state well formed: no run goes on for
    /// ever.
    pub proof fn lemma_step_brings_the_end_nearer<E>(self, response: ResponseView<E>)
        requires
            self.well_formed(),
            self.expects(response),
        ensures
            self.step(response).0.well_formed(),
            self.step(response).1 is Perform ==> self.step(response).0.requests_left()
                < self.requests_left(),
            self.step(response).1 is Finished <==> self.step(response).0.stage
                == InitStage::Finished,
    {
        lemma_requests_of_stages(self.config);
        lemma_one_attempt_less(self.attempts_left);
    }
}

} // verus!
