//! Whole runs of the sequencer against a device, and what holds of them:
//! every run ends, a device that never gets ready leads to a timeout after
//! the last attempt, and a good run asks for everything in one fixed order.

use super::{
    lemma_one_attempt_less, lemma_requests_of_stages, requests_per_attempt, Bmi270InitError,
    InitActionView, InitStage, InitState, CHIP_ID, CONFIG_LEN, REQUESTS_BEFORE_STATUS,
};
use crate::peripheral::bmi270::bus::{OperationView, RequestView, ResponseView};
use crate::peripheral::bmi270::frame::{lemma_read_header, read_header_spec, read_request_spec};
use crate::peripheral::bmi270::regs::bits::lemma_low_bits;
use crate::peripheral::bmi270::regs::{
    ChipId, InitAddr0, InitCtrl, InitData, InternalStatus, InternalStatusMessage, PwrConf,
};
use crate::peripheral::Register;
use vstd::prelude::*;

verus! {

/// What a run of the sequencer against a device leaves behind.
pub struct InitRun<E> {
    /// The requests that were handed out, in order.
    pub requests: Seq<RequestView>,
    /// The result, if the run got that far.
    pub result: Option<Result<InternalStatusMessage, Bmi270InitError<E>>>,
}

/// The run that starts in `state` with the answer `response`, against a
/// device that answers each request by `device`, cut off after `fuel` steps.
pub open spec fn run<E>(
    state: InitState,
    response: ResponseView<E>,
    device: spec_fn(RequestView) -> ResponseView<E>,
    fuel: nat,
) -> InitRun<E>
    decreases fuel,
{
    if fuel == 0 {
        InitRun { requests: Seq::empty(), result: None }
    } else {
        match state.step(response).1 {
            InitActionView::Finished(result) => InitRun {
                requests: Seq::empty(),
                result: Some(result),
            },
            InitActionView::Perform(request) => {
                let rest = run(state.step(response).0, device(request), device, (fuel - 1) as nat);
                InitRun { requests: seq![request] + rest.requests, result: rest.result }
            },
        }
    }
}

/// The device answers every request of the sequencer with something that
/// request can be answered with.
pub open spec fn answers_all<E>(
    device: spec_fn(RequestView) -> ResponseView<E>,
    config: Seq<u8>,
) -> bool {
    forall|stage: InitStage|
        stage.is_waiting() ==> (#[trigger] device(stage.request(config))).answers(
            stage.request(config),
        )
}

/// The device never fails, reports the right identity, and reports a status
/// with the message `message` whenever it is asked.
pub open spec fn reports<E>(
    device: spec_fn(RequestView) -> ResponseView<E>,
    config: Seq<u8>,
    message: InternalStatusMessage,
) -> bool {
    &&& answers_all(device, config)
    &&& forall|stage: InitStage|
        stage.is_waiting() ==> !((#[trigger] device(stage.request(config))) is Failed)
    &&& device(InitStage::ChipIdProbe.request(config)) matches ResponseView::Data(bytes)
        && bytes[1] == CHIP_ID
    &&& device(InitStage::StatusPoll.request(config)) matches ResponseView::Data(bytes)
        && InternalStatus::decode_spec(bytes[1]).message == message
}

/// A device that is always there: it answers a read of the identity with
/// `chip_id`, a read of the status with `status`, each after a filler byte,
/// and carries out everything else.
pub open spec fn steady_device<E>(chip_id: u8, status: u8) -> spec_fn(RequestView) -> ResponseView<
    E,
> {
    |request: RequestView|
        if request == read_request_spec(ChipId::ADDRESS, 2) {
            ResponseView::Data(seq![0xffu8, chip_id])
        } else if request == read_request_spec(InternalStatus::ADDRESS, 2) {
            ResponseView::Data(seq![0xffu8, status])
        } else {
            ResponseView::Done
        }
}

/// The steady device with the right identity reports the message that its
/// status byte holds.
pub proof fn lemma_steady_device_reports<E>(config: Seq<u8>, status: u8)
    ensures
        reports(
            steady_device::<E>(CHIP_ID, status),
            config,
            InternalStatus::decode_spec(status).message,
        ),
{
    let device = steady_device::<E>(CHIP_ID, status);
    let chip_id_read = read_request_spec(ChipId::ADDRESS, 2);
    let status_read = read_request_spec(InternalStatus::ADDRESS, 2);
    ChipId::lemma_address();
    InternalStatus::lemma_address();
    lemma_read_header(0x00);
    lemma_read_header(0x21);
    lemma_requests_of_stages(config);
    assert(chip_id_read != status_read) by {
        let a = seq![OperationView::Write(seq![read_header_spec(0x00)]), OperationView::Read(2)];
        let b = seq![OperationView::Write(seq![read_header_spec(0x21)]), OperationView::Read(2)];
        assert(a[0] != b[0]) by {
            assert(seq![read_header_spec(0x00)][0] != seq![read_header_spec(0x21)][0]);
        }
    }
    assert(seq![0xffu8, CHIP_ID].len() == 2 && seq![0xffu8, CHIP_ID][1] == CHIP_ID);
    assert(seq![0xffu8, status].len() == 2 && seq![0xffu8, status][1] == status);
    assert forall|stage: InitStage| stage.is_waiting() implies (#[trigger] device(
        stage.request(config),
    )).answers(stage.request(config)) && !(device(stage.request(config)) is Failed) by {
        let request = stage.request(config);
        if request == chip_id_read || request == status_read {
            assert(request.read_len() == 2);
        } else {
            assert(request.read_len() == 0);
        }
    }
}

/// The answer that the sequencer waits for in `state`, from `device`.
pub open spec fn pending<E>(
    state: InitState,
    device: spec_fn(RequestView) -> ResponseView<E>,
) -> ResponseView<E> {
    if state.stage == InitStage::Idle {
        ResponseView::Done
    } else {
        device(state.stage.request(state.config))
    }
}

/// Whatever the device answers, the run ends: with fuel for more steps than
/// the bound on the requests, there is a result, and no more requests were
/// handed out than the bound allows.
pub proof fn lemma_run_ends<E>(
    state: InitState,
    device: spec_fn(RequestView) -> ResponseView<E>,
    fuel: nat,
)
    requires
        state.well_formed(),
        state.stage != InitStage::Finished,
        answers_all(device, state.config),
        fuel > state.requests_left(),
    ensures
        run(state, pending(state, device), device, fuel).result is Some,
        run(state, pending(state, device), device, fuel).requests.len() <= state.requests_left(),
    decreases fuel,
{
    let response = pending(state, device);
    state.lemma_step_brings_the_end_nearer(response);
    let (next, action) = state.step(response);
    if let InitActionView::Perform(request) = action {
        assert(request == next.stage.request(next.config));
        lemma_run_ends(next, device, (fuel - 1) as nat);
    }
}

/// Against a device that always reports `NotInit`, the run makes every
/// attempt to the end, each with all its status reads, and ends with a
/// timeout.
pub proof fn lemma_run_times_out<E>(
    state: InitState,
    device: spec_fn(RequestView) -> ResponseView<E>,
    fuel: nat,
)
    requires
        state.well_formed(),
        state.stage != InitStage::Finished,
        reports(device, state.config, InternalStatusMessage::NotInit),
        fuel > state.requests_left(),
    ensures
        run(state, pending(state, device), device, fuel).result == Some(
            Err::<InternalStatusMessage, Bmi270InitError<E>>(Bmi270InitError::Timeout),
        ),
        run(state, pending(state, device), device, fuel).requests.len() == state.requests_left(),
    decreases fuel,
{
    let response = pending(state, device);
    state.lemma_step_brings_the_end_nearer(response);
    lemma_requests_of_stages(state.config);
    let (next, action) = state.step(response);
    lemma_one_attempt_less(state.attempts_left);
    if let InitActionView::Perform(request) = action {
        assert(request == next.stage.request(next.config));
        assert(next.requests_left() + 1 == state.requests_left());
        lemma_run_times_out(next, device, (fuel - 1) as nat);
    }
}

/// The law of the timeout: a sequencer with `max_attempts` attempts, against
/// a device that always reports `NotInit`, hands out exactly the requests of
/// `max_attempts` whole attempts, and then reports a timeout.
pub proof fn lemma_init_times_out<E>(
    config: Seq<u8>,
    max_attempts: nat,
    device: spec_fn(RequestView) -> ResponseView<E>,
    fuel: nat,
)
    requires
        config.len() == CONFIG_LEN,
        reports(device, config, InternalStatusMessage::NotInit),
        fuel > max_attempts * requests_per_attempt(),
    ensures
        run(InitState::initial(config, max_attempts), ResponseView::Done, device, fuel).result
            == Some(Err::<InternalStatusMessage, Bmi270InitError<E>>(Bmi270InitError::Timeout)),
        run(
            InitState::initial(config, max_attempts),
            ResponseView::Done,
            device,
            fuel,
        ).requests.len() == max_attempts * requests_per_attempt(),
{
    lemma_run_times_out(InitState::initial(config, max_attempts), device, fuel);
}

/// The requests of one attempt that meets no obstacle, in the order in which
/// they are handed out.
pub open spec fn attempt_requests(config: Seq<u8>) -> Seq<RequestView> {
    seq![
        InitStage::Prime.request(config),
        InitStage::PrimeDelay.request(config),
        InitStage::ChipIdProbe.request(config),
        InitStage::PowerConfig.request(config),
        InitStage::PowerConfigDelay.request(config),
        InitStage::InitAddrSet.request(config),
        InitStage::FirmwareUpload.request(config),
        InitStage::InitCtrlEnable.request(config),
        InitStage::Settle.request(config),
        InitStage::StatusPoll.request(config),
    ]
}

/// The run that starts in `state`, which waits in a stage of an attempt,
/// against a device that reports `message`, which is not `NotInit`: the rest
/// of the attempt's requests, and then `message`.
proof fn lemma_rest_of_attempt<E>(
    state: InitState,
    device: spec_fn(RequestView) -> ResponseView<E>,
    message: InternalStatusMessage,
    fuel: nat,
    done: nat,
)
    requires
        state.well_formed(),
        message != InternalStatusMessage::NotInit,
        reports(device, state.config, message),
        1 <= done <= 10,
        state.stage == stage_at(done),
        fuel > 10 - done,
    ensures
        run(state, pending(state, device), device, fuel).result == Some(
            Ok::<InternalStatusMessage, Bmi270InitError<E>>(message),
        ),
        run(state, pending(state, device), device, fuel).requests == attempt_requests(
            state.config,
        ).subrange(done as int, 10),
    decreases 10 - done,
{
    let response = pending(state, device);
    state.lemma_step_brings_the_end_nearer(response);
    lemma_requests_of_stages(state.config);
    let (next, action) = state.step(response);
    let all = attempt_requests(state.config);
    if done < 10 {
        assert(action == InitActionView::<E>::Perform(all[done as int]));
        assert(next.stage == stage_at(done + 1));
        lemma_rest_of_attempt(next, device, message, (fuel - 1) as nat, done + 1);
        assert(all.subrange(done as int, 10) == seq![all[done as int]] + all.subrange(
            done as int + 1,
            10,
        ));
    } else {
        assert(all.subrange(10, 10) == Seq::<RequestView>::empty());
    }
}

/// The stage whose request is the `done`-th of an attempt, counted from one.
pub open spec fn stage_at(done: nat) -> InitStage {
    if done == 1 {
        InitStage::Prime
    } else if done == 2 {
        InitStage::PrimeDelay
    } else if done == 3 {
        InitStage::ChipIdProbe
    } else if done == 4 {
        InitStage::PowerConfig
    } else if done == 5 {
        InitStage::PowerConfigDelay
    } else if done == 6 {
        InitStage::InitAddrSet
    } else if done == 7 {
        InitStage::FirmwareUpload
    } else if done == 8 {
        InitStage::InitCtrlEnable
    } else if done == 9 {
        InitStage::Settle
    } else {
        InitStage::StatusPoll
    }
}

/// The law of the good run: against a device that reports the right identity
/// and then a status other than `NotInit`, the sequencer hands out the
/// requests of one attempt, in order, and reports that status.
pub proof fn lemma_init_reports_status<E>(
    config: Seq<u8>,
    max_attempts: nat,
    device: spec_fn(RequestView) -> ResponseView<E>,
    message: InternalStatusMessage,
    fuel: nat,
)
    requires
        config.len() == CONFIG_LEN,
        max_attempts > 0,
        message != InternalStatusMessage::NotInit,
        reports(device, config, message),
        fuel > REQUESTS_BEFORE_STATUS + 1,
    ensures
        run(InitState::initial(config, max_attempts), ResponseView::Done, device, fuel).result
            == Some(Ok::<InternalStatusMessage, Bmi270InitError<E>>(message)),
        run(InitState::initial(config, max_attempts), ResponseView::Done, device, fuel).requests
            == attempt_requests(config),
{
    let state = InitState::initial(config, max_attempts);
    let next = state.step(ResponseView::<E>::Done).0;
    let all = attempt_requests(config);
    lemma_rest_of_attempt(next, device, message, (fuel - 1) as nat, 1);
    assert(all == seq![all[0]] + all.subrange(1, 10));
}

/// Against the steady device with the right identity and a status that says
/// `NotInit`, a sequencer with `max_attempts` attempts reports a timeout after
/// the requests of `max_attempts` whole attempts.
pub proof fn lemma_init_times_out_on_steady_device<E>(
    config: Seq<u8>,
    max_attempts: nat,
    status: u8,
    fuel: nat,
)
    requires
        config.len() == CONFIG_LEN,
        status & 0x07 == 0,
        fuel > max_attempts * requests_per_attempt(),
    ensures
        run(
            InitState::initial(config, max_attempts),
            ResponseView::Done,
            steady_device::<E>(CHIP_ID, status),
            fuel,
        ).result == Some(
            Err::<InternalStatusMessage, Bmi270InitError<E>>(Bmi270InitError::Timeout),
        ),
        run(
            InitState::initial(config, max_attempts),
            ResponseView::Done,
            steady_device::<E>(CHIP_ID, status),
            fuel,
        ).requests.len() == max_attempts * requests_per_attempt(),
{
    lemma_steady_device_reports::<E>(config, status);
    lemma_init_times_out(config, max_attempts, steady_device::<E>(CHIP_ID, status), fuel);
}

/// Against the steady device with the right identity and the status byte 1,
/// a sequencer with at least one attempt hands out the requests of one
/// attempt, in order, and reports `InitOk`.
pub proof fn lemma_init_ok_on_steady_device<E>(config: Seq<u8>, max_attempts: nat, fuel: nat)
    requires
        config.len() == CONFIG_LEN,
        max_attempts > 0,
        fuel > REQUESTS_BEFORE_STATUS + 1,
    ensures
        run(
            InitState::initial(config, max_attempts),
            ResponseView::Done,
            steady_device::<E>(CHIP_ID, 0x01),
            fuel,
        ) == (InitRun {
            requests: attempt_requests(config),
            result: Some(
                Ok::<InternalStatusMessage, Bmi270InitError<E>>(InternalStatusMessage::InitOk),
            ),
        }),
{
    lemma_low_bits(0x01);
    lemma_steady_device_reports::<E>(config, 0x01);
    lemma_init_reports_status(
        config,
        max_attempts,
        steady_device::<E>(CHIP_ID, 0x01),
        InternalStatusMessage::InitOk,
        fuel,
    );
}

/// Against the steady device with another identity, the sequencer stops after
/// the second read of the identity and reports `DrvErr`.
pub proof fn lemma_init_rejects_a_wrong_identity<E>(
    config: Seq<u8>,
    max_attempts: nat,
    chip_id: u8,
    status: u8,
    fuel: nat,
)
    requires
        config.len() == CONFIG_LEN,
        max_attempts > 0,
        chip_id != CHIP_ID,
        fuel > 3,
    ensures
        run(
            InitState::initial(config, max_attempts),
            ResponseView::Done,
            steady_device::<E>(chip_id, status),
            fuel,
        ) == (InitRun {
            requests: attempt_requests(config).subrange(0, 3),
            result: Some(
                Ok::<InternalStatusMessage, Bmi270InitError<E>>(InternalStatusMessage::DrvErr),
            ),
        }),
{
    let device = steady_device::<E>(chip_id, status);
    let all = attempt_requests(config);
    let s0 = InitState::initial(config, max_attempts);
    let s1 = s0.step(ResponseView::<E>::Done).0;
    let s2 = s1.step(device(all[0])).0;
    let s3 = s2.step(device(all[1])).0;
    assert(seq![0xffu8, chip_id][1] == chip_id);
    assert(run(s3, device(all[2]), device, (fuel - 3) as nat).requests == Seq::<
        RequestView,
    >::empty());
    assert(run(s2, device(all[1]), device, (fuel - 2) as nat).requests == seq![all[2]]);
    assert(run(s1, device(all[0]), device, (fuel - 1) as nat).requests == seq![all[1], all[2]]);
    assert(run(s0, ResponseView::<E>::Done, device, fuel).requests == seq![all[0], all[1], all[2]]);
    assert(all.subrange(0, 3) == seq![all[0], all[1], all[2]]);
}

/// The requests of an attempt as they go over the wire.
pub proof fn lemma_attempt_requests_on_the_wire(config: Seq<u8>)
    ensures
        attempt_requests(config) == seq![
            RequestView::Transaction(
                seq![OperationView::Write(seq![0x80u8]), OperationView::Read(2)],
            ),
            RequestView::DelayMs(10),
            RequestView::Transaction(
                seq![OperationView::Write(seq![0x80u8]), OperationView::Read(2)],
            ),
            RequestView::Write(seq![0x7cu8, 0x02u8]),
            RequestView::DelayMs(1),
            RequestView::Transaction(
                seq![
                    OperationView::Write(seq![0x5bu8]),
                    OperationView::Write(seq![0x00u8, 0x00u8]),
                ],
            ),
            RequestView::Transaction(
                seq![OperationView::Write(seq![0x5eu8]), OperationView::Write(config)],
            ),
            RequestView::Write(seq![0x59u8, 0x01u8]),
            RequestView::DelayMs(200),
            RequestView::Transaction(
                seq![OperationView::Write(seq![0xa1u8]), OperationView::Read(2)],
            ),
        ],
{
    ChipId::lemma_address();
    PwrConf::lemma_address();
    InitCtrl::lemma_address();
    InitAddr0::lemma_address();
    InitData::lemma_address();
    InternalStatus::lemma_address();
    lemma_read_header(0x00);
    lemma_read_header(0x21);
    assert(0u8 | (1u8 << 1) | (0u8 << 2) == 0x02) by (bit_vector);
}

} // verus!
