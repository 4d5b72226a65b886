//! Whole runs of the sequencer against a device: the writes keep their
//! order whatever the device answers.

use super::{EnableActionView, EnableStage};
use crate::peripheral::bmi270::bus::{RequestView, ResponseView};
use crate::peripheral::bmi270::regs::{AccConf, AccRange, GyrConf, GyrRange, PwrCtrl};
use crate::peripheral::Register;
use vstd::prelude::*;

verus! {

/// What a run of the sequencer against a device leaves behind.
pub struct EnableRun<E> {
    /// The requests that were handed out, in order.
    pub requests: Seq<RequestView>,
    /// The result, if the run got that far.
    pub result: Option<Result<(), E>>,
}

/// The run that starts in `stage` with the answer `response`, against a
/// device that answers each request by `device`, cut off after `fuel` steps.
pub open spec fn run<E>(
    stage: EnableStage,
    response: ResponseView<E>,
    device: spec_fn(RequestView) -> ResponseView<E>,
    fuel: nat,
) -> EnableRun<E>
    decreases fuel,
{
    if fuel == 0 {
        EnableRun { requests: Seq::empty(), result: None }
    } else {
        match stage.step(response).1 {
            EnableActionView::Finished(result) => EnableRun {
                requests: Seq::empty(),
                result: Some(result),
            },
            EnableActionView::Perform(request) => {
                let rest = run(stage.step(response).0, device(request), device, (fuel - 1) as nat);
                EnableRun { requests: seq![request] + rest.requests, result: rest.result }
            },
        }
    }
}

/// The answer that is waited for in `stage`, from `device`.
pub open spec fn pending<E>(
    stage: EnableStage,
    device: spec_fn(RequestView) -> ResponseView<E>,
) -> ResponseView<E> {
    if stage == EnableStage::Idle {
        ResponseView::Done
    } else {
        device(stage.request())
    }
}

/// All requests of the sequence, in the order in which they are handed out:
/// five writes, each followed by its pause.
pub open spec fn enable_requests() -> Seq<RequestView> {
    seq![
        EnableStage::AccConf.request(),
        EnableStage::AccConfDelay.request(),
        EnableStage::AccRange.request(),
        EnableStage::AccRangeDelay.request(),
        EnableStage::GyrConf.request(),
        EnableStage::GyrConfDelay.request(),
        EnableStage::GyrRange.request(),
        EnableStage::GyrRangeDelay.request(),
        EnableStage::PwrCtrl.request(),
        EnableStage::PwrCtrlDelay.request(),
    ]
}

/// The requests as they go over the wire: address and value of each write,
/// and one millisecond after each.
pub proof fn lemma_enable_requests_on_the_wire()
    ensures
        enable_requests() == seq![
            RequestView::Write(seq![0x40u8, 0xabu8]),
            RequestView::DelayMs(1),
            RequestView::Write(seq![0x41u8, 0x03u8]),
            RequestView::DelayMs(1),
            RequestView::Write(seq![0x42u8, 0xabu8]),
            RequestView::DelayMs(1),
            RequestView::Write(seq![0x43u8, 0x00u8]),
            RequestView::DelayMs(1),
            RequestView::Write(seq![0x7du8, 0x0eu8]),
            RequestView::DelayMs(1),
        ],
{
    assert(0x0bu8 | (0x02u8 << 4) | (1u8 << 7) == 0xab && 0x0bu8 | (0x02u8 << 4) | (0u8 << 6) | (1u8
        << 7) == 0xab && 0x00u8 | (0u8 << 3) == 0x00 && 0u8 | (1u8 << 1) | (1u8 << 2) | (1u8 << 3)
        == 0x0e) by (bit_vector);
    AccConf::lemma_address();
    AccRange::lemma_address();
    GyrConf::lemma_address();
    GyrRange::lemma_address();
    PwrCtrl::lemma_address();
}

/// The device answers every request of the sequence with something that
/// request can be answered with.
pub open spec fn answers_all<E>(device: spec_fn(RequestView) -> ResponseView<E>) -> bool {
    forall|stage: EnableStage|
        stage.is_waiting() ==> (#[trigger] device(stage.request())).answers(stage.request())
}

/// The device fails at none of the requests of the sequence.
pub open spec fn never_fails<E>(device: spec_fn(RequestView) -> ResponseView<E>) -> bool {
    forall|stage: EnableStage|
        stage.is_waiting() ==> !((#[trigger] device(stage.request())) is Failed)
}

/// Whatever the device answers, a run hands out the requests of the sequence
/// in their order, from wherever it stands, skips none, and ends: well if it
/// handed out all of them, else with the failure of the bus at the last one
/// that it handed out.
pub proof fn lemma_run_keeps_the_order<E>(
    stage: EnableStage,
    device: spec_fn(RequestView) -> ResponseView<E>,
    fuel: nat,
)
    requires
        stage != EnableStage::Finished,
        answers_all(device),
        fuel > 10 - stage.issued(),
    ensures
        ({
            let run = run(stage, pending(stage, device), device, fuel);
            let end = stage.issued() + run.requests.len();
            &&& end <= 10
            &&& run.requests == enable_requests().subrange(stage.issued() as int, end as int)
            &&& run.result is Some
            &&& run.result == Some(Ok::<(), E>(())) ==> end == 10
            &&& never_fails(device) ==> run.result == Some(Ok::<(), E>(()))
        }),
    decreases fuel,
{
    let response = pending(stage, device);
    let (next, action) = stage.step(response);
    let all = enable_requests();
    let at = stage.issued() as int;
    if let EnableActionView::Perform(request) = action {
        assert(request == all[at]);
        lemma_run_keeps_the_order(next, device, (fuel - 1) as nat);
        let rest = run(next, pending(next, device), device, (fuel - 1) as nat);
        assert(seq![request] + all.subrange(at + 1, at + 1 + rest.requests.len()) == all.subrange(
            at,
            at + 1 + rest.requests.len(),
        ));
    } else {
        assert(all.subrange(at, at) == Seq::<RequestView>::empty());
    }
}

/// The law of the order: against a device that does not fail, the sequencer
/// hands out the five writes in their order, each followed by its pause, and
/// ends well.
pub proof fn lemma_enable_writes_in_order<E>(
    device: spec_fn(RequestView) -> ResponseView<E>,
    fuel: nat,
)
    requires
        answers_all(device),
        never_fails(device),
        fuel > 10,
    ensures
        run(EnableStage::Idle, ResponseView::Done, device, fuel) == (EnableRun {
            requests: enable_requests(),
            result: Some(Ok::<(), E>(())),
        }),
{
    lemma_run_keeps_the_order(EnableStage::Idle, device, fuel);
    let all = enable_requests();
    assert(all.subrange(0, 10) == all);
}

/// A device that carries out every request.
pub open spec fn willing_device<E>() -> spec_fn(RequestView) -> ResponseView<E> {
    |request: RequestView| ResponseView::Done
}

/// Against a device that carries out every request, these are the bytes on
/// the wire and the pauses between them, and the run ends well.
pub proof fn lemma_enable_on_willing_device<E>(fuel: nat)
    requires
        fuel > 10,
    ensures
        run(EnableStage::Idle, ResponseView::Done, willing_device::<E>(), fuel) == (EnableRun {
            requests: seq![
                RequestView::Write(seq![0x40u8, 0xabu8]),
                RequestView::DelayMs(1),
                RequestView::Write(seq![0x41u8, 0x03u8]),
                RequestView::DelayMs(1),
                RequestView::Write(seq![0x42u8, 0xabu8]),
                RequestView::DelayMs(1),
                RequestView::Write(seq![0x43u8, 0x00u8]),
                RequestView::DelayMs(1),
                RequestView::Write(seq![0x7du8, 0x0eu8]),
                RequestView::DelayMs(1),
            ],
            result: Some(Ok::<(), E>(())),
        }),
{
    lemma_enable_requests_on_the_wire();
    lemma_enable_writes_in_order(willing_device::<E>(), fuel);
}

} // verus!
