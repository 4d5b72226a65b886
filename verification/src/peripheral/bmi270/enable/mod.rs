//! Starting continuous sampling: set rate, bandwidth and range of both
//! sensors, then switch them on.
//!
//! The device may ignore a configuration that arrives in another order or too
//! fast, so the order of the writes and the pause after each are part of the
//! contract. Nothing is retried.

use super::bus::{Request, RequestView, Response, ResponseView};
use super::frame::{write_request, write_request_spec};
use super::init::WRITE_DELAY_MS;
use super::regs::{
    AccBwp, AccConf, AccRange, AccRangeMode, GyrBwp, GyrConf, GyrRange, GyrRangeMode,
    OisRange, OutputDataRate, PwrCtrl,
};
use crate::peripheral::Register;
use vstd::prelude::*;

pub mod run;

verus! {

/// The accelerometer configuration that is written: 800 Hz, normal filter,
/// optimised for performance.
pub open spec fn acc_conf_spec() -> AccConf {
    AccConf {
        acc_odr: OutputDataRate::Odr800,
        acc_bwp: AccBwp::NormAvg4,
        acc_filter_perf: true,
    }
}

/// The accelerometer range that is written: 16 g.
pub open spec fn acc_range_spec() -> AccRange {
    AccRange { acc_range: AccRangeMode::Range16G }
}

/// The gyroscope configuration that is written: 800 Hz, normal filter,
/// filtering optimised for performance and noise for power.
pub open spec fn gyr_conf_spec() -> GyrConf {
    GyrConf {
        gyr_odr: OutputDataRate::Odr800,
        gyro_bwp: GyrBwp::Norm,
        gyr_noise_perf: false,
        gyr_filter_perf: true,
    }
}

/// The gyroscope range that is written: 2000 degrees per second.
pub open spec fn gyr_range_spec() -> GyrRange {
    GyrRange { gyr_range: GyrRangeMode::Range2000, ois_range: OisRange::Range250 }
}

/// The power control that is written: accelerometer, gyroscope and
/// temperature sensor on, auxiliary sensor off.
pub open spec fn pwr_ctrl_spec() -> PwrCtrl {
    PwrCtrl { aux_en: false, gyr_en: true, acc_en: true, temp_en: true }
}

/// Which request is outstanding.
#[derive(Clone, Copy, Debug, PartialEq, Eq, Structural)]
pub enum EnableStage {
    /// Nothing was asked yet.
    Idle,
    /// The write of the accelerometer configuration.
    AccConf,
    /// The pause after it.
    AccConfDelay,
    /// The write of the accelerometer range.
    AccRange,
    /// The pause after it.
    AccRangeDelay,
    /// The write of the gyroscope configuration.
    GyrConf,
    /// The pause after it.
    GyrConfDelay,
    /// The write of the gyroscope range.
    GyrRange,
    /// The pause after it.
    GyrRangeDelay,
    /// The write that switches the sensors on.
    PwrCtrl,
    /// The pause after it.
    PwrCtrlDelay,
    /// The result was handed out.
    Finished,
}

impl EnableStage {
    /// The stage that follows when the outstanding request went well.
    pub open spec fn next(self) -> EnableStage {
        match self {
            EnableStage::Idle => EnableStage::AccConf,
            EnableStage::AccConf => EnableStage::AccConfDelay,
            EnableStage::AccConfDelay => EnableStage::AccRange,
            EnableStage::AccRange => EnableStage::AccRangeDelay,
            EnableStage::AccRangeDelay => EnableStage::GyrConf,
            EnableStage::GyrConf => EnableStage::GyrConfDelay,
            EnableStage::GyrConfDelay => EnableStage::GyrRange,
            EnableStage::GyrRange => EnableStage::GyrRangeDelay,
            EnableStage::GyrRangeDelay => EnableStage::PwrCtrl,
            EnableStage::PwrCtrl => EnableStage::PwrCtrlDelay,
            EnableStage::PwrCtrlDelay => EnableStage::Finished,
            EnableStage::Finished => EnableStage::Finished,
        }
    }

    /// Whether a request is outstanding in this stage.
    pub open spec fn is_waiting(self) -> bool {
        self != EnableStage::Idle && self != EnableStage::Finished
    }

    /// Whether the outstanding request is a pause.
    pub open spec fn is_delay(self) -> bool {
        ||| self == EnableStage::AccConfDelay
        ||| self == EnableStage::AccRangeDelay
        ||| self == EnableStage::GyrConfDelay
        ||| self == EnableStage::GyrRangeDelay
        ||| self == EnableStage::PwrCtrlDelay
    }

    /// How many requests were handed out when this stage is reached.
    pub open spec fn issued(self) -> nat {
        match self {
            EnableStage::Idle => 0,
            EnableStage::AccConf => 1,
            EnableStage::AccConfDelay => 2,
            EnableStage::AccRange => 3,
            EnableStage::AccRangeDelay => 4,
            EnableStage::GyrConf => 5,
            EnableStage::GyrConfDelay => 6,
            EnableStage::GyrRange => 7,
            EnableStage::GyrRangeDelay => 8,
            EnableStage::PwrCtrl => 9,
            EnableStage::PwrCtrlDelay => 10,
            EnableStage::Finished => 10,
        }
    }

    /// The request that is outstanding in this stage, where one is.
    pub open spec fn request(self) -> RequestView {
        match self {
            EnableStage::AccConf => write_request_spec(
                AccConf::ADDRESS,
                acc_conf_spec().encode_spec(),
            ),
            EnableStage::AccRange => write_request_spec(
                AccRange::ADDRESS,
                acc_range_spec().encode_spec(),
            ),
            EnableStage::GyrConf => write_request_spec(
                GyrConf::ADDRESS,
                gyr_conf_spec().encode_spec(),
            ),
            EnableStage::GyrRange => write_request_spec(
                GyrRange::ADDRESS,
                gyr_range_spec().encode_spec(),
            ),
            EnableStage::PwrCtrl => write_request_spec(
                PwrCtrl::ADDRESS,
                pwr_ctrl_spec().encode_spec(),
            ),
            EnableStage::Idle | EnableStage::Finished => RequestView::DelayMs(0),
            _ => RequestView::DelayMs(WRITE_DELAY_MS),
        }
    }

    /// Whether `response` can be the answer that is waited for in this stage.
    /// To begin, that is [`Response::Done`]; at the end, nothing.
    pub open spec fn expects<E>(self, response: ResponseView<E>) -> bool {
        match self {
            EnableStage::Idle => response is Done,
            EnableStage::Finished => false,
            _ => response.answers(self.request()),
        }
    }

    /// What is done with `response`: the stage that follows and the action
    /// that is handed out. A failure of the bus ends the run with that
    /// failure; after the last pause the run ends well; every other answer
    /// leads on to the next request.
    pub open spec fn step<E>(self, response: ResponseView<E>) -> (
        EnableStage,
        EnableActionView<E>,
    ) {
        match response {
            ResponseView::Failed(error) => (
                EnableStage::Finished,
                EnableActionView::Finished(Err(error)),
            ),
            _ => if self.next() == EnableStage::Finished {
                (EnableStage::Finished, EnableActionView::Finished(Ok(())))
            } else {
                (self.next(), EnableActionView::Perform(self.next().request()))
            },
        }
    }
}

/// What the owner of the bus does next.
#[derive(Debug, PartialEq, Eq)]
pub enum EnableAction<E> {
    /// Carry out this request and come back with the answer.
    Perform(Request),
    /// Nothing more: this is the result.
    Finished(Result<(), E>),
}

/// An [`EnableAction`] as a mathematical value.
pub enum EnableActionView<E> {
    Perform(RequestView),
    Finished(Result<(), E>),
}

impl<E> View for EnableAction<E> {
    type V = EnableActionView<E>;

    open spec fn view(&self) -> EnableActionView<E> {
        match self {
            EnableAction::Perform(request) => EnableActionView::Perform(request@),
            EnableAction::Finished(result) => EnableActionView::Finished(*result),
        }
    }
}

/// The state machine behind starting continuous sampling.
pub struct EnableSequencer {
    stage: EnableStage,
}

impl View for EnableSequencer {
    type V = EnableStage;

    closed spec fn view(&self) -> EnableStage {
        self.stage
    }
}

impl EnableSequencer {
    /// A sequencer that has asked nothing yet.
    pub fn new() -> (sequencer: Self)
        ensures
            sequencer@ == EnableStage::Idle,
    {
        EnableSequencer { stage: EnableStage::Idle }
    }

    /// Which request is outstanding.
    pub fn stage(&self) -> (stage: EnableStage)
        ensures
            stage == self@,
    {
        self.stage
    }

    /// Whether `response` can be the answer that the sequencer waits for.
    pub fn accepts<E>(&self, response: &Response<E>) -> (ok: bool)
        ensures
            ok == self@.expects(response@),
    {
        match self.stage {
            EnableStage::Idle => match response {
                Response::Done => true,
                _ => false,
            },
            EnableStage::Finished => false,
            EnableStage::AccConfDelay
            | EnableStage::AccRangeDelay
            | EnableStage::GyrConfDelay
            | EnableStage::GyrRangeDelay
            | EnableStage::PwrCtrlDelay => match response {
                Response::Done => true,
                _ => false,
            },
            _ => match response {
                Response::Done => true,
                Response::Data(_) => false,
                Response::Failed(_) => true,
            },
        }
    }

    /// The request of `stage`.
    fn request(stage: EnableStage) -> (request: Request)
        requires
            stage.is_waiting(),
        ensures
            request@ == stage.request(),
    {
        match stage {
            EnableStage::AccConf => write_request(
                &AccConf::default().with_acc_odr(OutputDataRate::Odr800).with_acc_filter_perf(
                    true,
                ).with_acc_bwp(AccBwp::NormAvg4),
            ),
            EnableStage::AccRange => write_request(
                &AccRange::default().with_acc_range(AccRangeMode::Range16G),
            ),
            EnableStage::GyrConf => write_request(
                &GyrConf::default().with_gyr_odr(OutputDataRate::Odr800).with_gyr_filter_perf(
                    true,
                ).with_gyr_noise_perf(false).with_gyro_bwp(GyrBwp::Norm),
            ),
            EnableStage::GyrRange => write_request(
                &GyrRange::default().with_gyr_range(GyrRangeMode::Range2000),
            ),
            EnableStage::PwrCtrl => write_request(
                &PwrCtrl::default().with_acc_en(true).with_gyr_en(true).with_temp_en(
                    true,
                ).with_aux_en(false),
            ),
            _ => Request::DelayMs(WRITE_DELAY_MS),
        }
    }

    /// Takes the answer to the outstanding request, and hands out the next
    /// request or the result. To begin, hand it [`Response::Done`].
    pub fn step<E>(&mut self, response: Response<E>) -> (action: EnableAction<E>)
        requires
            old(self)@.expects(response@),
        ensures
            (final(self)@, action@) == old(self)@.step(response@),
            action is Perform ==> final(self)@.issued() == old(self)@.issued() + 1,
            action is Finished <==> final(self)@ == EnableStage::Finished,
    {
        match response {
            Response::Failed(error) => {
                self.stage = EnableStage::Finished;
                EnableAction::Finished(Err(error))
            },
            _ => {
                let next = match self.stage {
                    EnableStage::Idle => EnableStage::AccConf,
                    EnableStage::AccConf => EnableStage::AccConfDelay,
                    EnableStage::AccConfDelay => EnableStage::AccRange,
                    EnableStage::AccRange => EnableStage::AccRangeDelay,
                    EnableStage::AccRangeDelay => EnableStage::GyrConf,
                    EnableStage::GyrConf => EnableStage::GyrConfDelay,
                    EnableStage::GyrConfDelay => EnableStage::GyrRange,
                    EnableStage::GyrRange => EnableStage::GyrRangeDelay,
                    EnableStage::GyrRangeDelay => EnableStage::PwrCtrl,
                    EnableStage::PwrCtrl => EnableStage::PwrCtrlDelay,
                    _ => EnableStage::Finished,
                };
                self.stage = next;
                if next == EnableStage::Finished {
                    EnableAction::Finished(Ok(()))
                } else {
                    EnableAction::Perform(Self::request(next))
                }
            },
        }
    }
}

} // verus!
