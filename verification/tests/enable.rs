use bingo_fc::peripheral::bmi270::bus::{Request, Response};
use bingo_fc::peripheral::bmi270::enable::{EnableAction, EnableSequencer, EnableStage};

fn enable_log() -> Vec<Request> {
    vec![
        Request::Write(vec![0x40, 0xab]),
        Request::DelayMs(1),
        Request::Write(vec![0x41, 0x03]),
        Request::DelayMs(1),
        Request::Write(vec![0x42, 0xab]),
        Request::DelayMs(1),
        Request::Write(vec![0x43, 0x00]),
        Request::DelayMs(1),
        Request::Write(vec![0x7d, 0x0e]),
        Request::DelayMs(1),
    ]
}

fn run_enable(fail_at: Option<usize>) -> (Vec<Request>, Result<(), &'static str>) {
    let mut sequencer = EnableSequencer::new();
    let mut log: Vec<Request> = Vec::new();
    let mut response: Response<&'static str> = Response::Done;
    loop {
        assert!(sequencer.accepts(&response));
        match sequencer.step(response) {
            EnableAction::Finished(result) => {
                assert_eq!(sequencer.stage(), EnableStage::Finished);
                assert!(!sequencer.accepts(&Response::<&'static str>::Done));
                return (log, result);
            }
            EnableAction::Perform(request) => {
                response = if fail_at == Some(log.len()) {
                    Response::Failed("bus fault")
                } else {
                    Response::Done
                };
                log.push(request);
            }
        }
    }
}

#[test]
fn enable_writes_the_five_registers_in_order_with_a_pause_after_each() {
    let (log, result) = run_enable(None);
    assert_eq!(result, Ok(()));
    assert_eq!(log, enable_log());
}

#[test]
fn enable_stops_at_the_first_bus_failure() {
    for fail_at in [0usize, 2, 4, 6, 8] {
        let (log, result) = run_enable(Some(fail_at));
        assert_eq!(result, Err("bus fault"));
        assert_eq!(log, enable_log()[..fail_at + 1].to_vec());
    }
}

#[test]
fn enable_sequencer_accepts_only_what_answers_the_outstanding_request() {
    let mut sequencer = EnableSequencer::new();
    assert_eq!(sequencer.stage(), EnableStage::Idle);
    assert!(sequencer.accepts(&Response::<u8>::Done));
    assert!(!sequencer.accepts(&Response::<u8>::Failed(0)));
    assert!(!sequencer.accepts(&Response::<u8>::Data(vec![])));
    assert_eq!(
        sequencer.step(Response::<u8>::Done),
        EnableAction::Perform(Request::Write(vec![0x40, 0xab]))
    );
    assert_eq!(sequencer.stage(), EnableStage::AccConf);
    assert!(sequencer.accepts(&Response::<u8>::Done));
    assert!(sequencer.accepts(&Response::<u8>::Failed(0)));
    assert!(!sequencer.accepts(&Response::<u8>::Data(vec![1])));
    assert_eq!(sequencer.step(Response::<u8>::Done), EnableAction::Perform(Request::DelayMs(1)));
    assert_eq!(sequencer.stage(), EnableStage::AccConfDelay);
    assert!(sequencer.accepts(&Response::<u8>::Done));
    assert!(!sequencer.accepts(&Response::<u8>::Failed(0)));
}
