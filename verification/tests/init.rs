use bingo_fc::peripheral::bmi270::bus::{Operation, Request, Response};
use bingo_fc::peripheral::bmi270::init::{
    Bmi270InitError, InitAction, InitSequencer, InitStage, CHIP_ID, CONFIG_LEN,
    MAX_STATUS_POLLS, REQUESTS_BEFORE_STATUS,
};
use bingo_fc::peripheral::bmi270::regs::InternalStatusMessage;

fn test_config() -> [u8; 328] {
    let mut config = [0u8; 328];
    for (i, byte) in config.iter_mut().enumerate() {
        *byte = (i * 7 + 3) as u8;
    }
    config
}

fn chip_id_read() -> Request {
    Request::Transaction(vec![Operation::Write(vec![0x80]), Operation::Read(2)])
}

fn status_read() -> Request {
    Request::Transaction(vec![Operation::Write(vec![0xa1]), Operation::Read(2)])
}

fn attempt_log(config: &[u8; 328]) -> Vec<Request> {
    vec![
        chip_id_read(),
        Request::DelayMs(10),
        chip_id_read(),
        Request::Write(vec![0x7c, 0x02]),
        Request::DelayMs(1),
        Request::Transaction(vec![Operation::Write(vec![0x5b]), Operation::Write(vec![0, 0])]),
        Request::Transaction(vec![Operation::Write(vec![0x5e]), Operation::Write(config.to_vec())]),
        Request::Write(vec![0x59, 0x01]),
        Request::DelayMs(200),
        status_read(),
    ]
}

/// A device that answers the identity read with `chip_id`, the n-th status
/// read with `status(n)`, and fails the request numbered `fail_at`.
fn run_init(
    max_attempts: u32,
    chip_id: u8,
    status: impl Fn(usize) -> u8,
    fail_at: Option<usize>,
) -> (Vec<Request>, Result<InternalStatusMessage, Bmi270InitError<&'static str>>) {
    let config = test_config();
    let mut sequencer = InitSequencer::new(&config, max_attempts);
    let mut log: Vec<Request> = Vec::new();
    let mut status_reads = 0;
    let mut response: Response<&'static str> = Response::Done;
    loop {
        assert!(sequencer.accepts(&response));
        match sequencer.step(response) {
            InitAction::Finished(result) => {
                assert!(sequencer.is_finished());
                assert_eq!(sequencer.stage(), InitStage::Finished);
                assert!(!sequencer.accepts(&Response::<&'static str>::Done));
                return (log, result);
            }
            InitAction::Perform(request) => {
                assert!(!sequencer.is_finished());
                response = if fail_at == Some(log.len()) {
                    Response::Failed("bus fault")
                } else if request == chip_id_read() {
                    Response::Data(vec![0xff, chip_id])
                } else if request == status_read() {
                    status_reads += 1;
                    Response::Data(vec![0xff, status(status_reads - 1)])
                } else {
                    Response::Done
                };
                log.push(request);
            }
        }
    }
}

#[test]
fn init_times_out_when_the_device_never_leaves_not_init() {
    let (log, result) = run_init(3, CHIP_ID, |_| 0x00, None);
    assert_eq!(result, Err(Bmi270InitError::Timeout));
    assert_eq!(MAX_STATUS_POLLS, 10_000);
    assert_eq!(REQUESTS_BEFORE_STATUS, 9);
    assert_eq!(log.len(), 3 * (9 + 10_000));
    assert_eq!(log.iter().filter(|request| **request == status_read()).count(), 30_000);
    let per_attempt = 9 + 10_000;
    let config = test_config();
    for attempt in 0..3 {
        let begin = attempt * per_attempt;
        assert_eq!(log[begin..begin + 10], attempt_log(&config)[..]);
        let polls = &log[begin + 10..begin + per_attempt];
        assert!(polls.iter().all(|request| *request == status_read()));
    }
}

#[test]
fn init_with_one_attempt_times_out_after_ten_thousand_status_reads() {
    let (log, result) = run_init(1, CHIP_ID, |_| 0b1111_1000, None);
    assert_eq!(result, Err(Bmi270InitError::Timeout));
    assert_eq!(log.len(), 9 + 10_000);
}

#[test]
fn init_with_no_attempt_times_out_at_once() {
    let (log, result) = run_init(0, CHIP_ID, |_| 0x01, None);
    assert_eq!(result, Err(Bmi270InitError::Timeout));
    assert!(log.is_empty());
}

#[test]
fn init_reports_init_ok_after_one_attempt_in_order() {
    let (log, result) = run_init(5, 0x24, |_| 0x01, None);
    assert_eq!(result, Ok(InternalStatusMessage::InitOk));
    assert_eq!(log, attempt_log(&test_config()));
    assert_eq!(CONFIG_LEN, 328);
}

/// The register that a request on the bus addresses: the first byte on the
/// wire, without the bit that marks a read.
fn register_addressed(request: &Request) -> Option<u8> {
    match request {
        Request::Write(bytes) => Some(bytes[0] & 0x7f),
        Request::Transaction(operations) => match &operations[0] {
            Operation::Write(header) => Some(header[0] & 0x7f),
            Operation::Read(_) => None,
        },
        Request::DelayMs(_) => None,
    }
}

#[test]
fn init_addresses_identity_power_address_data_control_status_and_nothing_between() {
    let (log, result) = run_init(1, 0x24, |_| 0x01, None);
    assert_eq!(result, Ok(InternalStatusMessage::InitOk));
    let addressed: Vec<u8> = log.iter().filter_map(register_addressed).collect();
    assert_eq!(addressed, vec![0x00, 0x00, 0x7c, 0x5b, 0x5e, 0x59, 0x21]);
    assert_eq!(
        log[5],
        Request::Transaction(vec![Operation::Write(vec![0x5b]), Operation::Write(vec![0, 0])])
    );
    let starts = log.iter().filter(|request| **request == Request::Write(vec![0x59, 0x01]));
    assert_eq!(starts.count(), 1);
    assert!(!log.contains(&Request::Write(vec![0x59, 0x00])));
}

#[test]
fn init_polls_until_the_status_leaves_not_init() {
    let (log, result) = run_init(1, CHIP_ID, |n| if n < 41 { 0x00 } else { 0x01 }, None);
    assert_eq!(result, Ok(InternalStatusMessage::InitOk));
    assert_eq!(log.len(), 9 + 42);
    assert!(log[9..].iter().all(|request| *request == status_read()));
}

#[test]
fn init_succeeds_on_the_last_status_read_of_an_attempt() {
    let (log, result) = run_init(1, CHIP_ID, |n| if n < 9_999 { 0x00 } else { 0x01 }, None);
    assert_eq!(result, Ok(InternalStatusMessage::InitOk));
    assert_eq!(log.len(), 9 + 10_000);
}

#[test]
fn init_succeeds_in_a_second_attempt() {
    let (log, result) = run_init(2, CHIP_ID, |n| if n < 10_000 { 0x00 } else { 0x01 }, None);
    assert_eq!(result, Ok(InternalStatusMessage::InitOk));
    assert_eq!(log.len(), (9 + 10_000) + 10);
    assert_eq!(log[9 + 10_000..], attempt_log(&test_config())[..]);
}

#[test]
fn init_returns_any_terminal_status_at_once() {
    let statuses = [
        (0x02u8, InternalStatusMessage::InitErr),
        (0x03, InternalStatusMessage::DrvErr),
        (0x04, InternalStatusMessage::SnsStop),
        (0x05, InternalStatusMessage::NvmError),
        (0x06, InternalStatusMessage::StartUpError),
        (0x07, InternalStatusMessage::CompatError),
        (0xf9, InternalStatusMessage::InitOk),
    ];
    for (byte, message) in statuses {
        let (log, result) = run_init(4, CHIP_ID, |_| byte, None);
        assert_eq!(result, Ok(message));
        assert_eq!(log.len(), 10);
    }
}

#[test]
fn init_reports_drv_err_on_a_wrong_identity() {
    let (log, result) = run_init(3, 0x25, |_| 0x01, None);
    assert_eq!(result, Ok(InternalStatusMessage::DrvErr));
    assert_eq!(log, vec![chip_id_read(), Request::DelayMs(10), chip_id_read()]);
}

#[test]
fn init_hands_a_bus_failure_on_and_asks_nothing_more() {
    for fail_at in [0usize, 2, 3, 5, 6, 7, 9, 10, 500] {
        let (log, result) = run_init(3, CHIP_ID, |_| 0x00, Some(fail_at));
        assert_eq!(result, Err(Bmi270InitError::SpiDevice("bus fault")));
        assert_eq!(log.len(), fail_at + 1);
    }
}

#[test]
fn init_error_is_made_from_a_bus_error() {
    assert_eq!(Bmi270InitError::from("nack"), Bmi270InitError::SpiDevice("nack"));
    assert_eq!(Bmi270InitError::from(7u8), Bmi270InitError::SpiDevice(7u8));
}

#[test]
fn init_sequencer_accepts_only_what_answers_the_outstanding_request() {
    let mut sequencer = InitSequencer::new(&test_config(), 1);
    assert_eq!(sequencer.stage(), InitStage::Idle);
    assert!(sequencer.accepts(&Response::<u8>::Done));
    assert!(!sequencer.accepts(&Response::<u8>::Failed(1)));
    assert!(!sequencer.accepts(&Response::<u8>::Data(vec![0, 0])));
    assert_eq!(sequencer.step(Response::<u8>::Done), InitAction::Perform(chip_id_read()));
    assert_eq!(sequencer.stage(), InitStage::Prime);
    assert!(!sequencer.accepts(&Response::<u8>::Done));
    assert!(!sequencer.accepts(&Response::<u8>::Data(vec![0])));
    assert!(!sequencer.accepts(&Response::<u8>::Data(vec![0, 0, 0])));
    assert!(sequencer.accepts(&Response::<u8>::Failed(1)));
    assert!(sequencer.accepts(&Response::<u8>::Data(vec![0, 0])));
    assert_eq!(
        sequencer.step(Response::<u8>::Data(vec![0x12, 0x34])),
        InitAction::Perform(Request::DelayMs(10))
    );
    assert_eq!(sequencer.stage(), InitStage::PrimeDelay);
    assert!(sequencer.accepts(&Response::<u8>::Done));
    assert!(!sequencer.accepts(&Response::<u8>::Failed(1)));
    assert!(!sequencer.accepts(&Response::<u8>::Data(vec![0, 0])));
}
