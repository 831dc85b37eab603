use jaw::cli::{Claimy, ErrorKind, Input, Reader};
use std::collections::VecDeque;
use std::io;

/// A line source that replays queued answers and counts how often it is asked.
struct Mock {
    queue: VecDeque<Result<String, io::ErrorKind>>,
    calls: usize,
}

impl Mock {
    fn new() -> Mock {
        Mock { queue: VecDeque::new(), calls: 0 }
    }

    fn add_value(&mut self, line: String) {
        self.queue.push_back(Ok(line));
    }

    fn add_failure(&mut self, kind: io::ErrorKind) {
        self.queue.push_back(Err(kind));
    }

    fn calls(&self) -> usize {
        self.calls
    }
}

impl Reader for Mock {
    fn read_string(&mut self) -> Result<String, io::Error> {
        self.calls += 1;
        match self.queue.pop_front() {
            Some(Ok(line)) => Ok(line),
            Some(Err(kind)) => Err(io::Error::from(kind)),
            None => panic!("the script has no answer left"),
        }
    }
}

impl Default for Mock {
    fn default() -> Mock {
        Mock::new()
    }
}

fn create_stdin_mock() -> Mock {
    Mock::new()
}

fn parse_u8(s: &str) -> Result<u8, std::num::ParseIntError> {
    s.parse::<u8>()
}

fn hundreds(s: &str) -> Result<(), String> {
    match s.parse::<u16>() {
        Ok(n) if n % 100 == 0 => Ok(()),
        Ok(_) => Err("please type 100".to_string()),
        Err(err) => Err(err.to_string()),
    }
}

#[test]
fn should_get_bool_input() {
    let mut stdin_mock = create_stdin_mock();
    stdin_mock.add_value("true".into());
    stdin_mock.add_value("false".into());
    let mut input = Input::new(stdin_mock);
    let input_result = input.read();
    assert!(input_result.is_ok());
    assert_eq!(input_result.unwrap().parse::<bool>().unwrap(), true);
}

#[test]
fn should_fail_on_wrong_input() {
    let mut stdin_mock = Mock::new();
    stdin_mock.add_value("no, i don't have to type what you want!".to_string());
    let mut input = Input::new(stdin_mock);
    let input_result = input.demand(|s| {
        return s.parse::<u8>();
    });
    assert!(input_result.is_err());
    assert_eq!(
        &ErrorKind::InputRequirementError,
        input_result.err().unwrap().kind()
    );
}

#[test]
fn should_satisfy_input_demand() {
    let mut stdin_mock = Mock::new();
    stdin_mock.add_value("10".to_string());
    let mut input = Input::new(stdin_mock);
    let input_result = input.demand(|s| {
        return s.parse::<u8>();
    });
    assert!(input_result.is_ok());
}

#[test]
fn should_succeed_on_third_attempt() {
    let mut stdin_mock = create_stdin_mock();
    stdin_mock.add_value("what?".into());
    stdin_mock.add_value("1".into());
    stdin_mock.add_value("100".into());
    let mut input = Input::new(stdin_mock);
    let input_res = input.demand_until(
        |s| match s.parse::<u16>() {
            Ok(n) if n % 100 == 0 => {
                return Ok(());
            }
            Ok(_) => Err("please type 100".to_string()),
            Err(err) => Err(err.to_string()),
        },
        Some(3),
    );
    assert!(input_res.is_ok());
    assert!(input.reader().calls() == 3);
}

#[test]
fn read_returns_the_line_unchanged() {
    let mut mock = Mock::new();
    mock.add_value("  spaced\tout \n".to_string());
    let mut input = Input::new(mock);
    assert_eq!(input.read().unwrap(), "  spaced\tout \n");
    assert_eq!(input.reader().calls(), 1);
}

#[test]
fn read_consumes_one_line_per_call() {
    let mut mock = Mock::new();
    mock.add_value("true".to_string());
    mock.add_value("false".to_string());
    let mut input = Input::new(mock);
    assert_eq!(input.read().unwrap(), "true");
    assert_eq!(input.reader().calls(), 1);
    assert_eq!(input.read().unwrap(), "false");
    assert_eq!(input.reader().calls(), 2);
}

#[test]
fn read_reports_a_failing_source() {
    let mut mock = Mock::new();
    mock.add_failure(io::ErrorKind::UnexpectedEof);
    let mut input = Input::new(mock);
    let err = input.read().unwrap_err();
    assert_eq!(err.kind(), &ErrorKind::IoError);
    assert_eq!(err.message(), io::Error::from(io::ErrorKind::UnexpectedEof).to_string());
    assert_eq!(input.reader().calls(), 1);
}

#[test]
fn demand_returns_the_raw_line() {
    let mut mock = Mock::new();
    mock.add_value("10".to_string());
    let mut input = Input::new(mock);
    assert_eq!(input.demand(parse_u8).unwrap(), "10");
    assert_eq!(input.reader().calls(), 1);
}

#[test]
fn demand_rejection_carries_the_reason() {
    let mut mock = Mock::new();
    mock.add_value("no, not a number".to_string());
    let mut input = Input::new(mock);
    let err = input.demand(|_s| Err::<(), &str>("numbers only")).unwrap_err();
    assert_eq!(err.kind(), &ErrorKind::InputRequirementError);
    assert_eq!(err.message(), "wrong input. numbers only");
    assert_eq!(input.reader().calls(), 1);
}

#[test]
fn demand_rejection_shows_the_parse_error() {
    let mut mock = Mock::new();
    mock.add_value("no, not a number".to_string());
    let mut input = Input::new(mock);
    let err = input.demand(parse_u8).unwrap_err();
    assert_eq!(err.kind(), &ErrorKind::InputRequirementError);
    let reason = "x".parse::<u8>().unwrap_err().to_string();
    assert_eq!(err.message(), format!("wrong input. {}", reason));
}

#[test]
fn demand_passes_on_a_failing_source() {
    let mut mock = Mock::new();
    mock.add_failure(io::ErrorKind::BrokenPipe);
    let mut input = Input::new(mock);
    let err = input.demand(parse_u8).unwrap_err();
    assert_eq!(err.kind(), &ErrorKind::IoError);
    assert_eq!(err.message(), io::Error::from(io::ErrorKind::BrokenPipe).to_string());
    assert_eq!(input.reader().calls(), 1);
}

#[test]
fn demand_until_returns_the_accepted_line() {
    let mut mock = Mock::new();
    mock.add_value("what?".to_string());
    mock.add_value("1".to_string());
    mock.add_value("100".to_string());
    let mut input = Input::new(mock);
    assert_eq!(input.demand_until(hundreds, Some(3)).unwrap(), "100");
    assert_eq!(input.reader().calls(), 3);
}

#[test]
fn demand_until_stops_at_the_first_accepted_line() {
    let mut mock = Mock::new();
    mock.add_value("7".to_string());
    mock.add_value("200".to_string());
    mock.add_value("300".to_string());
    let mut input = Input::new(mock);
    assert_eq!(input.demand_until(hundreds, Some(5)).unwrap(), "200");
    assert_eq!(input.reader().calls(), 2);
    assert_eq!(input.read().unwrap(), "300");
}

#[test]
fn demand_until_accepts_on_the_first_attempt() {
    let mut mock = Mock::new();
    mock.add_value("100".to_string());
    let mut input = Input::new(mock);
    assert_eq!(input.demand_until(hundreds, Some(1)).unwrap(), "100");
    assert_eq!(input.reader().calls(), 1);
}

#[test]
fn demand_until_gives_up_after_the_bound() {
    let mut mock = Mock::new();
    mock.add_value("what?".to_string());
    mock.add_value("1".to_string());
    mock.add_value("100".to_string());
    let mut input = Input::new(mock);
    let err = input.demand_until(hundreds, Some(2)).unwrap_err();
    assert_eq!(err.kind(), &ErrorKind::AttemptsExceedError);
    assert_eq!(err.message(), "attempts to read input were failed. please type 100");
    assert_eq!(input.reader().calls(), 2);
}

#[test]
fn demand_until_keeps_only_the_last_reason() {
    let mut mock = Mock::new();
    mock.add_value("1".to_string());
    mock.add_value("2".to_string());
    mock.add_value("what?".to_string());
    let mut input = Input::new(mock);
    let err = input.demand_until(hundreds, Some(3)).unwrap_err();
    assert_eq!(err.kind(), &ErrorKind::AttemptsExceedError);
    let reason = "what?".parse::<u16>().unwrap_err().to_string();
    assert_eq!(err.message(), format!("attempts to read input were failed. {}", reason));
    assert_eq!(input.reader().calls(), 3);
}

#[test]
fn demand_until_defaults_to_three_attempts() {
    let mut mock = Mock::new();
    for line in ["1", "2", "3", "400"] {
        mock.add_value(line.to_string());
    }
    let mut input = Input::new(mock);
    let err = input.demand_until(hundreds, None).unwrap_err();
    assert_eq!(err.kind(), &ErrorKind::AttemptsExceedError);
    assert_eq!(input.reader().calls(), 3);

    let mut mock = Mock::new();
    for line in ["1", "2", "3", "400"] {
        mock.add_value(line.to_string());
    }
    let mut input = Input::new(mock);
    let explicit = input.demand_until(hundreds, Some(3)).unwrap_err();
    assert_eq!(explicit.kind(), err.kind());
    assert_eq!(explicit.message(), err.message());
    assert_eq!(input.reader().calls(), 3);
}

#[test]
fn demand_until_default_accepts_the_third_line() {
    let mut mock = Mock::new();
    for line in ["1", "2", "300"] {
        mock.add_value(line.to_string());
    }
    let mut input = Input::new(mock);
    assert_eq!(input.demand_until(hundreds, None).unwrap(), "300");
    assert_eq!(input.reader().calls(), 3);
}

#[test]
fn demand_until_stops_at_a_failing_source() {
    let mut mock = Mock::new();
    mock.add_value("1".to_string());
    mock.add_failure(io::ErrorKind::UnexpectedEof);
    mock.add_value("100".to_string());
    let mut input = Input::new(mock);
    let err = input.demand_until(hundreds, Some(3)).unwrap_err();
    assert_eq!(err.kind(), &ErrorKind::IoError);
    assert_eq!(err.message(), io::Error::from(io::ErrorKind::UnexpectedEof).to_string());
    assert_eq!(input.reader().calls(), 2);
}

#[test]
fn demand_until_fails_at_once_when_the_first_read_fails() {
    let mut mock = Mock::new();
    mock.add_failure(io::ErrorKind::Other);
    let mut input = Input::new(mock);
    let err = input.demand_until(hundreds, None).unwrap_err();
    assert_eq!(err.kind(), &ErrorKind::IoError);
    assert_eq!(input.reader().calls(), 1);
}

#[test]
fn demand_until_with_no_attempts_reads_nothing() {
    let mut mock = Mock::new();
    mock.add_value("100".to_string());
    let mut input = Input::new(mock);
    let err = input.demand_until(hundreds, Some(0)).unwrap_err();
    assert_eq!(err.kind(), &ErrorKind::AttemptsExceedError);
    assert_eq!(err.message(), "attempts to read input were failed. ");
    assert_eq!(input.reader().calls(), 0);
}

#[test]
fn demand_until_allows_the_largest_bound() {
    let mut mock = Mock::new();
    for _ in 0..254 {
        mock.add_value("1".to_string());
    }
    mock.add_value("500".to_string());
    let mut input = Input::new(mock);
    assert_eq!(input.demand_until(hundreds, Some(255)).unwrap(), "500");
    assert_eq!(input.reader().calls(), 255);
}

#[test]
fn error_kinds_are_told_apart() {
    assert_ne!(ErrorKind::IoError, ErrorKind::AttemptsExceedError);
    assert_ne!(ErrorKind::IoError, ErrorKind::InputRequirementError);
    assert_ne!(ErrorKind::AttemptsExceedError, ErrorKind::InputRequirementError);
}

#[test]
fn reader_gives_back_the_wrapped_source() {
    let mut mock = Mock::new();
    mock.add_value("kept".to_string());
    let input = Input::new(mock);
    assert_eq!(input.reader().calls(), 0);
    assert_eq!(input.reader().queue.len(), 1);
}

#[test]
fn default_wraps_the_default_source() {
    let input: Input<Mock> = Input::default();
    assert_eq!(input.reader().calls(), 0);
    assert_eq!(input.reader().queue.len(), 0);
}

#[test]
fn demand_drops_the_value_of_the_validator() {
    let mut mock = Mock::new();
    mock.add_value("007".to_string());
    let mut input = Input::new(mock);
    assert_eq!(input.demand(parse_u8).unwrap(), "007");
}

#[test]
fn reads_share_one_source() {
    let mut mock = Mock::new();
    for line in ["first", "x", "200", "last"] {
        mock.add_value(line.to_string());
    }
    let mut input = Input::new(mock);
    assert_eq!(input.read().unwrap(), "first");
    assert_eq!(input.demand(parse_u8).unwrap_err().kind(), &ErrorKind::InputRequirementError);
    assert_eq!(input.demand_until(hundreds, None).unwrap(), "200");
    assert_eq!(input.read().unwrap(), "last");
    assert_eq!(input.reader().calls(), 4);
}
