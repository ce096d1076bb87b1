use noti::config::Redirect;
use noti::config::Stream;
use noti::error::Error;
use noti::stream::StreamProcessor;

fn stream(matching: Option<&str>, redirect: Option<Redirect>) -> Stream {
    Stream {
        enabled: true,
        matching: matching.map(|p| p.to_string()),
        redirect,
    }
}

const LINES: [&str; 3] = ["info", "ERROR: disk full", "ok"];

#[test]
fn filter_dispatches_exactly_the_matching_line() {
    let processor = StreamProcessor::new(&stream(Some("^ERROR:.*"), None)).unwrap();
    let messages: Vec<String> = LINES
        .iter()
        .filter_map(|line| processor.step(line).message)
        .collect();
    assert_eq!(messages, vec!["ERROR: disk full".to_string()]);
}

#[test]
fn filter_dispatches_the_overall_match_span() {
    let processor = StreamProcessor::new(&stream(Some("^ERROR:"), None)).unwrap();
    let messages: Vec<String> = LINES
        .iter()
        .filter_map(|line| processor.step(line).message)
        .collect();
    assert_eq!(messages, vec!["ERROR:".to_string()]);
}

#[test]
fn every_line_is_echoed_regardless_of_matching() {
    let processor =
        StreamProcessor::new(&stream(Some("^ERROR:"), Some(Redirect::Stdout))).unwrap();
    for line in LINES {
        assert_eq!(processor.step(line).echo, Some(Redirect::Stdout));
    }
}

#[test]
fn echo_target_can_be_stderr_or_absent() {
    let to_stderr = StreamProcessor::new(&stream(None, Some(Redirect::Stderr))).unwrap();
    assert_eq!(to_stderr.step("x").echo, Some(Redirect::Stderr));
    let no_echo = StreamProcessor::new(&stream(None, None)).unwrap();
    assert_eq!(no_echo.step("x").echo, None);
}

#[test]
fn without_filter_the_raw_line_is_dispatched() {
    let processor = StreamProcessor::new(&stream(None, None)).unwrap();
    for line in LINES {
        assert_eq!(processor.step(line).message, Some(line.to_string()));
    }
}

#[test]
fn invalid_pattern_is_a_fatal_configuration_error() {
    match StreamProcessor::new(&stream(Some("["), None)) {
        Err(Error::Regex(text)) => assert!(!text.is_empty()),
        _ => panic!("expected a regex configuration error"),
    }
}
