use mirante::logs::IoErrorKind;
use mirante::logs_observer::{after_pass, closing_message, should_stop_on, LogStreamEvent, ObserveAction, ObservePass, ObserveResult, RestartAction};

#[test]
fn observe_pass_sends_lines_until_the_stop_line() {
    let stop = Some((20i64, "done".to_owned()));
    let mut pass = ObservePass::new(Some(5));
    assert_eq!(ObserveAction::SendLine, pass.step(&LogStreamEvent::Line { time: 10, lowercase: "a".to_owned() }, &stop));
    assert_eq!(Some(10), pass.last_message_time);
    assert_eq!(ObserveAction::Next, pass.step(&LogStreamEvent::Unparsed, &stop));
    assert_eq!(ObserveAction::SendLine, pass.step(&LogStreamEvent::Line { time: 20, lowercase: "other".to_owned() }, &stop));
    assert_eq!(ObserveAction::Finish, pass.step(&LogStreamEvent::Line { time: 20, lowercase: "done".to_owned() }, &stop));
    assert_eq!(ObserveResult::StopOn, pass.result);
    assert!(should_stop_on(20, "done", &stop));
    assert!(!should_stop_on(20, "done", &None));
}

#[test]
fn observe_pass_hides_first_timeout() {
    let mut pass = ObservePass::new(None);
    let timeout = LogStreamEvent::Error { kind: IoErrorKind::TimedOut, sources: Vec::new() };
    assert_eq!(ObserveAction::Finish, pass.step(&timeout, &None));
    assert_eq!(ObserveAction::SendErrorAndFinish, pass.step(&timeout, &None));
    assert_eq!(ObserveResult::Continue, pass.result);
    assert_eq!(ObserveAction::Finish, pass.step(&LogStreamEvent::End, &None));
    assert_eq!(ObserveResult::Stop, pass.result);
    let mut pass = ObservePass::new(None);
    assert_eq!(ObserveAction::SendErrorAndFinish, pass.step(&LogStreamEvent::OpenFailed("no pod".to_owned()), &None));
}

#[test]
fn observer_retries_broken_streams() {
    assert_eq!(RestartAction::Retry, after_pass(ObserveResult::Continue, false));
    assert_eq!(RestartAction::Finish { send_closing_message: true }, after_pass(ObserveResult::Continue, true));
    assert_eq!(RestartAction::Finish { send_closing_message: true }, after_pass(ObserveResult::Stop, false));
    assert_eq!(RestartAction::Finish { send_closing_message: false }, after_pass(ObserveResult::StopOn, false));
    assert_eq!("Logs stream closed default/web-0 (app)", closing_message("default", "web-0", Some("app")));
    assert_eq!("Logs stream closed default/web-0 ()", closing_message("default", "web-0", None));
}
