use leftwm_client::dispatch::{Action, Dispatcher, Event, Phase, REPLY_TIMEOUT_MS};
use leftwm_client::report::{Line, Stream};

fn batch(commands: &[&str]) -> Dispatcher {
    Dispatcher::new(commands.iter().map(|c| c.to_string()).collect())
}

fn out(text: &str) -> Option<Line> {
    Some(Line { stream: Stream::Stdout, text: text.to_string() })
}

fn err(text: &str) -> Option<Line> {
    Some(Line { stream: Stream::Stderr, text: text.to_string() })
}

fn send(command: &str) -> Action {
    Action::Send(command.to_string())
}

fn reply(line: &str) -> Event {
    Event::Reply(line.to_string())
}

const WARNING: &str = " WARN: timeout connecting to return pipe. Command may have executed, but errors will not be displayed.";

#[test]
fn timeout_is_five_seconds() {
    assert_eq!(REPLY_TIMEOUT_MS, 5000);
}

#[test]
fn empty_batch_leaves_at_once() {
    let mut d = batch(&[]);
    assert_eq!(d.phase(), Phase::Finished);
    assert_eq!(d.next_action(), Action::Exit(0));
    assert_eq!(d.handle(Event::Connected), None);
    assert_eq!(d.handle(reply("ERROR: late")), None);
    assert_eq!(d.next_action(), Action::Exit(0));
    assert!(!d.has_failed());
}

#[test]
fn return_pipe_is_opened_before_the_first_send() {
    let mut d = batch(&["SoftReload"]);
    assert_eq!(d.phase(), Phase::Connecting);
    assert_eq!(d.next_action(), Action::Connect);
    assert_eq!(d.handle(Event::Written), None);
    assert_eq!(d.next_action(), Action::Connect);
    assert_eq!(d.handle(Event::Connected), None);
    assert_eq!(d.next_action(), send("SoftReload"));
}

#[test]
fn failed_setup_sends_nothing() {
    let mut d = batch(&["SoftReload", "CloseWindow"]);
    assert_eq!(d.handle(Event::ConnectFailed), None);
    assert_eq!(d.phase(), Phase::SetupFailed);
    assert_eq!(d.next_action(), Action::Exit(1));
    assert_eq!(d.handle(Event::Connected), None);
    assert_eq!(d.handle(Event::Written), None);
    assert_eq!(d.next_action(), Action::Exit(1));
    assert_eq!(d.position(), 0);
    assert!(d.has_failed());
}

#[test]
fn all_ok_prints_each_in_order_and_exits_zero() {
    let commands = ["SoftReload", "ToggleFullScreen", "CloseWindow", "NextLayout"];
    let mut d = batch(&commands);
    assert_eq!(d.handle(Event::Connected), None);
    let mut printed = Vec::new();
    for (i, command) in commands.iter().enumerate() {
        assert_eq!(d.position(), i);
        assert_eq!(d.next_action(), send(command));
        assert_eq!(d.handle(Event::Written), None);
        assert_eq!(d.next_action(), Action::Await(5000));
        printed.push(d.handle(reply("OK: done")).unwrap());
    }
    assert_eq!(d.next_action(), Action::Exit(0));
    assert_eq!(d.phase(), Phase::Finished);
    assert_eq!(printed.len(), 4);
    for (line, command) in printed.iter().zip(commands) {
        assert_eq!(line.stream, Stream::Stdout);
        assert_eq!(line.text, format!("{command}: done"));
    }
}

#[test]
fn error_in_the_middle_keeps_the_batch_going() {
    let mut d = batch(&["one", "two", "three"]);
    d.handle(Event::Connected);
    assert_eq!(d.next_action(), send("one"));
    assert_eq!(d.handle(Event::Written), None);
    assert_eq!(d.next_action(), Action::Await(5000));
    assert_eq!(d.handle(reply("OK: done")), out("one: done"));
    assert!(!d.has_failed());
    assert_eq!(d.next_action(), send("two"));
    assert_eq!(d.handle(Event::Written), None);
    assert_eq!(d.next_action(), Action::Await(5000));
    assert_eq!(d.handle(reply("ERROR: bad arg")), err("two: bad arg"));
    assert!(d.has_failed());
    assert_eq!(d.next_action(), send("three"));
    assert_eq!(d.handle(Event::Written), None);
    assert_eq!(d.next_action(), Action::Await(5000));
    assert_eq!(d.handle(reply("OK: done")), out("three: done"));
    assert!(d.has_failed());
    assert_eq!(d.next_action(), Action::Exit(1));
}

#[test]
fn timeout_ends_the_batch_with_one_warning() {
    let mut d = batch(&["one", "two", "three"]);
    d.handle(Event::Connected);
    d.handle(Event::Written);
    assert_eq!(d.handle(reply("OK: done")), out("one: done"));
    assert_eq!(d.next_action(), send("two"));
    d.handle(Event::Written);
    assert_eq!(d.handle(Event::TimedOut), err(WARNING));
    assert_eq!(d.phase(), Phase::TimedOut);
    assert_eq!(d.next_action(), Action::Exit(1));
    assert_eq!(d.position(), 1);
    assert_eq!(d.handle(Event::Written), None);
    assert_eq!(d.handle(reply("OK: done")), None);
    assert_eq!(d.handle(Event::TimedOut), None);
    assert_eq!(d.next_action(), Action::Exit(1));
    assert_eq!(d.position(), 1);
}

#[test]
fn timeout_on_the_first_command() {
    let mut d = batch(&["only"]);
    d.handle(Event::Connected);
    d.handle(Event::Written);
    assert_eq!(d.handle(Event::TimedOut), err(WARNING));
    assert_eq!(d.next_action(), Action::Exit(1));
}

#[test]
fn reply_without_space_is_printed_and_harmless() {
    let mut d = batch(&["SoftReload"]);
    d.handle(Event::Connected);
    d.handle(Event::Written);
    assert_eq!(d.handle(reply("done")), out("SoftReload: done"));
    assert!(!d.has_failed());
    assert_eq!(d.next_action(), Action::Exit(0));
}

#[test]
fn unknown_token_is_printed_whole() {
    let mut d = batch(&["SoftReload"]);
    d.handle(Event::Connected);
    d.handle(Event::Written);
    assert_eq!(d.handle(reply("WARN: something odd")), out("SoftReload: WARN: something odd"));
    assert_eq!(d.next_action(), Action::Exit(0));
}

#[test]
fn write_failure_is_not_waited_for() {
    let mut d = batch(&["one", "two"]);
    d.handle(Event::Connected);
    assert_eq!(d.next_action(), send("one"));
    assert_eq!(
        d.handle(Event::WriteFailed("Broken pipe (os error 32)".to_string())),
        err(" ERROR: Couldn't write to commands.pipe: Broken pipe (os error 32)")
    );
    assert_eq!(d.phase(), Phase::Sending);
    assert_eq!(d.position(), 1);
    assert_eq!(d.next_action(), send("two"));
    d.handle(Event::Written);
    assert_eq!(d.handle(reply("OK: done")), out("two: done"));
    assert_eq!(d.next_action(), Action::Exit(1));
}

#[test]
fn failure_never_reverts() {
    let mut d = batch(&["a", "b", "c", "d"]);
    d.handle(Event::Connected);
    d.handle(Event::Written);
    d.handle(reply("ERROR: no"));
    assert!(d.has_failed());
    for line in ["OK: yes", "fine", "OK: again"] {
        d.handle(Event::Written);
        d.handle(reply(line));
        assert!(d.has_failed());
    }
    assert_eq!(d.next_action(), Action::Exit(1));
}

#[test]
fn events_out_of_turn_change_nothing() {
    let mut d = batch(&["one"]);
    d.handle(Event::Connected);
    assert_eq!(d.handle(reply("ERROR: early")), None);
    assert_eq!(d.handle(Event::TimedOut), None);
    assert_eq!(d.handle(Event::Connected), None);
    assert_eq!(d.handle(Event::ConnectFailed), None);
    assert_eq!(d.phase(), Phase::Sending);
    assert!(!d.has_failed());
    d.handle(Event::Written);
    assert_eq!(d.handle(Event::Written), None);
    assert_eq!(d.handle(Event::WriteFailed("x".to_string())), None);
    assert_eq!(d.handle(Event::ConnectFailed), None);
    assert_eq!(d.phase(), Phase::Awaiting);
    assert_eq!(d.position(), 0);
    assert!(!d.has_failed());
}

#[test]
fn commands_are_handed_out_verbatim() {
    let odd = "LoadTheme  /tmp/my theme.ron\t\"quoted\" ünï";
    let mut d = batch(&[odd, ""]);
    d.handle(Event::Connected);
    assert_eq!(d.next_action(), send(odd));
    d.handle(Event::Written);
    assert_eq!(d.handle(reply("OK: loaded")), out(&format!("{odd}: loaded")));
    assert_eq!(d.next_action(), send(""));
}
