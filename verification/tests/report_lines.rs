use leftwm_client::report::{
    failure_summary, report_reply, report_timeout, report_write_failure, Line, Stream,
};

fn out(text: &str) -> Line {
    Line { stream: Stream::Stdout, text: text.to_string() }
}

fn err(text: &str) -> Line {
    Line { stream: Stream::Stderr, text: text.to_string() }
}

#[test]
fn success_goes_to_stdout() {
    assert_eq!(report_reply("SoftReload", "OK: done"), (out("SoftReload: done"), false));
}

#[test]
fn error_goes_to_stderr_and_counts() {
    assert_eq!(
        report_reply("SendWindowToTag x", "ERROR: bad arg"),
        (err("SendWindowToTag x: bad arg"), true)
    );
}

#[test]
fn unrecognized_is_printed_whole() {
    assert_eq!(report_reply("CloseWindow", "done"), (out("CloseWindow: done"), false));
    assert_eq!(
        report_reply("CloseWindow", "maybe it worked"),
        (out("CloseWindow: maybe it worked"), false)
    );
    assert_eq!(report_reply("CloseWindow", "OK:"), (out("CloseWindow: OK:"), false));
}

#[test]
fn empty_command_and_message() {
    assert_eq!(report_reply("", "OK: "), (out(": "), false));
    assert_eq!(report_reply("", ""), (out(": "), false));
}

#[test]
fn write_failure_text() {
    assert_eq!(
        report_write_failure("Broken pipe (os error 32)"),
        err(" ERROR: Couldn't write to commands.pipe: Broken pipe (os error 32)")
    );
}

#[test]
fn timeout_text() {
    assert_eq!(
        report_timeout(),
        err(" WARN: timeout connecting to return pipe. Command may have executed, but errors will not be displayed.")
    );
}

#[test]
fn summary_text() {
    assert_eq!(failure_summary(), "one or more errors occured when parsing commands");
}
