use rexec_time::message::{
    exit_failure_message, render, start_failure_message, timing_message, uptime_heading_message,
    usage_message, version_message, wait_failure_message, Message, Stream, USAGE,
};
use rexec_time::paint::{paint, Tint};
use rexec_time::unit::{Elapsed, TimeUnit};

fn colours_off() {
    colored::control::set_override(false);
}

#[test]
fn without_colours_painting_gives_the_text_back() {
    colours_off();
    assert_eq!(paint("x", Tint::RedBold), "x");
    assert_eq!(paint("x", Tint::Green), "x");
    assert_eq!(paint("x", Tint::GreenBold), "x");
    assert_eq!(paint("x", Tint::BlueBold), "x");
    assert_eq!(paint("x", Tint::Plain), "x");
    assert_eq!(paint("a\x1B[0mb", Tint::Green), "a\x1B[0mb");
}

#[test]
fn plain_timing_line() {
    colours_off();
    let m = timing_message(TimeUnit::Nanoseconds, Elapsed::new(0, 1_500).unwrap());
    assert_eq!(render(&m), "\nExecution time: 1500.000000 ns\n");
}

#[test]
fn plain_timing_line_holds_the_label_once() {
    colours_off();
    let m = timing_message(TimeUnit::Seconds, Elapsed::new(2, 0).unwrap());
    let out = render(&m);
    assert_eq!(out.matches("Execution time:").count(), 1);
    assert_eq!(out, "\nExecution time: 2.000000 s\n");
}

#[test]
fn plain_exit_failure() {
    colours_off();
    assert_eq!(
        render(&exit_failure_message(Some(42))),
        "Command execution failed. exit code: 42\n\n"
    );
    assert_eq!(
        render(&exit_failure_message(None)),
        "Command execution failed. exit code: 1\n\n"
    );
}

#[test]
fn plain_start_failure() {
    colours_off();
    assert_eq!(
        render(&start_failure_message("nope", "No such file or directory (os error 2)")),
        "Error [\"nope\"]: No such file or directory (os error 2)\n"
    );
}

#[test]
fn plain_wait_failure() {
    colours_off();
    assert_eq!(
        render(&wait_failure_message("no child")),
        "Failed to wait for command: no child\n"
    );
}

#[test]
fn plain_usage_version_and_heading() {
    colours_off();
    assert_eq!(render(&usage_message()), USAGE);
    assert_eq!(
        render(&version_message()),
        "rexec-time\nVersion: 0.1.0\n\n\tby Rajmani7584 @Github\n"
    );
    assert_eq!(render(&uptime_heading_message()), "System Uptime:\n");
}

#[test]
fn message_without_spans_renders_as_nothing() {
    colours_off();
    let m = Message { stream: Stream::Stderr, spans: Vec::new() };
    assert_eq!(render(&m), "");
}

#[test]
fn joining_writes_the_pieces_in_order() {
    let pieces = vec!["ab".to_string(), "".to_string(), "μ".to_string(), "c\n".to_string()];
    assert_eq!(rexec_time::message::join(&pieces), "abμc\n");
    assert_eq!(rexec_time::message::join(&Vec::new()), "");
}

#[test]
fn without_colours_each_span_comes_out_as_its_text() {
    colours_off();
    let m = start_failure_message("prog", "why");
    let pieces = rexec_time::message::paint_each(&m.spans);
    assert_eq!(pieces, vec!["Error ", "[\"", "prog", "\"]: ", "why", "\n"]);
}
