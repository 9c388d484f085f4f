use rexec_time::message::{
    exit_failure_message, start_failure_message, timing_message, uptime_heading_message,
    usage_message, version_message, wait_failure_message, Message, Span, Stream, USAGE,
};
use rexec_time::paint::Tint;
use rexec_time::unit::{Elapsed, TimeUnit};

fn piece(text: &str, tint: Tint) -> Span {
    Span { text: text.to_string(), tint }
}

fn flat(message: &Message) -> String {
    message.spans.iter().map(|s| s.text.as_str()).collect()
}

#[test]
fn usage_is_one_plain_span_on_standard_output() {
    let m = usage_message();
    assert_eq!(m.stream, Stream::Stdout);
    assert_eq!(m.spans, vec![piece(USAGE, Tint::Plain)]);
}

#[test]
fn usage_text_lists_every_option() {
    let lines = vec![
        "Usage: rexec-time [args] [command] [command-args]",
        "Options:",
        "  -h, --help\t\t Show this help message and exit",
        "  -v, --version\t\t Show program version and exit",
        "  -s, --seconds\t\t Display execution time in seconds",
        "  -ms, --miliseconds\t Display execution time in miliseconds (default)",
        "  -us, --microseconds\t Display execution time in microseconds",
        "  -ns, --nanoseconds\t Display execution time in nanoseconds",
        "This program executes commands and displays execution time.",
    ];
    let mut expected = String::new();
    for line in lines {
        expected.push_str(line);
        expected.push('\n');
    }
    assert_eq!(USAGE, expected);
}

#[test]
fn version_names_program_and_author() {
    let m = version_message();
    assert_eq!(m.stream, Stream::Stdout);
    assert_eq!(
        m.spans,
        vec![
            piece("rexec-time\nVersion: 0.1.0\n\n\tby ", Tint::Plain),
            piece("Rajmani7584", Tint::GreenBold),
            piece(" ", Tint::Plain),
            piece("@Github", Tint::BlueBold),
            piece("\n", Tint::Plain),
        ]
    );
    assert_eq!(flat(&m), "rexec-time\nVersion: 0.1.0\n\n\tby Rajmani7584 @Github\n");
}

#[test]
fn uptime_heading_is_blue_and_bold() {
    let m = uptime_heading_message();
    assert_eq!(m.stream, Stream::Stdout);
    assert_eq!(
        m.spans,
        vec![piece("System Uptime:", Tint::BlueBold), piece("\n", Tint::Plain)]
    );
}

#[test]
fn timing_line_in_nanoseconds() {
    let m = timing_message(TimeUnit::Nanoseconds, Elapsed::new(0, 1_234_567).unwrap());
    assert_eq!(m.stream, Stream::Stdout);
    assert_eq!(
        m.spans,
        vec![
            piece("\n", Tint::Plain),
            piece("Execution time:", Tint::GreenBold),
            piece(" ", Tint::Plain),
            piece("1234567.000000 ns", Tint::Plain),
            piece("\n", Tint::Plain),
        ]
    );
    assert_eq!(flat(&m), "\nExecution time: 1234567.000000 ns\n");
}

#[test]
fn timing_line_in_every_unit() {
    let e = Elapsed::new(1, 250_000_000).unwrap();
    assert_eq!(
        flat(&timing_message(TimeUnit::Seconds, e)),
        "\nExecution time: 1.250000 s\n"
    );
    assert_eq!(
        flat(&timing_message(TimeUnit::Miliseconds, e)),
        "\nExecution time: 1250.000 ms\n"
    );
    assert_eq!(
        flat(&timing_message(TimeUnit::Microseconds, e)),
        "\nExecution time: 1250000.000000 μs\n"
    );
    assert_eq!(
        flat(&timing_message(TimeUnit::Nanoseconds, e)),
        "\nExecution time: 1250000000.000000 ns\n"
    );
}

#[test]
fn start_failure_names_command_and_reason() {
    let m = start_failure_message("no-such-program", "No such file or directory (os error 2)");
    assert_eq!(m.stream, Stream::Stderr);
    assert_eq!(
        m.spans,
        vec![
            piece("Error ", Tint::RedBold),
            piece("[\"", Tint::Plain),
            piece("no-such-program", Tint::Green),
            piece("\"]: ", Tint::Plain),
            piece("No such file or directory (os error 2)", Tint::Plain),
            piece("\n", Tint::Plain),
        ]
    );
    assert_eq!(
        flat(&m),
        "Error [\"no-such-program\"]: No such file or directory (os error 2)\n"
    );
}

#[test]
fn wait_failure_gives_the_reason() {
    let m = wait_failure_message("interrupted");
    assert_eq!(m.stream, Stream::Stderr);
    assert_eq!(
        m.spans,
        vec![
            piece("Failed to wait for command: ", Tint::RedBold),
            piece("interrupted", Tint::Plain),
            piece("\n", Tint::Plain),
        ]
    );
}

#[test]
fn exit_failure_names_the_code() {
    let m = exit_failure_message(Some(3));
    assert_eq!(m.stream, Stream::Stderr);
    assert_eq!(
        m.spans,
        vec![
            piece("Command execution failed. exit code: ", Tint::RedBold),
            piece("3", Tint::Plain),
            piece("\n\n", Tint::Plain),
        ]
    );
    assert_eq!(flat(&m), "Command execution failed. exit code: 3\n\n");
}

#[test]
fn exit_failure_without_a_code_reports_one() {
    let m = exit_failure_message(None);
    assert_eq!(flat(&m), "Command execution failed. exit code: 1\n\n");
}

#[test]
fn exit_failure_with_a_negative_code() {
    let m = exit_failure_message(Some(-1073741819));
    assert_eq!(flat(&m), "Command execution failed. exit code: -1073741819\n\n");
}

#[test]
fn failure_reports_hold_no_timing_label() {
    let label = piece("Execution time:", Tint::GreenBold);
    assert!(!exit_failure_message(Some(2)).spans.contains(&label));
    assert!(!start_failure_message("x", "y").spans.contains(&label));
    assert!(!wait_failure_message("y").spans.contains(&label));
    let timing = timing_message(TimeUnit::Seconds, Elapsed::new(0, 0).unwrap());
    assert_eq!(timing.spans.iter().filter(|s| **s == label).count(), 1);
}
