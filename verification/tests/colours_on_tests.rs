use rexec_time::message::{
    exit_failure_message, render, start_failure_message, timing_message, uptime_heading_message,
    version_message, Message, Span, Stream,
};
use rexec_time::paint::{paint, Tint};
use rexec_time::unit::{Elapsed, TimeUnit};

fn colours_on() {
    colored::control::set_override(true);
}

#[test]
fn painting_wraps_the_text_in_escape_sequences() {
    colours_on();
    assert_eq!(paint("x", Tint::RedBold), "\x1B[1;31mx\x1B[0m");
    assert_eq!(paint("x", Tint::Green), "\x1B[32mx\x1B[0m");
    assert_eq!(paint("x", Tint::GreenBold), "\x1B[1;32mx\x1B[0m");
    assert_eq!(paint("x", Tint::BlueBold), "\x1B[1;34mx\x1B[0m");
}

#[test]
fn plain_text_is_never_wrapped() {
    colours_on();
    assert_eq!(paint("x", Tint::Plain), "x");
    assert_eq!(paint("", Tint::Plain), "");
    assert_eq!(paint("\x1B[0m", Tint::Plain), "\x1B[0m");
}

#[test]
fn painting_empty_text_gives_the_sequences_alone() {
    colours_on();
    assert_eq!(paint("", Tint::Green), "\x1B[32m\x1B[0m");
}

#[test]
fn painting_keeps_what_stands_between_resets() {
    colours_on();
    let out = paint("a\x1B[0mb", Tint::Green);
    assert!(out.starts_with("\x1B[32m"));
    assert!(out.ends_with("\x1B[0m"));
    assert_eq!(out, "\x1B[32ma\x1B[0m\x1B[32mb\x1B[0m");
}

#[test]
fn coloured_timing_line() {
    colours_on();
    let m = timing_message(TimeUnit::Miliseconds, Elapsed::new(0, 42_000_000).unwrap());
    assert_eq!(render(&m), "\n\x1B[1;32mExecution time:\x1B[0m 42.000 ms\n");
}

#[test]
fn coloured_exit_failure() {
    colours_on();
    let m = exit_failure_message(Some(7));
    assert_eq!(
        render(&m),
        "\x1B[1;31mCommand execution failed. exit code: \x1B[0m7\n\n"
    );
}

#[test]
fn coloured_start_failure() {
    colours_on();
    let m = start_failure_message("nope", "not found");
    assert_eq!(
        render(&m),
        "\x1B[1;31mError \x1B[0m[\"\x1B[32mnope\x1B[0m\"]: not found\n"
    );
}

#[test]
fn coloured_version_and_heading() {
    colours_on();
    assert_eq!(
        render(&version_message()),
        "rexec-time\nVersion: 0.1.0\n\n\tby \x1B[1;32mRajmani7584\x1B[0m \x1B[1;34m@Github\x1B[0m\n"
    );
    assert_eq!(render(&uptime_heading_message()), "\x1B[1;34mSystem Uptime:\x1B[0m\n");
}

#[test]
fn coloured_rendering_follows_the_order_of_the_spans() {
    colours_on();
    let m = Message {
        stream: Stream::Stdout,
        spans: vec![
            Span { text: "b".to_string(), tint: Tint::BlueBold },
            Span { text: "a".to_string(), tint: Tint::Plain },
            Span { text: "c".to_string(), tint: Tint::RedBold },
        ],
    };
    assert_eq!(render(&m), "\x1B[1;34mb\x1B[0ma\x1B[1;31mc\x1B[0m");
}

#[test]
fn with_colours_each_tinted_span_is_wrapped() {
    colours_on();
    let m = start_failure_message("prog", "why");
    let pieces = rexec_time::message::paint_each(&m.spans);
    assert_eq!(
        pieces,
        vec![
            "\x1B[1;31mError \x1B[0m",
            "[\"",
            "\x1B[32mprog\x1B[0m",
            "\"]: ",
            "why",
            "\n"
        ]
    );
}
