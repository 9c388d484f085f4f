//! What the program says: tinted pieces of text, bound for one of the two
//! output streams.

use vstd::prelude::*;
use crate::paint::paint;
use crate::paint::holds_reset;
use crate::paint::painted;
use crate::paint::reset;
use crate::paint::Tint;
use crate::text::signed_decimal;
use crate::text::signed_decimal_text;
use crate::text::texts;
use crate::unit::Elapsed;
use crate::unit::TimeUnit;

verus! {

/// The usage text.
pub const USAGE: &'static str = "Usage: rexec-time [args] [command] [command-args]\n\
Options:\n  \
-h, --help\t\t Show this help message and exit\n  \
-v, --version\t\t Show program version and exit\n  \
-s, --seconds\t\t Display execution time in seconds\n  \
-ms, --miliseconds\t Display execution time in miliseconds (default)\n  \
-us, --microseconds\t Display execution time in microseconds\n  \
-ns, --nanoseconds\t Display execution time in nanoseconds\n\
This program executes commands and displays execution time.\n";

/// A piece of text and the tint in which it is shown.
#[derive(Clone, Debug, PartialEq, Eq)]
pub struct Span {
    pub text: String,
    pub tint: Tint,
}

/// A [`Span`] as plain values.
pub struct SpanView {
    pub text: Seq<char>,
    pub tint: Tint,
}

impl View for Span {
    type V = SpanView;

    open spec fn view(&self) -> SpanView {
        SpanView { text: self.text@, tint: self.tint }
    }
}

/// The spans of a vector as plain values, in order.
pub open spec fn span_views(items: Seq<Span>) -> Seq<SpanView> {
    Seq::new(items.len(), |i: int| items[i]@)
}

/// A piece of text without a tint.
pub open spec fn plain(text: Seq<char>) -> SpanView {
    SpanView { text: text, tint: Tint::Plain }
}

/// A piece of text in a tint.
pub open spec fn tinted(text: Seq<char>, tint: Tint) -> SpanView {
    SpanView { text: text, tint: tint }
}

/// One of the two output streams.
#[derive(Clone, Copy, Debug, PartialEq, Eq, Structural)]
pub enum Stream {
    /// Standard output.
    Stdout,
    /// Standard error.
    Stderr,
}

/// Text for one stream: its spans are written one after the other, and
/// nothing is added between or after them.
#[derive(Clone, Debug, PartialEq, Eq)]
pub struct Message {
    pub stream: Stream,
    pub spans: Vec<Span>,
}

/// A [`Message`] as plain values.
pub struct MessageView {
    pub stream: Stream,
    pub spans: Seq<SpanView>,
}

impl View for Message {
    type V = MessageView;

    open spec fn view(&self) -> MessageView {
        MessageView { stream: self.stream, spans: span_views(self.spans@) }
    }
}

/// The usage text, for standard output.
pub open spec fn usage() -> MessageView {
    MessageView { stream: Stream::Stdout, spans: seq![plain(USAGE@)] }
}

/// Name, version and author of the program, for standard output.
pub open spec fn version() -> MessageView {
    MessageView {
        stream: Stream::Stdout,
        spans: seq![
            plain("rexec-time\nVersion: 0.1.0\n\n\tby "@),
            tinted("Rajmani7584"@, Tint::GreenBold),
            plain(" "@),
            tinted("@Github"@, Tint::BlueBold),
            plain("\n"@),
        ],
    }
}

/// The line that stands above the machine's uptime, for standard output.
pub open spec fn uptime_heading() -> MessageView {
    MessageView {
        stream: Stream::Stdout,
        spans: seq![tinted("System Uptime:"@, Tint::BlueBold), plain("\n"@)],
    }
}

/// The label that opens the line with the measured time.
pub open spec fn timing_label() -> SpanView {
    tinted("Execution time:"@, Tint::GreenBold)
}

/// The measured time of a command that succeeded, for standard output: an
/// empty line, then the label, a blank, and the span of `nanos` nanoseconds
/// in `unit`.
pub open spec fn timing(unit: TimeUnit, nanos: nat) -> MessageView {
    MessageView {
        stream: Stream::Stdout,
        spans: seq![
            plain("\n"@),
            timing_label(),
            plain(" "@),
            plain(unit.rendering(nanos)),
            plain("\n"@),
        ],
    }
}

/// The report that `program` could not be started, for standard error:
/// `Error ["<program>"]: <reason>`.
pub open spec fn start_failure(program: Seq<char>, reason: Seq<char>) -> MessageView {
    MessageView {
        stream: Stream::Stderr,
        spans: seq![
            tinted("Error "@, Tint::RedBold),
            plain("[\""@),
            tinted(program, Tint::Green),
            plain("\"]: "@),
            plain(reason),
            plain("\n"@),
        ],
    }
}

/// The report that the command's end could not be waited for, for standard
/// error: `Failed to wait for command: <reason>`.
pub open spec fn wait_failure(reason: Seq<char>) -> MessageView {
    MessageView {
        stream: Stream::Stderr,
        spans: seq![
            tinted("Failed to wait for command: "@, Tint::RedBold),
            plain(reason),
            plain("\n"@),
        ],
    }
}

/// The exit code that is reported: the command's own, and 1 where it has
/// none.
pub open spec fn reported_code(code: Option<i32>) -> int {
    match code {
        Some(n) => n as int,
        None => 1,
    }
}

/// The report that the command failed, for standard error:
/// `Command execution failed. exit code: <code>` and an empty line.
pub open spec fn exit_failure(code: Option<i32>) -> MessageView {
    MessageView {
        stream: Stream::Stderr,
        spans: seq![
            tinted("Command execution failed. exit code: "@, Tint::RedBold),
            plain(signed_decimal(reported_code(code))),
            plain("\n\n"@),
        ],
    }
}

/// The pieces written one after the other.
pub open spec fn joined(pieces: Seq<Seq<char>>) -> Seq<char>
    decreases pieces.len(),
{
    if pieces.len() == 0 {
        Seq::empty()
    } else {
        joined(pieces.drop_last()) + pieces.last()
    }
}

/// The texts of `spans`, in order.
pub open spec fn span_texts(spans: Seq<SpanView>) -> Seq<Seq<char>> {
    Seq::new(spans.len(), |i: int| spans[i].text)
}

/// The texts of `spans` one after the other, without any tint.
pub open spec fn plain_text(spans: Seq<SpanView>) -> Seq<char> {
    joined(span_texts(spans))
}

/// Whether `pieces` may come of painting `spans`: one piece for each span,
/// which is the span's text painted in its tint.
pub open spec fn paints(spans: Seq<SpanView>, pieces: Seq<Seq<char>>) -> bool {
    &&& pieces.len() == spans.len()
    &&& forall|i: int|
        0 <= i < spans.len() ==> painted(spans[i].text, spans[i].tint, #[trigger] pieces[i])
}

/// What writing `spans` to a terminal may give: the spans' texts in order,
/// each one painted in its tint.
pub open spec fn rendered(spans: Seq<SpanView>, out: Seq<char>) -> bool {
    exists|pieces: Seq<Seq<char>>| #[trigger] paints(spans, pieces) && out == joined(pieces)
}

/// Whether `part` stands somewhere in `whole`, unbroken.
pub open spec fn stands_in(part: Seq<char>, whole: Seq<char>) -> bool {
    exists|before: Seq<char>, after: Seq<char>| whole == #[trigger] (before + part + after)
}

/// A part of a part is a part of the whole.
pub proof fn lemma_stands_in_is_transitive(a: Seq<char>, b: Seq<char>, c: Seq<char>)
    requires
        stands_in(a, b),
        stands_in(b, c),
    ensures
        stands_in(a, c),
{
    let (p, q): (Seq<char>, Seq<char>) = choose|p: Seq<char>, q: Seq<char>|
        b == #[trigger] (p + a + q);
    let (u, v): (Seq<char>, Seq<char>) = choose|u: Seq<char>, v: Seq<char>|
        c == #[trigger] (u + b + v);
    assert(c =~= (u + p) + a + (q + v));
}

/// Each piece stands in what the pieces are joined to.
pub proof fn lemma_piece_stands_in_joined(pieces: Seq<Seq<char>>, k: int)
    requires
        0 <= k < pieces.len(),
    ensures
        stands_in(pieces[k], joined(pieces)),
    decreases pieces.len(),
{
    let rest = pieces.drop_last();
    if k == pieces.len() - 1 {
        assert(joined(pieces) =~= joined(rest) + pieces[k] + Seq::<char>::empty());
    } else {
        assert(rest[k] == pieces[k]);
        lemma_piece_stands_in_joined(rest, k);
        let (before, after): (Seq<char>, Seq<char>) = choose|before: Seq<char>, after: Seq<char>|
            joined(rest) == #[trigger] (before + pieces[k] + after);
        assert(joined(pieces) =~= before + pieces[k] + (after + pieces.last()));
    }
}

/// Without colours a message reads as its plain text: that text is one of
/// the ways in which the spans may come out.
pub proof fn lemma_plain_text_is_a_rendering(spans: Seq<SpanView>)
    ensures
        rendered(spans, plain_text(spans)),
{
    assert(paints(spans, span_texts(spans)));
}

/// Spans without a tint come out as they are written, whether colours are
/// on or off.
pub proof fn lemma_plain_spans_render_as_written(spans: Seq<SpanView>, out: Seq<char>)
    requires
        rendered(spans, out),
        forall|i: int| 0 <= i < spans.len() ==> (#[trigger] spans[i]).tint == Tint::Plain,
    ensures
        out == plain_text(spans),
{
    let pieces = choose|pieces: Seq<Seq<char>>| #[trigger]
        paints(spans, pieces) && out == joined(pieces);
    assert forall|i: int| 0 <= i < spans.len() implies #[trigger] pieces[i] == span_texts(
        spans,
    )[i] by {
        assert(spans[i].tint == Tint::Plain);
    }
    assert(pieces =~= span_texts(spans));
}

/// Colours never swallow text: however the spans come out, the text of a
/// plain span stands in the result, and so does that of a tinted span which
/// holds no reset sequence of its own.
pub proof fn lemma_span_stands_in_rendering(spans: Seq<SpanView>, k: int, out: Seq<char>)
    requires
        rendered(spans, out),
        0 <= k < spans.len(),
        spans[k].tint == Tint::Plain || !holds_reset(spans[k].text),
    ensures
        stands_in(spans[k].text, out),
{
    let pieces = choose|pieces: Seq<Seq<char>>| #[trigger]
        paints(spans, pieces) && out == joined(pieces);
    let text = spans[k].text;
    let piece = pieces[k];
    assert(painted(text, spans[k].tint, piece));
    if piece == text {
        assert(piece =~= Seq::<char>::empty() + text + Seq::<char>::empty());
    } else {
        let body = choose|body: Seq<char>|
            piece == #[trigger] (spans[k].tint.opening() + body) + reset() && (!holds_reset(text)
                ==> body == text);
        assert(piece =~= spans[k].tint.opening() + text + reset());
    }
    lemma_piece_stands_in_joined(pieces, k);
    lemma_stands_in_is_transitive(text, piece, out);
}

/// The label of the timing line holds no escape sequence.
pub proof fn lemma_timing_label_is_clean()
    ensures
        !holds_reset(timing_label().text),
{
    reveal_strlit("Execution time:");
    reveal_strlit("\x1B[0m");
    let label = "Execution time:"@;
    assert forall|i: int| 0 <= i && i + reset().len() <= label.len() implies #[trigger] label.subrange(
        i,
        i + reset().len(),
    ) != reset() by {
        assert(label.subrange(i, i + reset().len())[0] == label[i]);
        assert(reset()[0] == '\x1B');
    }
}

/// The timing line shows its label and the time: both stand in it however it
/// comes out, and the label is the second of its spans and no other.
pub proof fn lemma_timing_shows_label_and_time(unit: TimeUnit, nanos: nat, out: Seq<char>)
    requires
        rendered(timing(unit, nanos).spans, out),
    ensures
        timing(unit, nanos).stream == Stream::Stdout,
        stands_in("Execution time:"@, out),
        stands_in(unit.rendering(nanos), out),
        forall|i: int|
            0 <= i < timing(unit, nanos).spans.len() ==> (#[trigger] timing(unit, nanos).spans[i]
                == timing_label() <==> i == 1),
{
    let spans = timing(unit, nanos).spans;
    lemma_timing_label_is_clean();
    assert(spans[1] == timing_label());
    lemma_span_stands_in_rendering(spans, 1, out);
    assert(spans[3].text == unit.rendering(nanos));
    lemma_span_stands_in_rendering(spans, 3, out);
}

/// The report of a failed command goes to standard error and names the exit
/// code, 1 where the command has none: the code stands in the report however
/// it comes out. The report is no timing line: none of its spans is the
/// timing label.
pub proof fn lemma_exit_failure_names_the_code(code: Option<i32>, out: Seq<char>)
    requires
        rendered(exit_failure(code).spans, out),
    ensures
        exit_failure(code).stream == Stream::Stderr,
        stands_in(signed_decimal(reported_code(code)), out),
        !exit_failure(code).spans.contains(timing_label()),
{
    let spans = exit_failure(code).spans;
    assert(spans[1].text == signed_decimal(reported_code(code)));
    lemma_span_stands_in_rendering(spans, 1, out);
}

/// The report of a command that could not be started goes to standard error
/// and gives the platform's reason, and it names the command where the
/// command's name holds no reset sequence. The report is no timing line.
pub proof fn lemma_start_failure_names_the_command(
    program: Seq<char>,
    reason: Seq<char>,
    out: Seq<char>,
)
    requires
        rendered(start_failure(program, reason).spans, out),
    ensures
        start_failure(program, reason).stream == Stream::Stderr,
        stands_in(reason, out),
        !holds_reset(program) ==> stands_in(program, out),
        !start_failure(program, reason).spans.contains(timing_label()),
{
    let spans = start_failure(program, reason).spans;
    assert(spans[4].text == reason);
    lemma_span_stands_in_rendering(spans, 4, out);
    if !holds_reset(program) {
        assert(spans[2].text == program);
        lemma_span_stands_in_rendering(spans, 2, out);
    }
    assert(spans[0].tint == Tint::RedBold);
    assert(spans[2].tint == Tint::Green);
}

/// The report that waiting failed goes to standard error and gives the
/// platform's reason. The report is no timing line.
pub proof fn lemma_wait_failure_gives_the_reason(reason: Seq<char>, out: Seq<char>)
    requires
        rendered(wait_failure(reason).spans, out),
    ensures
        wait_failure(reason).stream == Stream::Stderr,
        stands_in(reason, out),
        !wait_failure(reason).spans.contains(timing_label()),
{
    let spans = wait_failure(reason).spans;
    assert(spans[1].text == reason);
    lemma_span_stands_in_rendering(spans, 1, out);
}

fn span(text: &str, tint: Tint) -> (made: Span)
    ensures
        made@ == tinted(text@, tint),
{
    Span { text: String::from_str(text), tint }
}

fn text_span(text: String) -> (made: Span)
    ensures
        made@ == plain(text@),
{
    Span { text, tint: Tint::Plain }
}

/// The usage text.
pub fn usage_message() -> (message: Message)
    ensures
        message@ == usage(),
{
    let mut spans: Vec<Span> = Vec::new();
    spans.push(span(USAGE, Tint::Plain));
    assert(span_views(spans@) =~= usage().spans);
    Message { stream: Stream::Stdout, spans }
}

/// Name, version and author of the program.
pub fn version_message() -> (message: Message)
    ensures
        message@ == version(),
{
    let mut spans: Vec<Span> = Vec::new();
    spans.push(span("rexec-time\nVersion: 0.1.0\n\n\tby ", Tint::Plain));
    spans.push(span("Rajmani7584", Tint::GreenBold));
    spans.push(span(" ", Tint::Plain));
    spans.push(span("@Github", Tint::BlueBold));
    spans.push(span("\n", Tint::Plain));
    assert(span_views(spans@) =~= version().spans);
    Message { stream: Stream::Stdout, spans }
}

/// The line that stands above the machine's uptime.
pub fn uptime_heading_message() -> (message: Message)
    ensures
        message@ == uptime_heading(),
{
    let mut spans: Vec<Span> = Vec::new();
    spans.push(span("System Uptime:", Tint::BlueBold));
    spans.push(span("\n", Tint::Plain));
    assert(span_views(spans@) =~= uptime_heading().spans);
    Message { stream: Stream::Stdout, spans }
}

/// The measured time of a command that succeeded, in `unit`.
pub fn timing_message(unit: TimeUnit, elapsed: Elapsed) -> (message: Message)
    ensures
        message@ == timing(unit, elapsed@),
{
    let mut spans: Vec<Span> = Vec::new();
    spans.push(span("\n", Tint::Plain));
    spans.push(span("Execution time:", Tint::GreenBold));
    spans.push(span(" ", Tint::Plain));
    spans.push(text_span(unit.to_string(elapsed)));
    spans.push(span("\n", Tint::Plain));
    assert(span_views(spans@) =~= timing(unit, elapsed@).spans);
    Message { stream: Stream::Stdout, spans }
}

/// The report that `program` could not be started, with the platform's
/// `reason`.
pub fn start_failure_message(program: &str, reason: &str) -> (message: Message)
    ensures
        message@ == start_failure(program@, reason@),
{
    let mut spans: Vec<Span> = Vec::new();
    spans.push(span("Error ", Tint::RedBold));
    spans.push(span("[\"", Tint::Plain));
    spans.push(span(program, Tint::Green));
    spans.push(span("\"]: ", Tint::Plain));
    spans.push(span(reason, Tint::Plain));
    spans.push(span("\n", Tint::Plain));
    assert(span_views(spans@) =~= start_failure(program@, reason@).spans);
    Message { stream: Stream::Stderr, spans }
}

/// The report that the command's end could not be waited for, with the
/// platform's `reason`.
pub fn wait_failure_message(reason: &str) -> (message: Message)
    ensures
        message@ == wait_failure(reason@),
{
    let mut spans: Vec<Span> = Vec::new();
    spans.push(span("Failed to wait for command: ", Tint::RedBold));
    spans.push(span(reason, Tint::Plain));
    spans.push(span("\n", Tint::Plain));
    assert(span_views(spans@) =~= wait_failure(reason@).spans);
    Message { stream: Stream::Stderr, spans }
}

/// The report that the command failed with `code`, or with no code at all.
pub fn exit_failure_message(code: Option<i32>) -> (message: Message)
    ensures
        message@ == exit_failure(code),
{
    let shown: i32 = match code {
        Some(n) => n,
        None => 1,
    };
    let mut spans: Vec<Span> = Vec::new();
    spans.push(span("Command execution failed. exit code: ", Tint::RedBold));
    spans.push(text_span(signed_decimal_text(shown)));
    spans.push(span("\n\n", Tint::Plain));
    assert(span_views(spans@) =~= exit_failure(code).spans);
    Message { stream: Stream::Stderr, spans }
}

/// Writes the pieces one after the other.
pub fn join(pieces: &Vec<String>) -> (out: String)
    ensures
        out@ == joined(texts(pieces@)),
{
    let ghost all = texts(pieces@);
    let mut out = String::new();
    let mut i: usize = 0;
    assert(all.take(0) =~= Seq::empty());
    while i < pieces.len()
        invariant
            i <= pieces.len(),
            all == texts(pieces@),
            out@ == joined(all.take(i as int)),
        decreases pieces.len() - i,
    {
        out.append(pieces[i].as_str());
        proof {
            let seen = all.take(i + 1);
            assert(seen.drop_last() =~= all.take(i as int));
            assert(seen.last() == pieces@[i as int]@);
        }
        i = i + 1;
    }
    assert(all.take(i as int) =~= all);
    out
}

/// Paints each span in its tint for the terminal.
pub fn paint_each(spans: &Vec<Span>) -> (pieces: Vec<String>)
    ensures
        paints(span_views(spans@), texts(pieces@)),
{
    let mut pieces: Vec<String> = Vec::new();
    let mut i: usize = 0;
    while i < spans.len()
        invariant
            i <= spans.len(),
            pieces.len() == i,
            forall|k: int|
                0 <= k < i ==> painted(spans@[k]@.text, spans@[k]@.tint, #[trigger] pieces@[k]@),
        decreases spans.len() - i,
    {
        pieces.push(paint(spans[i].text.as_str(), spans[i].tint));
        i = i + 1;
    }
    assert forall|k: int| 0 <= k < spans.len() implies painted(
        span_views(spans@)[k].text,
        span_views(spans@)[k].tint,
        #[trigger] texts(pieces@)[k],
    ) by {
        assert(texts(pieces@)[k] == pieces@[k]@);
    }
    pieces
}

/// Writes a message out for the terminal: its spans in order, each painted
/// in its tint.
pub fn render(message: &Message) -> (out: String)
    ensures
        rendered(message@.spans, out@),
{
    let pieces = paint_each(&message.spans);
    join(&pieces)
}

} // verus!
