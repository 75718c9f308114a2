use crate::text::texts;
use vstd::prelude::*;
use vstd::string::*;

verus! {

/// How a line of the live feed is to be shown.
#[derive(Clone, Copy, Debug, PartialEq, Eq, Structural)]
pub enum LogLevel {
    Info,
    Error,
}

/// The name under which a level is sent to the feed.
pub open spec fn level_name(level: LogLevel) -> Seq<char> {
    match level {
        LogLevel::Info => "info"@,
        LogLevel::Error => "error"@,
    }
}

impl LogLevel {
    /// The name under which the level is sent to the feed.
    pub fn as_str(&self) -> (res: &'static str)
        ensures
            res@ == level_name(*self),
    {
        match self {
            LogLevel::Info => "info",
            LogLevel::Error => "error",
        }
    }
}

/// One line of the live feed.
#[derive(Clone, Debug, PartialEq, Eq)]
pub struct LogEvent {
    pub level: LogLevel,
    pub message: String,
}

pub struct LogEventView {
    pub level: LogLevel,
    pub message: Seq<char>,
}

impl View for LogEvent {
    type V = LogEventView;

    open spec fn view(&self) -> LogEventView {
        LogEventView { level: self.level, message: self.message@ }
    }
}

/// The events of a sequence, in order.
pub open spec fn event_views(events: Seq<LogEvent>) -> Seq<LogEventView> {
    events.map_values(|e: LogEvent| e@)
}

/// One of the two output streams of the scanner.
#[derive(Clone, Copy, Debug, PartialEq, Eq, Structural)]
pub enum ScanStream {
    Stdout,
    Stderr,
}

/// The level at which the lines of a stream are shown: standard output as
/// information, standard error as errors.
pub open spec fn stream_level(stream: ScanStream) -> LogLevel {
    match stream {
        ScanStream::Stdout => LogLevel::Info,
        ScanStream::Stderr => LogLevel::Error,
    }
}

impl ScanStream {
    /// The level at which the lines of the stream are shown.
    pub fn level(&self) -> (res: LogLevel)
        ensures
            res == stream_level(*self),
    {
        match self {
            ScanStream::Stdout => LogLevel::Info,
            ScanStream::Stderr => LogLevel::Error,
        }
    }
}

/// The events that a stream's lines give: one for each line, at the stream's
/// level, in the order of the lines.
pub open spec fn line_events(level: LogLevel, lines: Seq<Seq<char>>) -> Seq<LogEventView> {
    lines.map_values(|line: Seq<char>| LogEventView { level, message: line })
}

/// The reader of one stream: it turns each line into an event and keeps the
/// lines, in the order in which they came.
#[derive(Clone, Debug, PartialEq, Eq)]
pub struct StreamReader {
    pub stream: ScanStream,
    pub lines: Vec<String>,
}

impl StreamReader {
    /// A reader that has seen no line yet.
    pub fn new(stream: ScanStream) -> (res: StreamReader)
        ensures
            res.stream == stream,
            res.lines@.len() == 0,
    {
        StreamReader { stream, lines: Vec::new() }
    }

    /// Takes one line: it is kept behind the lines that came before, and the
    /// event to send for it is returned.
    pub fn on_line(&mut self, line: String) -> (event: LogEvent)
        ensures
            final(self).stream == old(self).stream,
            texts(final(self).lines@) == texts(old(self).lines@).push(line@),
            event@ == (LogEventView { level: stream_level(old(self).stream), message: line@ }),
    {
        let event = LogEvent { level: self.stream.level(), message: line.clone() };
        self.lines.push(line);
        assert(texts(self.lines@) =~= texts(old(self).lines@).push(line@));
        event
    }

    /// Takes the lines one after the other: as many events as lines come out,
    /// each with its line's text at the stream's level, in the same order, and
    /// the lines are kept in that order behind those that came before.
    pub fn feed(&mut self, lines: Vec<String>) -> (events: Vec<LogEvent>)
        ensures
            final(self).stream == old(self).stream,
            texts(final(self).lines@) == texts(old(self).lines@) + texts(lines@),
            event_views(events@) == line_events(stream_level(old(self).stream), texts(lines@)),
            events@.len() == lines@.len(),
    {
        let mut events: Vec<LogEvent> = Vec::new();
        let mut i: usize = 0;
        assert(texts(self.lines@) =~= texts(old(self).lines@) + texts(lines@).take(0));
        assert(event_views(events@) =~= line_events(
            stream_level(old(self).stream),
            texts(lines@).take(0),
        ));
        while i < lines.len()
            invariant
                i <= lines.len(),
                self.stream == old(self).stream,
                events@.len() == i,
                texts(self.lines@) == texts(old(self).lines@) + texts(lines@).take(i as int),
                event_views(events@) == line_events(
                    stream_level(old(self).stream),
                    texts(lines@).take(i as int),
                ),
            decreases lines.len() - i,
        {
            let ghost sent = event_views(events@);
            let event = self.on_line(lines[i].clone());
            events.push(event);
            proof {
                assert(texts(lines@).take(i + 1) =~= texts(lines@).take(i as int).push(
                    lines@[i as int]@,
                ));
                assert(texts(self.lines@) =~= texts(old(self).lines@) + texts(lines@).take(i + 1));
                assert(event_views(events@) =~= sent.push(event@));
                assert(event_views(events@) =~= line_events(
                    stream_level(old(self).stream),
                    texts(lines@).take(i + 1),
                ));
            }
            i = i + 1;
        }
        assert(texts(lines@).take(i as int) =~= texts(lines@));
        events
    }

    /// Everything that the stream has written, the lines joined by line feeds.
    pub fn collected(&self) -> (res: String)
        ensures
            res@ == crate::text::joined(texts(self.lines@)),
    {
        crate::text::join_lines(&self.lines)
    }
}

/// A line as it arrives while both streams are read: the stream, and the text.
pub struct Arrival {
    pub stream: ScanStream,
    pub line: Seq<char>,
}

/// The events that go out while both streams are read, in the order in which
/// the lines arrive.
pub open spec fn arrival_events(arrivals: Seq<Arrival>) -> Seq<LogEventView> {
    arrivals.map_values(
        |a: Arrival| LogEventView { level: stream_level(a.stream), message: a.line },
    )
}

/// The lines of one stream among the arrivals, in their order.
pub open spec fn lines_of(arrivals: Seq<Arrival>, stream: ScanStream) -> Seq<Seq<char>>
    decreases arrivals.len(),
{
    if arrivals.len() == 0 {
        Seq::empty()
    } else if arrivals.last().stream == stream {
        lines_of(arrivals.drop_last(), stream).push(arrivals.last().line)
    } else {
        lines_of(arrivals.drop_last(), stream)
    }
}

/// The events of one level among the events, in their order.
pub open spec fn events_at(events: Seq<LogEventView>, level: LogLevel) -> Seq<LogEventView>
    decreases events.len(),
{
    if events.len() == 0 {
        Seq::empty()
    } else if events.last().level == level {
        events_at(events.drop_last(), level).push(events.last())
    } else {
        events_at(events.drop_last(), level)
    }
}

/// However the lines of the two streams interleave, the events at a stream's
/// level are exactly the events of that stream's lines: one for each line,
/// in the order of the lines, none twice and none missing.
pub proof fn lemma_stream_order_survives_interleaving(arrivals: Seq<Arrival>, stream: ScanStream)
    ensures
        events_at(arrival_events(arrivals), stream_level(stream)) == line_events(
            stream_level(stream),
            lines_of(arrivals, stream),
        ),
        events_at(arrival_events(arrivals), stream_level(stream)).len() == lines_of(
            arrivals,
            stream,
        ).len(),
    decreases arrivals.len(),
{
    let level = stream_level(stream);
    if arrivals.len() == 0 {
        assert(events_at(arrival_events(arrivals), level) =~= line_events(
            level,
            lines_of(arrivals, stream),
        ));
    } else {
        let shorter = arrivals.drop_last();
        lemma_stream_order_survives_interleaving(shorter, stream);
        assert(arrival_events(arrivals).drop_last() =~= arrival_events(shorter));
        assert(arrival_events(arrivals).last().level == stream_level(arrivals.last().stream));
        assert((stream_level(arrivals.last().stream) == level) == (arrivals.last().stream
            == stream));
        assert(events_at(arrival_events(arrivals), level) =~= line_events(
            level,
            lines_of(arrivals, stream),
        ));
    }
}

} // verus!
