use vstd::prelude::*;

use crate::level::{Duplicate, Level, LevelFilter};
use crate::sink::{ConsoleStreams, FileLogWriterOps, LogWriter, RecordFormatter, Stream};

verus! {

/// `visited` is what a broadcast over `plan` reached that stops at its first
/// failure: a prefix of `plan`, the whole of it on success, and not empty on
/// failure, the broadcast having stopped after its last destination.
pub open spec fn is_stopping_trace(plan: Seq<Target>, visited: Seq<Target>, ok: bool) -> bool {
    &&& visited.len() <= plan.len()
    &&& visited == plan.take(visited.len() as int)
    &&& ok ==> visited == plan
    &&& visited.len() < plan.len() ==> !ok
    &&& !ok ==> visited.len() > 0
}

/// A destination that a record or a lifecycle request is handed to.
#[derive(Clone, Copy, Debug, PartialEq, Eq, Structural)]
pub enum Target {
    Stderr,
    Stdout,
    FileWriter,
    OtherWriter,
}

/// A file-sink operation failed.
#[derive(Clone, Copy, Debug, PartialEq, Eq)]
pub enum ControlError<X> {
    /// No file sink is configured.
    NoFileLogger,
    /// The file sink itself failed.
    FileWriter(X),
}

impl<X> ControlError<X> {
    /// What a file-sink operation returns when the file sink answered `r`:
    /// its value as it is, or its error as `FileWriter`.
    pub open spec fn spec_from_file_result<T>(r: Result<T, X>) -> Result<T, ControlError<X>> {
        match r {
            Ok(v) => Ok(v),
            Err(e) => Err(ControlError::FileWriter(e)),
        }
    }

    /// Passes on the file sink's answer `r`: its value as it is, its error
    /// as `FileWriter`.
    pub fn from_file_result<T>(r: Result<T, X>) -> (out: Result<T, ControlError<X>>)
        ensures
            out == Self::spec_from_file_result(r),
    {
        match r {
            Ok(v) => Ok(v),
            Err(e) => Err(ControlError::FileWriter(e)),
        }
    }
}

/// What a console step does after formatting a record.
#[derive(Clone, Copy, Debug, PartialEq, Eq)]
pub enum ConsoleStep<E> {
    /// Print the buffer as a line.
    Print,
    /// Report the formatting failure, then print the buffer as it stands.
    ReportThenPrint(E),
    /// Write the buffer, ended by a newline, through the buffered writer.
    WriteBuffered,
    /// End the write with the formatting failure.
    Fail(E),
}

/// The bytes that the buffered console path writes for a formatted record:
/// the record followed by a newline.
pub fn buffered_line(formatted: Vec<u8>) -> (r: Vec<u8>)
    ensures
        r@ == formatted@.push(10u8),
{
    let mut line = formatted;
    line.push(10u8);
    line
}

/// Goes on with a broadcast after a step that answered `answer`: on success
/// the destinations reached and the reports are handed back unchanged; on
/// failure the broadcast ends with that failure.
pub fn after_step<E>(visited: Vec<Target>, reported: Vec<Stream>, answer: Result<(), E>) -> (r:
    Result<(Vec<Target>, Vec<Stream>), Delivery<E>>)
    ensures
        match answer {
            Ok(()) => r matches Ok((v, p)) && v@ == visited@ && p@ == reported@,
            Err(e) => r matches Err(d) && d.visited@ == visited@ && d.reported@ == reported@
                && d.result == Err::<(), E>(e),
        },
{
    match answer {
        Ok(()) => Ok((visited, reported)),
        Err(e) => Err(Delivery { visited, reported, result: Err(e) }),
    }
}

/// What a broadcast did: the destinations it reached, in order, the consoles
/// whose formatting failure was reported instead of returned, and its result.
pub struct Delivery<E> {
    pub visited: Vec<Target>,
    pub reported: Vec<Stream>,
    pub result: Result<(), E>,
}

/// The destination that stands for a console stream.
pub open spec fn console_target(stream: Stream) -> Target {
    match stream {
        Stream::Stderr => Target::Stderr,
        Stream::Stdout => Target::Stdout,
    }
}

/// Writes each record to an optional file sink and an optional generic sink,
/// and copies it to stderr and stdout as the two duplication policies say.
///
/// `F` is the file sink, `O` the generic sink, `Fmt` the console formatter and
/// `C` the console streams. Nothing is changed after construction.
pub struct MultiWriter<F, O, Fmt, C> {
    duplicate_stderr: Duplicate,
    duplicate_stdout: Duplicate,
    support_capture: bool,
    format_for_stderr: Fmt,
    format_for_stdout: Fmt,
    o_file_writer: Option<F>,
    o_other_writer: Option<O>,
    consoles: C,
}

impl<F, O, Fmt, C> MultiWriter<F, O, Fmt, C> {
    /// The policy for copying records to stderr.
    pub closed spec fn spec_duplicate_stderr(&self) -> Duplicate {
        self.duplicate_stderr
    }

    /// The policy for copying records to stdout.
    pub closed spec fn spec_duplicate_stdout(&self) -> Duplicate {
        self.duplicate_stdout
    }

    /// Whether console output goes through the line printer that test
    /// harnesses capture.
    pub closed spec fn spec_support_capture(&self) -> bool {
        self.support_capture
    }

    /// The formatter for stderr.
    pub closed spec fn spec_format_for_stderr(&self) -> Fmt {
        self.format_for_stderr
    }

    /// The formatter for stdout.
    pub closed spec fn spec_format_for_stdout(&self) -> Fmt {
        self.format_for_stdout
    }

    /// The console streams.
    pub closed spec fn spec_consoles(&self) -> C {
        self.consoles
    }

    pub closed spec fn spec_file_writer(&self) -> Option<F> {
        self.o_file_writer
    }

    pub closed spec fn spec_other_writer(&self) -> Option<O> {
        self.o_other_writer
    }

    pub open spec fn has_file_writer(&self) -> bool {
        self.spec_file_writer() is Some
    }

    pub open spec fn has_other_writer(&self) -> bool {
        self.spec_other_writer() is Some
    }

    /// The pluggable sinks that are present, file sink first.
    pub open spec fn sink_targets(&self) -> Seq<Target> {
        (if self.has_file_writer() { seq![Target::FileWriter] } else { seq![] })
            + (if self.has_other_writer() { seq![Target::OtherWriter] } else { seq![] })
    }

    /// The destinations of a record of severity `level`, in the order they
    /// are visited.
    pub open spec fn write_targets(&self, level: Level) -> Seq<Target> {
        (if self.spec_duplicate_stderr().admits(level) { seq![Target::Stderr] } else { seq![] })
            + (if self.spec_duplicate_stdout().admits(level) { seq![Target::Stdout] } else { seq![] })
            + self.sink_targets()
    }

    /// The destinations of a flush, in order: the sinks, then each console
    /// whose policy is not `Off`.
    pub open spec fn flush_targets(&self) -> Seq<Target> {
        self.sink_targets()
            + (if self.spec_duplicate_stderr() != Duplicate::Off { seq![Target::Stderr] } else { seq![] })
            + (if self.spec_duplicate_stdout() != Duplicate::Off { seq![Target::Stdout] } else { seq![] })
    }

    /// Whether writing a record to `t` can fail the whole write: a console
    /// in capture mode cannot.
    pub open spec fn write_can_fail_at(&self, t: Target) -> bool {
        match t {
            Target::Stderr | Target::Stdout => !self.spec_support_capture(),
            _ => true,
        }
    }

    /// `visited` and `ok` describe a write of a record of severity `level`:
    /// the destinations were visited in plan order, all of them on success,
    /// and a failure ended the write at a destination that can fail it.
    pub open spec fn is_write_trace(&self, level: Level, visited: Seq<Target>, ok: bool) -> bool {
        &&& is_stopping_trace(self.write_targets(level), visited, ok)
        &&& !ok ==> self.write_can_fail_at(visited.last())
    }

    /// Reports of formatting failures happen in capture mode only, at most
    /// once per console, and only for a console that the write reached.
    pub open spec fn reports_within(&self, reported: Seq<Stream>, visited: Seq<Target>) -> bool {
        &&& reported.len() > 0 ==> self.spec_support_capture()
        &&& reported.no_duplicates()
        &&& forall|i: int| 0 <= i < reported.len() ==> visited.contains(console_target(reported[i]))
    }

    /// Builds a dispatcher from its policies, formatters, sinks and consoles.
    pub fn new(
        duplicate_stderr: Duplicate,
        duplicate_stdout: Duplicate,
        support_capture: bool,
        format_for_stderr: Fmt,
        format_for_stdout: Fmt,
        o_file_writer: Option<F>,
        o_other_writer: Option<O>,
        consoles: C,
    ) -> (r: Self)
        ensures
            r.spec_duplicate_stderr() == duplicate_stderr,
            r.spec_duplicate_stdout() == duplicate_stdout,
            r.spec_support_capture() == support_capture,
            r.spec_file_writer() == o_file_writer,
            r.spec_other_writer() == o_other_writer,
            r.spec_format_for_stderr() == format_for_stderr,
            r.spec_format_for_stdout() == format_for_stdout,
            r.spec_consoles() == consoles,
    {
        MultiWriter {
            duplicate_stderr,
            duplicate_stdout,
            support_capture,
            format_for_stderr,
            format_for_stdout,
            o_file_writer,
            o_other_writer,
            consoles,
        }
    }
}

impl<F, O, Fmt, C> MultiWriter<F, O, Fmt, C> {
    /// Whether a file sink or a generic sink is present, as `max_log_level`
    /// requires.
    pub fn has_persistent_sink(&self) -> (r: bool)
        ensures
            r == (self.has_file_writer() || self.has_other_writer()),
    {
        self.o_file_writer.is_some() || self.o_other_writer.is_some()
    }
}

impl<F: FileLogWriterOps, O, Fmt, C> MultiWriter<F, O, Fmt, C> {
    /// Replaces the file sink's configuration.
    pub fn reset_file_log_writer(&self, flwb: &F::Builder) -> (r: Result<(), ControlError<F::Error>>)
        ensures
            !self.has_file_writer() ==> (r matches Err(ControlError::NoFileLogger)),
            self.has_file_writer() ==> !(r matches Err(ControlError::NoFileLogger)),
    {
        match &self.o_file_writer {
            Some(flw) => ControlError::from_file_result(flw.reset(flwb)),
            None => Err(ControlError::NoFileLogger),
        }
    }

    /// The file sink's current configuration.
    pub fn flw_config(&self) -> (r: Result<F::Config, ControlError<F::Error>>)
        ensures
            !self.has_file_writer() ==> (r matches Err(ControlError::NoFileLogger)),
            self.has_file_writer() ==> !(r matches Err(ControlError::NoFileLogger)),
    {
        match &self.o_file_writer {
            Some(flw) => ControlError::from_file_result(flw.config()),
            None => Err(ControlError::NoFileLogger),
        }
    }

    /// Makes the file sink reopen its output file.
    pub fn reopen_outputfile(&self) -> (r: Result<(), ControlError<F::Error>>)
        ensures
            !self.has_file_writer() ==> (r matches Err(ControlError::NoFileLogger)),
            self.has_file_writer() ==> !(r matches Err(ControlError::NoFileLogger)),
    {
        match &self.o_file_writer {
            Some(flw) => ControlError::from_file_result(flw.reopen_outputfile()),
            None => Err(ControlError::NoFileLogger),
        }
    }

    /// The output files of the file sink; none where there is no file sink.
    pub fn existing_log_files(&self) -> (r: Result<Vec<F::Path>, ControlError<F::Error>>)
        ensures
            !(r matches Err(ControlError::NoFileLogger)),
            !self.has_file_writer() ==> (r matches Ok(v) && v@.len() == 0),
    {
        match &self.o_file_writer {
            Some(fw) => ControlError::from_file_result(fw.existing_log_files()),
            None => Ok(Vec::new()),
        }
    }
}

impl<F, O, Fmt, C> MultiWriter<F, O, Fmt, C> {
    /// What the console step does once the formatter answered `formatted`.
    pub open spec fn spec_console_step<E>(&self, formatted: Result<(), E>) -> ConsoleStep<E> {
        match formatted {
            Ok(()) => if self.spec_support_capture() {
                ConsoleStep::Print
            } else {
                ConsoleStep::WriteBuffered
            },
            Err(e) => if self.spec_support_capture() {
                ConsoleStep::ReportThenPrint(e)
            } else {
                ConsoleStep::Fail(e)
            },
        }
    }

    /// Decides the console step from the formatter's answer: in capture mode
    /// the buffer is printed whatever came back, a failure being reported
    /// first; otherwise the buffer is written, or the failure ends the write.
    pub fn console_step<E>(&self, formatted: Result<(), E>) -> (r: ConsoleStep<E>)
        ensures
            r == self.spec_console_step(formatted),
    {
        match formatted {
            Ok(()) => if self.support_capture {
                ConsoleStep::Print
            } else {
                ConsoleStep::WriteBuffered
            },
            Err(e) => if self.support_capture {
                ConsoleStep::ReportThenPrint(e)
            } else {
                ConsoleStep::Fail(e)
            },
        }
    }

    /// Formats one record for `stream` with `format` and emits it there, as
    /// `console_step` decides. `Ok(true)` says that a formatting failure was
    /// reported.
    fn emit_to_console<N, R, E>(&self, stream: Stream, format: &Fmt, now: &mut N, record: &R) -> (r:
        Result<bool, E>) where Fmt: RecordFormatter<N, R, E>, C: ConsoleStreams<E>
        ensures
            self.spec_support_capture() ==> r is Ok,
            !self.spec_support_capture() ==> !(r matches Ok(true)),
    {
        let mut buf: Vec<u8> = Vec::new();
        let formatted = format.format(&mut buf, now, record);
        match self.console_step(formatted) {
            ConsoleStep::Print => {
                self.consoles.print_line(stream, &buf);
                Ok(false)
            },
            ConsoleStep::ReportThenPrint(e) => {
                self.consoles.report_format_failure(&e);
                self.consoles.print_line(stream, &buf);
                Ok(true)
            },
            ConsoleStep::WriteBuffered => {
                let line = buffered_line(buf);
                match self.consoles.write_all(stream, &line) {
                    Ok(()) => Ok(false),
                    Err(e) => Err(e),
                }
            },
            ConsoleStep::Fail(e) => Err(e),
        }
    }

    /// Writes one record of severity `level`: to stderr and stdout where
    /// their policies admit it, then to the file sink and the generic sink,
    /// in that order. A failure that can stop the write skips every later
    /// destination.
    pub fn write<N, R, E>(&self, now: &mut N, record: &R, level: Level) -> (r: Delivery<E>) where
        F: LogWriter<N, R, E>,
        O: LogWriter<N, R, E>,
        Fmt: RecordFormatter<N, R, E>,
        C: ConsoleStreams<E>,
        ensures
            self.is_write_trace(level, r.visited@, r.result is Ok),
            self.reports_within(r.reported@, r.visited@),
    {
        let ghost plan = self.write_targets(level);
        let mut visited: Vec<Target> = Vec::new();
        let mut reported: Vec<Stream> = Vec::new();
        if self.duplicate_stderr.should_emit(level) {
            visited.push(Target::Stderr);
            assert(visited@ == plan.take(1));
            match self.emit_to_console(Stream::Stderr, &self.format_for_stderr, now, record) {
                Ok(failed_format) => {
                    if failed_format {
                        reported.push(Stream::Stderr);
                    }
                },
                Err(e) => {
                    return Delivery { visited, reported, result: Err(e) };
                },
            }
        }
        let ghost n1: int = visited@.len() as int;
        assert(visited@ == plan.take(n1));
        if self.duplicate_stdout.should_emit(level) {
            visited.push(Target::Stdout);
            assert(visited@ == plan.take(n1 + 1));
            match self.emit_to_console(Stream::Stdout, &self.format_for_stdout, now, record) {
                Ok(failed_format) => {
                    if failed_format {
                        reported.push(Stream::Stdout);
                    }
                },
                Err(e) => {
                    return Delivery { visited, reported, result: Err(e) };
                },
            }
        }
        let ghost n2: int = visited@.len() as int;
        assert(visited@ == plan.take(n2));
        if let Some(writer) = &self.o_file_writer {
            visited.push(Target::FileWriter);
            assert(visited@ == plan.take(n2 + 1));
            match after_step(visited, reported, writer.write(now, record)) {
                Ok((v, p)) => {
                    visited = v;
                    reported = p;
                },
                Err(d) => {
                    return d;
                },
            }
        }
        let ghost n3: int = visited@.len() as int;
        assert(visited@ == plan.take(n3));
        if let Some(writer) = &self.o_other_writer {
            visited.push(Target::OtherWriter);
            assert(visited@ == plan.take(n3 + 1));
            match after_step(visited, reported, writer.write(now, record)) {
                Ok((v, p)) => {
                    visited = v;
                    reported = p;
                },
                Err(d) => {
                    return d;
                },
            }
        }
        assert(visited@ == plan);
        Delivery { visited, reported, result: Ok(()) }
    }
}

impl<F, O, Fmt, C> MultiWriter<F, O, Fmt, C> {
    /// Flushes the file sink, the generic sink, then each console whose
    /// policy is not `Off`. The first failure skips every later destination.
    pub fn flush<N, R, E>(&self) -> (r: Delivery<E>) where
        F: LogWriter<N, R, E>,
        O: LogWriter<N, R, E>,
        C: ConsoleStreams<E>,
        ensures
            is_stopping_trace(self.flush_targets(), r.visited@, r.result is Ok),
            r.reported@.len() == 0,
    {
        let ghost plan = self.flush_targets();
        let mut visited: Vec<Target> = Vec::new();
        let mut reported: Vec<Stream> = Vec::new();
        if let Some(writer) = &self.o_file_writer {
            visited.push(Target::FileWriter);
            assert(visited@ == plan.take(1));
            match after_step(visited, reported, writer.flush()) {
                Ok((v, p)) => {
                    visited = v;
                    reported = p;
                },
                Err(d) => {
                    return d;
                },
            }
        }
        let ghost n1: int = visited@.len() as int;
        assert(visited@ == plan.take(n1));
        if let Some(writer) = &self.o_other_writer {
            visited.push(Target::OtherWriter);
            assert(visited@ == plan.take(n1 + 1));
            match after_step(visited, reported, writer.flush()) {
                Ok((v, p)) => {
                    visited = v;
                    reported = p;
                },
                Err(d) => {
                    return d;
                },
            }
        }
        let ghost n2: int = visited@.len() as int;
        assert(visited@ == plan.take(n2));
        if !matches!(self.duplicate_stderr, Duplicate::Off) {
            visited.push(Target::Stderr);
            assert(visited@ == plan.take(n2 + 1));
            match after_step(visited, reported, self.consoles.flush(Stream::Stderr)) {
                Ok((v, p)) => {
                    visited = v;
                    reported = p;
                },
                Err(d) => {
                    return d;
                },
            }
        }
        let ghost n3: int = visited@.len() as int;
        assert(visited@ == plan.take(n3));
        if !matches!(self.duplicate_stdout, Duplicate::Off) {
            visited.push(Target::Stdout);
            assert(visited@ == plan.take(n3 + 1));
            match after_step(visited, reported, self.consoles.flush(Stream::Stdout)) {
                Ok((v, p)) => {
                    visited = v;
                    reported = p;
                },
                Err(d) => {
                    return d;
                },
            }
        }
        assert(visited@ == plan);
        Delivery { visited, reported, result: Ok(()) }
    }

    /// Shuts down the file sink, then the generic sink; each reports its own
    /// failures. Returns the sinks that were shut down, in order.
    pub fn shutdown<N, R, E>(&self) -> (r: Vec<Target>) where
        F: LogWriter<N, R, E>,
        O: LogWriter<N, R, E>,
        ensures
            r@ == self.sink_targets(),
    {
        let mut visited: Vec<Target> = Vec::new();
        if let Some(writer) = &self.o_file_writer {
            writer.shutdown();
            visited.push(Target::FileWriter);
        }
        if let Some(writer) = &self.o_other_writer {
            writer.shutdown();
            visited.push(Target::OtherWriter);
        }
        assert(visited@ == self.sink_targets());
        visited
    }

    /// Hands the expected `(tag, level, message)` triples to the file sink,
    /// then to the generic sink. Returns the sinks that were asked, in order.
    pub fn validate_logs<N, R, E>(
        &self,
        expected: &[(&'static str, &'static str, &'static str)],
    ) -> (r: Vec<Target>) where F: LogWriter<N, R, E>, O: LogWriter<N, R, E>
        ensures
            r@ == self.sink_targets(),
    {
        let mut visited: Vec<Target> = Vec::new();
        if let Some(writer) = &self.o_file_writer {
            writer.validate_logs(expected);
            visited.push(Target::FileWriter);
        }
        if let Some(writer) = &self.o_other_writer {
            writer.validate_logs(expected);
            visited.push(Target::OtherWriter);
        }
        assert(visited@ == self.sink_targets());
        visited
    }

    /// The least restrictive level of the sinks that are present; the
    /// consoles only filter and do not count. At least one sink must be
    /// present.
    pub fn max_log_level<N, R, E>(&self) -> (r: LevelFilter) where
        F: LogWriter<N, R, E>,
        O: LogWriter<N, R, E>,
        requires
            self.has_file_writer() || self.has_other_writer(),
        ensures
            r == spec_max_active_level(
                match self.spec_file_writer() {
                    Some(w) => Some(w.spec_max_log_level()),
                    None => None,
                },
                match self.spec_other_writer() {
                    Some(w) => Some(w.spec_max_log_level()),
                    None => None,
                },
            ),
    {
        let file_level = match &self.o_file_writer {
            Some(w) => Some(w.max_log_level()),
            None => None,
        };
        let other_level = match &self.o_other_writer {
            Some(w) => Some(w.max_log_level()),
            None => None,
        };
        max_active_level(file_level, other_level)
    }
}

/// The least restrictive of the levels that are given.
pub open spec fn spec_max_active_level(a: Option<LevelFilter>, b: Option<LevelFilter>) -> LevelFilter
    recommends
        a is Some || b is Some,
{
    match (a, b) {
        (Some(x), Some(y)) => x.spec_max(y),
        (Some(x), None) => x,
        (None, Some(y)) => y,
        (None, None) => LevelFilter::Off,
    }
}

/// Combines the active levels of the file sink and the generic sink, given
/// for those that are present: the least restrictive of them.
pub fn max_active_level(file_level: Option<LevelFilter>, other_level: Option<LevelFilter>) -> (r:
    LevelFilter)
    requires
        file_level is Some || other_level is Some,
    ensures
        r == spec_max_active_level(file_level, other_level),
{
    match (file_level, other_level) {
        (Some(x), Some(y)) => x.max(y),
        (Some(x), None) => x,
        (None, Some(y)) => y,
        (None, None) => LevelFilter::Off,
    }
}

} // verus!
