use vstd::prelude::*;

use crate::level::LevelFilter;

verus! {

/// One of the two console streams.
#[derive(Clone, Copy, Debug, PartialEq, Eq, Structural)]
pub enum Stream {
    Stderr,
    Stdout,
}

/// What every pluggable sink can do. `N` is the timestamp capture handed
/// along with each record, `R` the record, `E` the I/O failure.
pub trait LogWriter<N, R, E> {
    /// Writes one record.
    fn write(&self, now: &mut N, record: &R) -> Result<(), E>;

    /// Flushes what was written so far.
    fn flush(&self) -> Result<(), E>;

    /// The level that `max_log_level` reports. A sink's level does not
    /// change while it is held, so each call reports this same level.
    spec fn spec_max_log_level(&self) -> LevelFilter;

    /// The most verbose severity that this sink writes.
    fn max_log_level(&self) -> (r: LevelFilter)
        ensures
            r == self.spec_max_log_level(),
    ;

    /// Releases the sink's resources; the sink reports its own failures.
    fn shutdown(&self);

    /// Checks the written output against `(tag, level, message)` triples.
    fn validate_logs(&self, expected: &[(&'static str, &'static str, &'static str)]);
}

/// The operations that only the file sink offers.
pub trait FileLogWriterOps {
    /// What a new configuration is built from.
    type Builder;

    /// The current configuration.
    type Config;

    /// Where an output file lies.
    type Path;

    /// A failure of one of these operations.
    type Error;

    /// Replaces the sink's configuration.
    fn reset(&self, flwb: &Self::Builder) -> Result<(), Self::Error>;

    /// Reports the sink's configuration.
    fn config(&self) -> Result<Self::Config, Self::Error>;

    /// Closes and reopens the current output file.
    fn reopen_outputfile(&self) -> Result<(), Self::Error>;

    /// Lists the output files that exist now.
    fn existing_log_files(&self) -> Result<Vec<Self::Path>, Self::Error>;
}

/// Turns a record into bytes, appended to `buf`.
pub trait RecordFormatter<N, R, E> {
    fn format(&self, buf: &mut Vec<u8>, now: &mut N, record: &R) -> Result<(), E>;
}

/// Access to the two console streams.
pub trait ConsoleStreams<E> {
    /// Prints `text` followed by a line terminator through the line-printing
    /// primitive that test harnesses capture.
    fn print_line(&self, stream: Stream, text: &Vec<u8>);

    /// Writes `bytes` in one piece through the stream's buffered writer.
    fn write_all(&self, stream: Stream, bytes: &Vec<u8>) -> Result<(), E>;

    /// Flushes the stream.
    fn flush(&self, stream: Stream) -> Result<(), E>;

    /// Reports a formatting failure on the side channel for errors.
    fn report_format_failure(&self, err: &E);
}

} // verus!
