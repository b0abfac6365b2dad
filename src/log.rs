//! Where the importer's log goes: a set of log streams and a verbosity
//! switch, held in a value that the caller owns and hands to the importer.

use vstd::prelude::*;

verus! {

/// A destination for log messages.
#[derive(Clone, Debug)]
pub enum LogStream {
    /// The standard output.
    Stdout,
    /// The standard error output.
    Stderr,
    /// The debugger's output (on Windows only).
    Debugger,
    /// The file at the given path.
    File(String),
}

impl LogStream {
    /// The importer's numeric code of this kind of stream.
    pub fn code(&self) -> (r: u32)
        ensures
            r == match self {
                LogStream::File(_) => 0x1u32,
                LogStream::Stdout => 0x2u32,
                LogStream::Stderr => 0x4u32,
                LogStream::Debugger => 0x8u32,
            },
    {
        match self {
            LogStream::File(_) => 0x1,
            LogStream::Stdout => 0x2,
            LogStream::Stderr => 0x4,
            LogStream::Debugger => 0x8,
        }
    }
}

/// The log configuration: whether messages are verbose, and the streams
/// that receive them, in the order they were attached.
pub struct LogSinks {
    pub verbose: bool,
    pub streams: Vec<LogStream>,
}

impl LogSinks {
    /// No streams, verbose logging off.
    pub fn new() -> (r: LogSinks)
        ensures
            !r.verbose,
            r.streams@.len() == 0,
    {
        LogSinks { verbose: false, streams: Vec::new() }
    }

    /// Switches verbose logging on or off for all streams.
    pub fn enable_verbose_logging(&mut self, choice: bool)
        ensures
            final(self).verbose == choice,
            final(self).streams@ == old(self).streams@,
    {
        self.verbose = choice;
    }

    /// Attaches one more stream; several may be attached at once.
    pub fn add_log_stream(&mut self, log_type: LogStream)
        ensures
            final(self).verbose == old(self).verbose,
            final(self).streams@ == old(self).streams@.push(log_type),
    {
        self.streams.push(log_type);
    }

    /// Detaches every stream.
    pub fn detach_all_log_streams(&mut self)
        ensures
            final(self).verbose == old(self).verbose,
            final(self).streams@.len() == 0,
    {
        self.streams.clear();
    }
}

} // verus!
