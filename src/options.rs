use vstd::prelude::*;

verus! {

/// The read-only configuration produced once at process start.
pub struct Options {
    /// Where to listen, as a `host:port` string.
    pub address: String,
    /// Production mode: the development origin is left out of the CORS allow-list.
    pub prod: bool,
    /// Live diagnostics instead of plain structured logging.
    pub tracing: bool,
}

/// The one logging sink that the process installs; the two exclude each other.
#[derive(Clone, Copy, Debug, PartialEq, Eq, Structural)]
pub enum LogSink {
    /// A structured log stream at the informational level.
    Structured,
    /// A live diagnostics stream for an attached console.
    Diagnostics,
}

pub open spec fn spec_log_sink(tracing: bool) -> LogSink {
    if tracing {
        LogSink::Diagnostics
    } else {
        LogSink::Structured
    }
}

impl Options {
    pub fn new(address: String, prod: bool, tracing: bool) -> (r: Options)
        ensures
            r.address@ == address@,
            r.prod == prod,
            r.tracing == tracing,
    {
        Options { address, prod, tracing }
    }

    /// The configured bind address, as given.
    pub fn address(&self) -> (r: &str)
        ensures
            r@ == self.address@,
    {
        self.address.as_str()
    }

    /// Which logging sink this configuration selects.
    pub fn log_sink(&self) -> (r: LogSink)
        ensures
            r == spec_log_sink(self.tracing),
    {
        if self.tracing {
            LogSink::Diagnostics
        } else {
            LogSink::Structured
        }
    }
}

} // verus!
