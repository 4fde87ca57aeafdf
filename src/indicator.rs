use vstd::prelude::*;

verus! {

/// Lifecycle events reported to a progress sink.
#[derive(Debug, Clone, PartialEq, Eq)]
pub enum IndicateSignal {
    /// Failed download, with the reason.
    Fail(String),
    /// Change of state, with a message.
    State(String),
    /// Successful download.
    Success(),
    /// The download started.
    Start(),
}

/// A progress sink for one file.
pub trait Indicator {
    /// Reports how many bytes were received so far.
    fn effect(&mut self, position: u64);

    /// Reports a lifecycle event.
    fn signal(&mut self, signal: IndicateSignal);
}

/// Makes one progress sink per file, from its name and size.
pub trait IndicatorFactory: Default {
    type Child: Indicator;

    /// A sink for a file called `name` of `size` bytes.
    fn create_task(&self, name: &str, size: u64) -> Self::Child;
}

/// Sink factory that reports nothing.
#[derive(Debug, Clone, Copy, PartialEq, Eq, Structural)]
pub struct Silent;

/// Sink that ignores every report.
#[derive(Debug, Clone, Copy, PartialEq, Eq, Structural)]
pub struct SilentChild;

impl Indicator for SilentChild {
    fn effect(&mut self, position: u64) {
    }

    fn signal(&mut self, signal: IndicateSignal) {
    }
}

impl IndicatorFactory for Silent {
    type Child = SilentChild;

    fn create_task(&self, name: &str, size: u64) -> SilentChild {
        SilentChild
    }
}

impl Default for Silent {
    fn default() -> (r: Self)
        ensures
            r == Silent,
    {
        Silent
    }
}

} // verus!
