use vstd::prelude::*;

use crate::containerize::{FileOrStdout, OutputTarget};
use crate::output::ExitStatus;

verus! {

/// The kind of destination a container image is streamed to.
#[derive(Clone, Copy, Debug, PartialEq, Eq)]
pub enum SinkKind {
    /// A file, flushed and synced to disk when finalized.
    File,
    /// Standard output, flushed when finalized.
    Stdout,
    /// The stdin of a loader process, closed and waited for when finalized.
    Runtime,
}

/// Why finalizing a sink failed, beyond an I/O error.
#[derive(Clone, Copy, Debug, PartialEq, Eq)]
pub enum SinkError {
    /// The loader process exited unsuccessfully.
    UnderlyingProcessFailed,
}

impl SinkError {
    /// What went wrong, for a person to read.
    pub fn message(&self) -> (r: String)
        ensures
            r@ == "Writing to runtime was unsuccessful"@,
    {
        "Writing to runtime was unsuccessful".to_owned()
    }
}

impl OutputTarget {
    /// The kind of sink that writing to this target opens.
    pub fn sink_kind(&self) -> (r: SinkKind)
        ensures
            r == (match self {
                OutputTarget::File(FileOrStdout::File(_)) => SinkKind::File,
                OutputTarget::File(FileOrStdout::Stdout) => SinkKind::Stdout,
                OutputTarget::Runtime(_) => SinkKind::Runtime,
            }),
    {
        match self {
            OutputTarget::File(FileOrStdout::File(_)) => SinkKind::File,
            OutputTarget::File(FileOrStdout::Stdout) => SinkKind::Stdout,
            OutputTarget::Runtime(_) => SinkKind::Runtime,
        }
    }
}

/// The life of a sink: it takes bytes until it is finalized, once.
pub struct SinkState {
    pub kind: SinkKind,
    pub finalized: bool,
}

impl SinkState {
    /// A sink of `kind` that has not been finalized.
    pub fn new(kind: SinkKind) -> (r: SinkState)
        ensures
            r.kind == kind,
            !r.finalized,
    {
        SinkState { kind, finalized: false }
    }

    /// Bytes may be written until the sink is finalized.
    pub fn can_write(&self) -> (r: bool)
        ensures
            r == !self.finalized,
    {
        !self.finalized
    }

    /// Finalizes the sink. `loader` is how the loader process ended, for a
    /// runtime sink only. Only a loader that did not succeed fails it, whatever
    /// was written before.
    pub fn finalize(&mut self, loader: Option<ExitStatus>) -> (r: Result<(), SinkError>)
        requires
            !old(self).finalized,
            (old(self).kind == SinkKind::Runtime) == (loader is Some),
        ensures
            final(self).finalized,
            final(self).kind == old(self).kind,
            r is Err <==> (loader matches Some(s) && !s.spec_success()),
            r is Err ==> r == Err::<(), SinkError>(SinkError::UnderlyingProcessFailed),
    {
        self.finalized = true;
        match loader {
            Some(s) => if s.success() {
                Ok(())
            } else {
                Err(SinkError::UnderlyingProcessFailed)
            },
            None => Ok(()),
        }
    }
}

} // verus!
