use vstd::prelude::*;

verus! {

/// Every way a sampling run can end other than at its stop boundary.
#[derive(Clone, Copy, Debug, PartialEq, Eq, Structural)]
pub enum MonitorError {
    /// The target process was not alive when the run began.
    ProcessNotAlive,
    /// The progress source could not be started or exited abnormally.
    OracleUnavailable,
    /// The progress source printed something that is not a slot number.
    OracleParseError,
    /// The threads of the target process could not be listed or read.
    ThreadEnumerationFailed,
    /// A thread's stat snapshot carries no IO-wait accounting.
    IoAccountingUnavailable,
}

} // verus!
