//! The progress record that the installation publishes and the interface polls.

use vstd::prelude::*;
use vstd::string::*;

verus! {

/// Snapshot of where an installation stands.
#[derive(Clone, Debug)]
pub struct InstallProgress {
    /// Symbolic name of the current stage.
    pub step: String,
    /// Percentage done, 0 to 100.
    pub progress: u32,
    /// Status line shown to the operator.
    pub message: String,
    /// Set only at the terminal success state.
    pub is_complete: bool,
    /// Set only at the terminal error state.
    pub has_error: bool,
}

/// Mathematical value of a progress record.
pub struct ProgressView {
    pub step: Seq<char>,
    pub progress: nat,
    pub message: Seq<char>,
    pub is_complete: bool,
    pub has_error: bool,
}

impl View for InstallProgress {
    type V = ProgressView;

    open spec fn view(&self) -> ProgressView {
        ProgressView {
            step: self.step@,
            progress: self.progress as nat,
            message: self.message@,
            is_complete: self.is_complete,
            has_error: self.has_error,
        }
    }
}

/// Overwrites every field of the record as one group.
pub fn update_install_progress(
    state: &mut InstallProgress,
    step: &str,
    progress: u32,
    message: &str,
    is_complete: bool,
    has_error: bool,
)
    ensures
        final(state)@ == (ProgressView {
            step: step@,
            progress: progress as nat,
            message: message@,
            is_complete,
            has_error,
        }),
{
    state.step = String::from_str(step);
    state.progress = progress;
    state.message = String::from_str(message);
    state.is_complete = is_complete;
    state.has_error = has_error;
}

} // verus!
