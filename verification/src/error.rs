//! What can stop a start-up.

use vstd::prelude::*;

verus! {

/// Why a builder was not started.
#[derive(Debug)]
pub enum InitError {
    /// The base fee is more than a builder can pay.
    BaseFee,
    /// The builder API could not be put together.
    App(anyhow::Error),
    /// The events API could not be connected to.
    EventStream(anyhow::Error),
}

impl InitError {
    /// What to say of the error, in addition to its cause if it has one.
    /// An error in connecting to the events API speaks for itself.
    pub fn context(&self) -> (r: Option<&'static str>)
        ensures
            self is BaseFee ==> (r matches Some(s) && s@
                == "the base fee exceeds the maximum amount that a builder can pay (defined by u64::MAX)"@),
            self is App ==> (r matches Some(s) && s@ == "Failed to construct builder API app"@),
            self is EventStream ==> r is None,
    {
        match self {
            InitError::BaseFee => Some(
                "the base fee exceeds the maximum amount that a builder can pay (defined by u64::MAX)",
            ),
            InitError::App(_) => Some("Failed to construct builder API app"),
            InitError::EventStream(_) => None,
        }
    }
}

} // verus!
