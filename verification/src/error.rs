//! What can go wrong while one message is dispatched.

use vstd::prelude::*;
use vstd::string::StringExecFns;

verus! {

/// What the report of a failed send starts with.
pub const DELIVERY_FAILURE_REPORT: &'static str = "Error sending message: ";

/// What the report of a refused reply says.
pub const INVALID_PAYLOAD_REPORT: &'static str = "Invalid payload: the planet identifier is empty";

/// An error that ends the dispatch of one message. It concerns that message
/// alone: the next one is dispatched as if nothing had happened.
#[derive(Debug, PartialEq, Eq)]
pub enum DispatchError {
    /// The reply could not be built, because the planet identifier was unset
    /// or empty. Nothing was sent.
    InvalidPayload,
    /// The platform did not take the reply. The text is what the transport
    /// said of the failure.
    DeliveryFailure(String),
}

/// What a [`DispatchError`] holds, for use in contracts.
pub enum DispatchErrorView {
    /// See [`DispatchError::InvalidPayload`].
    InvalidPayload,
    /// See [`DispatchError::DeliveryFailure`].
    DeliveryFailure(Seq<char>),
}

impl View for DispatchError {
    type V = DispatchErrorView;

    open spec fn view(&self) -> DispatchErrorView {
        match self {
            DispatchError::InvalidPayload => DispatchErrorView::InvalidPayload,
            DispatchError::DeliveryFailure(detail) => DispatchErrorView::DeliveryFailure(detail@),
        }
    }
}

/// The line that reports `error` to whoever runs the bot.
pub open spec fn report_of(error: DispatchErrorView) -> Seq<char> {
    match error {
        DispatchErrorView::InvalidPayload => INVALID_PAYLOAD_REPORT@,
        DispatchErrorView::DeliveryFailure(detail) => DELIVERY_FAILURE_REPORT@ + detail,
    }
}

impl DispatchError {
    /// The line that reports this error: for a failed send, the transport's
    /// own words behind [`DELIVERY_FAILURE_REPORT`].
    pub fn report(&self) -> (line: String)
        ensures
            line@ == report_of(self@),
    {
        match self {
            DispatchError::InvalidPayload => String::from_str(INVALID_PAYLOAD_REPORT),
            DispatchError::DeliveryFailure(detail) => {
                let mut line = String::from_str(DELIVERY_FAILURE_REPORT);
                line.append(detail.as_str());
                line
            },
        }
    }
}

} // verus!
