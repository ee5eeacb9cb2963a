//! The failures that the federation engine reports.

use vstd::prelude::*;

verus! {

/// Why an activity, an object or a delivery was turned down.
#[derive(Debug, Clone)]
pub enum FederationError {
    /// The URL has no domain that could be read from it.
    UrlWithoutDomain,
    /// Federation is switched off for the whole site.
    FederationDisabled,
    /// The domain is on the block list.
    DomainBlocked(String),
    /// An allow list is in force and the domain is not on it.
    DomainNotInAllowList(String),
    /// A strict check found the domain outside the allow list and the local instance.
    FederationDisabledByStrictAllowList,
    /// One resolution needed more fetches than the ceiling permits.
    FetchLimitExceeded,
    /// An activity failed its consistency checks; the text says which.
    VerificationFailed(String),
    /// The activity's type tag has no handler.
    UnhandledActivityType,
    /// Delivery to the recipient was given up after this many attempts.
    DeliveryFailed(String, u32),
}

/// The mathematical value of a [`FederationError`].
pub enum FederationErrorView {
    UrlWithoutDomain,
    FederationDisabled,
    DomainBlocked(Seq<char>),
    DomainNotInAllowList(Seq<char>),
    FederationDisabledByStrictAllowList,
    FetchLimitExceeded,
    VerificationFailed(Seq<char>),
    UnhandledActivityType,
    DeliveryFailed(Seq<char>, nat),
}

impl View for FederationError {
    type V = FederationErrorView;

    open spec fn view(&self) -> FederationErrorView {
        match self {
            FederationError::UrlWithoutDomain => FederationErrorView::UrlWithoutDomain,
            FederationError::FederationDisabled => FederationErrorView::FederationDisabled,
            FederationError::DomainBlocked(d) => FederationErrorView::DomainBlocked(d@),
            FederationError::DomainNotInAllowList(d) => FederationErrorView::DomainNotInAllowList(
                d@,
            ),
            FederationError::FederationDisabledByStrictAllowList =>
                FederationErrorView::FederationDisabledByStrictAllowList,
            FederationError::FetchLimitExceeded => FederationErrorView::FetchLimitExceeded,
            FederationError::VerificationFailed(reason) => FederationErrorView::VerificationFailed(
                reason@,
            ),
            FederationError::UnhandledActivityType => FederationErrorView::UnhandledActivityType,
            FederationError::DeliveryFailed(recipient, attempts) =>
                FederationErrorView::DeliveryFailed(recipient@, *attempts as nat),
        }
    }
}

impl FederationErrorView {
    /// Whether the failure is answered to the sender or to the operation
    /// that was under way. An activity of an unsupported type is logged
    /// and a delivery that was given up is recorded; neither goes further.
    pub open spec fn escalates(self) -> bool {
        !(self is UnhandledActivityType || self is DeliveryFailed)
    }
}

impl FederationError {
    /// Whether the failure is answered to the sender or to the operation
    /// that was under way, rather than only logged or recorded.
    pub fn escalates(&self) -> (r: bool)
        ensures
            r == self@.escalates(),
    {
        match self {
            FederationError::UnhandledActivityType => false,
            FederationError::DeliveryFailed(_, _) => false,
            _ => true,
        }
    }
}

/// The mathematical value of a check's outcome.
pub open spec fn outcome_view(r: Result<(), FederationError>) -> Result<(), FederationErrorView> {
    match r {
        Ok(_) => Ok(()),
        Err(e) => Err(e@),
    }
}

} // verus!
