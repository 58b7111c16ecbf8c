//! Component firmware update (CFU) routing.
pub mod bridge;
pub mod splitter;

use vstd::prelude::*;

verus! {

/// CFU component identifier
pub type ComponentId = u8;

/// Kinds of CFU requests a component receives.
#[derive(Debug, Clone, Copy, PartialEq, Eq, Structural)]
pub enum RequestKind {
    /// Report the firmware version
    FwVersionRequest,
    /// Offer a firmware update
    GiveOffer,
    /// Deliver firmware update contents
    GiveContent,
    /// Abort the update
    AbortUpdate,
    /// Finalize the update
    FinalizeUpdate,
    /// Prepare the component for an update
    PrepareComponentForUpdate,
    /// Extended offer
    GiveOfferExtended,
    /// Offer information
    GiveOfferInformation,
}

/// Status of a firmware update content response.
#[derive(Debug, Clone, Copy, PartialEq, Eq, Structural)]
pub enum ContentStatus {
    /// The block was written
    Success,
    /// The update could not be started
    ErrorPrepare,
    /// The block could not be written
    ErrorWrite,
}

} // verus!
