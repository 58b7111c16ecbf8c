//! Bridge from CFU messages to a device's firmware update interface.
//!
//! Each step function decides what the bridge does next from the command and from what the
//! device reported for the previous step.
use vstd::prelude::*;

use super::{ComponentId, ContentStatus};

verus! {

/// Flag of a content block that is the first of an update.
pub const FW_UPDATE_FLAG_FIRST_BLOCK: u8 = 0x80;

/// Largest number of data bytes a content block carries.
pub const CONTENT_DATA_LENGTH: usize = 52;

/// A CFU command, as far as the bridge reads it.
#[derive(Debug, Clone, Copy, PartialEq, Eq, Structural)]
pub enum BridgeCommand {
    /// Report the firmware version
    FwVersionRequest,
    /// Offer a firmware update for a component
    GiveOffer(ComponentId),
    /// Deliver a block of firmware contents
    GiveContent {
        /// Sequence number of the block
        sequence_num: u16,
        /// Block flags
        flags: u8,
        /// Where the block goes in the firmware image
        firmware_address: u32,
        /// Number of data bytes in the block
        data_length: u8,
    },
    /// Finalize the update
    FinalizeUpdate,
    /// Any other command
    Other,
}

/// A response the bridge sends.
#[derive(Debug, Clone, Copy, PartialEq, Eq, Structural)]
pub enum BridgeResponse {
    /// The firmware version of the component (one component reported)
    FwVersion {
        /// Active firmware version
        version: u32,
        /// Component the version belongs to
        component_id: ComponentId,
    },
    /// The component is busy
    ComponentBusy,
    /// The offer is accepted
    OfferAccepted,
    /// Outcome of a content block
    Content {
        /// Sequence number of the block
        sequence_num: u16,
        /// Outcome
        status: ContentStatus,
    },
    /// The component is prepared
    ComponentPrepared,
}

/// What the bridge does next.
#[derive(Debug, Clone, Copy, PartialEq, Eq, Structural)]
pub enum BridgeAction {
    /// Read the device's active firmware version
    GetVersion,
    /// Start a firmware update, then write the block
    StartThenWrite {
        /// Where the block goes
        address: u32,
        /// Number of data bytes
        length: u8,
    },
    /// Write the block
    Write {
        /// Where the block goes
        address: u32,
        /// Number of data bytes
        length: u8,
    },
    /// Finalize the update; no response follows from the command itself
    Finalize,
    /// Send this response, or none
    Respond(Option<BridgeResponse>),
}

/// Decides the first step for a command.
///
/// Offers are accepted only when addressed to the bridge's own component; other offers and
/// unknown commands get no response of their own. A content block carries at most
/// [`CONTENT_DATA_LENGTH`] data bytes.
pub fn process_command(command: BridgeCommand, own_id: ComponentId) -> (r: BridgeAction)
    requires
        command matches BridgeCommand::GiveContent { data_length, .. } ==> data_length <= CONTENT_DATA_LENGTH,
    ensures
        r == (match command {
            BridgeCommand::FwVersionRequest => BridgeAction::GetVersion,
            BridgeCommand::GiveOffer(id) => if id == own_id {
                BridgeAction::Respond(Some(BridgeResponse::OfferAccepted))
            } else {
                BridgeAction::Respond(None)
            },
            BridgeCommand::GiveContent { flags, firmware_address, data_length, .. } => if flags & FW_UPDATE_FLAG_FIRST_BLOCK != 0 {
                BridgeAction::StartThenWrite { address: firmware_address, length: data_length }
            } else {
                BridgeAction::Write { address: firmware_address, length: data_length }
            },
            BridgeCommand::FinalizeUpdate => BridgeAction::Finalize,
            BridgeCommand::Other => BridgeAction::Respond(None),
        }),
{
    match command {
        BridgeCommand::FwVersionRequest => BridgeAction::GetVersion,
        BridgeCommand::GiveOffer(id) => {
            if id == own_id {
                BridgeAction::Respond(Some(BridgeResponse::OfferAccepted))
            } else {
                BridgeAction::Respond(None)
            }
        },
        BridgeCommand::GiveContent { flags, firmware_address, data_length, .. } => {
            if flags & FW_UPDATE_FLAG_FIRST_BLOCK != 0 {
                BridgeAction::StartThenWrite { address: firmware_address, length: data_length }
            } else {
                BridgeAction::Write { address: firmware_address, length: data_length }
            }
        },
        BridgeCommand::FinalizeUpdate => BridgeAction::Finalize,
        BridgeCommand::Other => BridgeAction::Respond(None),
    }
}

/// The data bytes of a content block: the first `data_length` bytes of its data.
pub fn block_data(data: &[u8], data_length: u8) -> (r: &[u8])
    requires
        data_length <= data.len(),
    ensures
        r@ == data@.take(data_length as int),
{
    let (head, _rest) = data.split_at(data_length as usize);
    head
}

/// The response to a version request, from what the device reported (`None` on any error).
pub fn process_get_fw_version(version: Option<u32>, own_id: ComponentId) -> (r: BridgeResponse)
    ensures
        r == (match version {
            Some(v) => BridgeResponse::FwVersion { version: v, component_id: own_id },
            None => BridgeResponse::ComponentBusy,
        }),
{
    match version {
        Some(v) => BridgeResponse::FwVersion { version: v, component_id: own_id },
        None => BridgeResponse::ComponentBusy,
    }
}

/// The response to a content block: a failed start reports a prepare error, otherwise the
/// outcome of the write. `started` is `None` when no start was needed.
pub fn content_response(sequence_num: u16, started: Option<bool>, written: bool) -> (r: BridgeResponse)
    ensures
        r == (BridgeResponse::Content {
            sequence_num,
            status: if started == Some(false) {
                ContentStatus::ErrorPrepare
            } else if written {
                ContentStatus::Success
            } else {
                ContentStatus::ErrorWrite
            },
        }),
{
    let status = match started {
        Some(false) => ContentStatus::ErrorPrepare,
        _ => if written {
            ContentStatus::Success
        } else {
            ContentStatus::ErrorWrite
        },
    };
    BridgeResponse::Content { sequence_num, status }
}

/// The response actually sent: a command without a response of its own is answered with
/// "component prepared".
pub fn final_response(response: Option<BridgeResponse>) -> (r: BridgeResponse)
    ensures
        r == (match response {
            Some(x) => x,
            None => BridgeResponse::ComponentPrepared,
        }),
{
    match response {
        Some(x) => x,
        None => BridgeResponse::ComponentPrepared,
    }
}

} // verus!
