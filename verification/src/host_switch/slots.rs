//! Best-effort pairing status for Easy-Switch host slots.

use vstd::prelude::*;

use crate::host_switch::error::{Fault, HostSwitchError};

verus! {

/// Pairing status explicitly reported for one Easy-Switch host slot.
#[derive(Debug, Clone, Copy, PartialEq, Eq, Structural)]
pub enum ReportedHostSlot {
    /// The device reports that nothing is paired in this slot.
    Empty,
    /// The device reports that this slot is paired.
    Paired,
    /// The device cannot report a trustworthy pairing status for this slot.
    Unknown,
}

/// Slot named by a `HostsInfo` reply.
#[derive(Debug, Clone, Copy, PartialEq, Eq, Structural)]
pub enum HostIndex {
    /// The slot in use, without its number.
    Current,
    /// A numbered slot.
    Slot(u8),
    /// A value that stands for no slot.
    Unrecognized,
}

/// Pairing status field of a `HostsInfo` reply.
#[derive(Debug, Clone, Copy, PartialEq, Eq, Structural)]
pub enum HostSlotStatus {
    /// Nothing is paired in the slot.
    Empty,
    /// A host is paired in the slot.
    Paired,
    /// A value that stands for no status.
    Unrecognized,
}

/// The part of a `HostsInfo` slot reply that pairing checks read.
#[derive(Debug, Clone, Copy, PartialEq, Eq, Structural)]
pub struct HostSlotReply {
    /// Slot that the reply is about.
    pub host_index: HostIndex,
    /// Whether that slot is paired.
    pub status: HostSlotStatus,
}

/// Resolved access to a keyboard's reportable host-slot state.
#[derive(Debug, Clone, Copy, PartialEq, Eq, Structural)]
pub enum ReportedHostSlotReader {
    /// The keyboard explicitly does not expose `HostsInfo`.
    Unsupported,
    /// Feature discovery failed, so support could not be determined safely.
    Unavailable,
    /// The keyboard exposes `HostsInfo` at this runtime feature index.
    Supported(u8),
}

/// The reader that a `HostsInfo` lookup leads to.
pub open spec fn reader_for(lookup: Result<Option<u8>, Fault>) -> ReportedHostSlotReader {
    match lookup {
        Ok(Some(index)) => ReportedHostSlotReader::Supported(index),
        Ok(None) => ReportedHostSlotReader::Unsupported,
        Err(_) => ReportedHostSlotReader::Unavailable,
    }
}

/// The status that a slot read proves of `host`.
///
/// Only a reply about that very slot with a recognized status proves anything;
/// a foreign, malformed or failed read leaves the slot unknown.
pub open spec fn slot_proved(host: u8, read: Result<HostSlotReply, Fault>) -> ReportedHostSlot {
    match read {
        Ok(reply) => if reply.host_index == HostIndex::Slot(host) {
            match reply.status {
                HostSlotStatus::Empty => ReportedHostSlot::Empty,
                HostSlotStatus::Paired => ReportedHostSlot::Paired,
                HostSlotStatus::Unrecognized => ReportedHostSlot::Unknown,
            }
        } else {
            ReportedHostSlot::Unknown
        },
        Err(_) => ReportedHostSlot::Unknown,
    }
}

impl ReportedHostSlotReader {
    /// The reader for a keyboard whose `HostsInfo` lookup ended as given.
    pub fn resolve(lookup: Result<Option<u8>, HostSwitchError>) -> (reader: Self)
        ensures
            match lookup {
                Ok(Some(index)) => reader == ReportedHostSlotReader::Supported(index),
                Ok(None) => reader == ReportedHostSlotReader::Unsupported,
                Err(_) => reader == ReportedHostSlotReader::Unavailable,
            },
    {
        match lookup {
            Ok(Some(index)) => ReportedHostSlotReader::Supported(index),
            Ok(None) => ReportedHostSlotReader::Unsupported,
            Err(_) => ReportedHostSlotReader::Unavailable,
        }
    }

    /// Whether slot status can be asked for at all.
    pub fn is_supported(&self) -> (supported: bool)
        ensures
            supported == (self is Supported),
    {
        matches!(self, ReportedHostSlotReader::Supported(_))
    }

    /// The feature to ask for one host slot, or what is known without asking.
    ///
    /// `ChangeHost`'s host count includes empty RF channels, so `HostsInfo` is
    /// the only source of per-slot pairing status; a keyboard without it
    /// leaves every slot unknown.
    pub fn read_one(&self) -> (source: Result<u8, ReportedHostSlot>)
        ensures
            source == match *self {
                ReportedHostSlotReader::Supported(index) => Ok::<u8, ReportedHostSlot>(index),
                _ => Err::<u8, ReportedHostSlot>(ReportedHostSlot::Unknown),
            },
    {
        match self {
            ReportedHostSlotReader::Supported(index) => Ok(*index),
            ReportedHostSlotReader::Unsupported | ReportedHostSlotReader::Unavailable => Err(
                ReportedHostSlot::Unknown,
            ),
        }
    }
}

/// The pairing status of `host` that a slot read proves.
pub fn read_host_slot(host: u8, read: Result<HostSlotReply, HostSwitchError>) -> (slot:
    ReportedHostSlot)
    ensures
        slot == slot_proved(host, crate::host_switch::error::seen(read)),
{
    match read {
        Ok(reply) => {
            if reply.host_index != HostIndex::Slot(host) {
                return ReportedHostSlot::Unknown;
            }
            match reply.status {
                HostSlotStatus::Empty => ReportedHostSlot::Empty,
                HostSlotStatus::Paired => ReportedHostSlot::Paired,
                HostSlotStatus::Unrecognized => ReportedHostSlot::Unknown,
            }
        },
        Err(_) => ReportedHostSlot::Unknown,
    }
}

} // verus!
