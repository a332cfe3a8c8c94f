//! The radio handle: the exclusively-owned capability standing for the
//! initialized radio peripheral.
//!
//! The peripheral itself is hardware the bootstrap collaborator initializes;
//! what the coordinator reads of it — the current channel, the protocol
//! version queried once at startup, the station address — lives here as
//! plain values, with the channel's validity as the handle's invariant.

use vstd::prelude::*;
use crate::address::StationAddress;
use crate::supervisor::MAX_CHANNEL;
use crate::supervisor::MIN_CHANNEL;

verus! {

/// Rejection cause for a channel change.
#[derive(Clone, Copy, PartialEq, Eq, Structural, Debug)]
pub enum ChannelError {
    /// The requested channel lies outside the radio's valid range.
    OutOfRange,
}

/// The one handle on the radio peripheral: created once at startup, owned
/// exclusively for the whole process, never duplicated.
pub struct RadioHandle {
    /// The channel the radio currently operates on.
    pub channel: u8,
    /// The protocol version, read once at initialization.
    pub version: u8,
    /// This station's own hardware address, read once at initialization.
    pub address: StationAddress,
}

impl RadioHandle {
    /// The handle's invariant: the operating channel stays in the radio's
    /// valid range.
    pub open spec fn wf(&self) -> bool {
        MIN_CHANNEL <= self.channel <= MAX_CHANNEL
    }

    /// Wraps what the bootstrap collaborator read off the initialized
    /// peripheral. The initial channel must be a valid one.
    pub fn new(channel: u8, version: u8, address: StationAddress) -> (r: Self)
        requires
            MIN_CHANNEL <= channel <= MAX_CHANNEL,
        ensures
            r.wf(),
            r.channel == channel,
            r.version == version,
            r.address == address,
    {
        RadioHandle { channel, version, address }
    }

    /// Moves the radio to a fixed channel. Accepted exactly when the channel
    /// is in the valid range; rejection leaves the handle unchanged.
    pub fn set_channel(&mut self, channel: u8) -> (r: Result<(), ChannelError>)
        requires
            old(self).wf(),
        ensures
            final(self).wf(),
            r is Ok <==> MIN_CHANNEL <= channel <= MAX_CHANNEL,
            r is Err ==> r == Err::<(), ChannelError>(ChannelError::OutOfRange),
            r is Ok ==> final(self).channel == channel,
            r is Err ==> final(self).channel == old(self).channel,
            final(self).version == old(self).version,
            final(self).address == old(self).address,
    {
        if channel < MIN_CHANNEL || channel > MAX_CHANNEL {
            return Err(ChannelError::OutOfRange);
        }
        self.channel = channel;
        Ok(())
    }

    /// The protocol version, as queried once at initialization.
    pub fn protocol_version(&self) -> (r: u8)
        ensures
            r == self.version,
    {
        self.version
    }

    /// This station's own hardware address.
    pub fn station_address(&self) -> (r: StationAddress)
        ensures
            r == self.address,
    {
        self.address
    }
}

} // verus!
