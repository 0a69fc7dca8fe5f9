//! Decisions of the transport-agnostic layer: which transport to (re)try
//! when watched interfaces arrive and leave.

use vstd::prelude::*;

use crate::hid::DeviceInfo;
use crate::hid::Transport;
use crate::hid::PID_BT;
use crate::hid::PID_USB;

verus! {

/// Which transport the keyboard is currently driven over.
#[derive(Copy, Clone, Debug, PartialEq, Eq, Structural)]
pub enum ConnectionState {
    Disconnected,
    USB,
    BT,
}

/// What to do when a device arrives.
#[derive(Copy, Clone, Debug, PartialEq, Eq, Structural)]
pub enum ArrivalAction {
    /// Not one of ours, or nothing changes.
    Ignore,
    /// First watched interface while disconnected: try Bluetooth, then USB.
    ConnectBtThenUsb,
    /// The keyboard switched to Bluetooth while we drive it over USB.
    ConnectBt,
}

/// What to do when a watched device leaves.
#[derive(Copy, Clone, Debug, PartialEq, Eq, Structural)]
pub enum RemovalAction {
    /// Not the transport we are connected over.
    Ignore,
    /// Bluetooth went away: drop the connection and try USB.
    ReconnectOverUsb,
    /// USB went away: drop the connection and try Bluetooth.
    ReconnectOverBt,
}

/// The decision for a HID interface arrival: `watched` says whether the
/// interface is on the notify list.
pub fn on_device_arrival(state: &ConnectionState, device: &DeviceInfo, watched: bool) -> (a:
    ArrivalAction)
    ensures
        !watched ==> a == ArrivalAction::Ignore,
        watched && *state is Disconnected ==> a == ArrivalAction::ConnectBtThenUsb,
        watched && *state is USB && device.product_id == PID_BT && device.product_id != PID_USB
            ==> a == ArrivalAction::ConnectBt,
        watched && *state is BT ==> a == ArrivalAction::Ignore,
        watched && *state is USB && device.product_id != PID_BT ==> a == ArrivalAction::Ignore,
{
    if !watched {
        return ArrivalAction::Ignore;
    }
    match state {
        ConnectionState::Disconnected => ArrivalAction::ConnectBtThenUsb,
        ConnectionState::USB => {
            if device.transport() == Some(Transport::BT) {
                // The wireless dongle is still plugged in, but the keyboard
                // moved to Bluetooth.
                ArrivalAction::ConnectBt
            } else {
                ArrivalAction::Ignore
            }
        },
        ConnectionState::BT => ArrivalAction::Ignore,
    }
}

/// The decision for a watched interface's removal, given the transport of
/// the removed device.
pub fn on_device_removal(state: &ConnectionState, removed: Option<Transport>) -> (a: RemovalAction)
    ensures
        removed == Some(Transport::BT) && *state is BT ==> a == RemovalAction::ReconnectOverUsb,
        removed == Some(Transport::USB) && *state is USB ==> a == RemovalAction::ReconnectOverBt,
        removed is None ==> a == RemovalAction::Ignore,
        *state is Disconnected ==> a == RemovalAction::Ignore,
        removed == Some(Transport::BT) && *state is USB ==> a == RemovalAction::Ignore,
        removed == Some(Transport::USB) && *state is BT ==> a == RemovalAction::Ignore,
{
    match (removed, state) {
        (Some(Transport::BT), ConnectionState::BT) => RemovalAction::ReconnectOverUsb,
        (Some(Transport::USB), ConnectionState::USB) => RemovalAction::ReconnectOverBt,
        _ => RemovalAction::Ignore,
    }
}

} // verus!
