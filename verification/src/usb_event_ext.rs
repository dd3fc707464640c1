//! Variants of some USB events that carry their data with them, for use when
//! the data is read inside the interrupt handler.

use vstd::prelude::*;

use crate::event::SetupPacket;
use crate::event::UsbInterface;

verus! {

/// The largest packet an endpoint can carry, in bytes.
pub const EP_MAX_PACKET_SIZE: usize = 512;

/// A setup packet received on a control endpoint.
///
/// Contents are (`usb_interface`, `endpoint_number`, `setup_packet`).
#[derive(Clone, Copy, Debug, PartialEq, Eq)]
pub struct ReceiveControl(pub UsbInterface, pub u8, pub SetupPacket);

/// A data packet received on an OUT endpoint.
///
/// Contents are (`usb_interface`, `endpoint_number`, `bytes_read`,
/// `packet_buffer`).
#[derive(Clone, Copy, Debug, PartialEq, Eq)]
pub struct ReceivePacket(pub UsbInterface, pub u8, pub usize, pub [u8; EP_MAX_PACKET_SIZE]);

} // verus!
