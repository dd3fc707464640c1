//! The values that flow out of interrupt handling.

use vstd::prelude::*;
use vstd::std_specs::convert::FromSpecImpl;

verus! {

/// The role a physical USB controller plays on the device.
#[derive(Clone, Copy, Debug, PartialEq, Eq, Structural)]
pub enum UsbInterface {
    /// The primary device-mode bus under analysis.
    Target,
    /// The secondary, host-capable bus.
    Aux,
    /// The sideband bus used for management.
    Control,
}

/// The eight-byte header that begins every USB control transfer.
#[derive(Clone, Copy, Debug, PartialEq, Eq, Structural)]
pub struct SetupPacket {
    pub request_type: u8,
    pub request: u8,
    pub value: u16,
    pub index: u16,
    pub length: u16,
}

/// The 16-bit field whose low byte is `low` and whose high byte is `high`.
pub open spec fn word(low: u8, high: u8) -> u16 {
    (low + 256 * high) as u16
}

impl SetupPacket {
    /// The packet that the first eight bytes of `bytes` encode: two single
    /// bytes followed by three 16-bit fields, each least significant byte first.
    pub open spec fn parse(bytes: Seq<u8>) -> SetupPacket {
        SetupPacket {
            request_type: bytes[0],
            request: bytes[1],
            value: word(bytes[2], bytes[3]),
            index: word(bytes[4], bytes[5]),
            length: word(bytes[6], bytes[7]),
        }
    }

    /// The eight bytes that encode this packet on the wire.
    pub open spec fn bytes(self) -> Seq<u8> {
        seq![
            self.request_type,
            self.request,
            (self.value % 256) as u8,
            (self.value / 256) as u8,
            (self.index % 256) as u8,
            (self.index / 256) as u8,
            (self.length % 256) as u8,
            (self.length / 256) as u8,
        ]
    }

    /// Serialises a packet into its eight wire bytes.
    pub fn as_bytes(setup_packet: SetupPacket) -> (buffer: [u8; 8])
        ensures
            buffer@ == setup_packet.bytes(),
    {
        let buffer: [u8; 8] = [
            setup_packet.request_type,
            setup_packet.request,
            (setup_packet.value % 256) as u8,
            (setup_packet.value / 256) as u8,
            (setup_packet.index % 256) as u8,
            (setup_packet.index / 256) as u8,
            (setup_packet.length % 256) as u8,
            (setup_packet.length / 256) as u8,
        ];
        assert(buffer@ =~= setup_packet.bytes());
        buffer
    }

    /// Parsing eight bytes and writing the packet back out gives the same
    /// eight bytes.
    pub proof fn lemma_bytes_of_parse(bytes: Seq<u8>)
        requires
            bytes.len() == 8,
        ensures
            SetupPacket::parse(bytes).bytes() == bytes,
    {
        assert(SetupPacket::parse(bytes).bytes() =~= bytes);
    }

    /// Writing a packet out and parsing the bytes gives the same packet.
    pub proof fn lemma_parse_of_bytes(packet: SetupPacket)
        ensures
            packet.bytes().len() == 8,
            SetupPacket::parse(packet.bytes()) == packet,
    {
    }
}

impl From<[u8; 8]> for SetupPacket {
    fn from(buffer: [u8; 8]) -> (packet: SetupPacket) {
        SetupPacket {
            request_type: buffer[0],
            request: buffer[1],
            value: buffer[2] as u16 + 256 * (buffer[3] as u16),
            index: buffer[4] as u16 + 256 * (buffer[5] as u16),
            length: buffer[6] as u16 + 256 * (buffer[7] as u16),
        }
    }
}

impl FromSpecImpl<[u8; 8]> for SetupPacket {
    open spec fn obeys_from_spec() -> bool {
        true
    }

    open spec fn from_spec(buffer: [u8; 8]) -> SetupPacket {
        SetupPacket::parse(buffer@)
    }
}

/// A condition that a USB controller signals through an interrupt.
#[derive(Clone, Copy, Debug, PartialEq, Eq, Structural)]
pub enum UsbEvent {
    /// The bus was reset.
    BusReset,
    /// A control transfer arrived on the endpoint; its setup bytes are still
    /// in the controller.
    ReceiveControl(u8),
    /// A control transfer arrived on the endpoint, with its setup packet.
    ReceiveSetupPacket(u8, SetupPacket),
    /// A data packet arrived on the endpoint.
    ReceivePacket(u8),
    /// The packet queued on the endpoint was sent and acknowledged.
    SendComplete(u8),
}

/// The outcome of one pass of interrupt classification.
#[derive(Clone, Copy, Debug, PartialEq, Eq)]
pub enum InterruptEvent {
    /// A USB condition occurred on the named controller.
    Usb(UsbInterface, UsbEvent),
    /// Classification met a condition it could not recover from locally.
    ErrorMessage(&'static str),
    /// No known condition was pending; carries the raw pending bits.
    UnhandledInterrupt(usize),
}

} // verus!
