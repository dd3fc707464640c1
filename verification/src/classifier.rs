//! The decisions of the USB interrupt handler.
//!
//! One pass of the handler services at most one condition of one controller:
//! the first that is pending when the controllers are asked in the order
//! Target, Aux, Control, and each controller in the order bus reset, control
//! endpoint, OUT endpoint, IN endpoint. Whatever else is pending stays pending
//! for the next pass.
//!
//! The classifier touches no register itself. It is a sequence of [`Step`]s:
//! each step names the one register access to make next and carries what is
//! needed to go on once the access is made. Whoever owns the registers makes
//! the access and resumes the step with what was read, until the step is
//! [`Step::Finish`].

use vstd::prelude::*;

use crate::event::InterruptEvent;
use crate::event::SetupPacket;
use crate::event::UsbEvent;
use crate::event::UsbInterface;

verus! {

/// A condition that a controller raises an interrupt for.
#[derive(Clone, Copy, Debug, PartialEq, Eq, Structural)]
pub enum Condition {
    /// The bus was reset.
    BusReset,
    /// A setup packet arrived on a control endpoint.
    EndpointControl,
    /// A data packet arrived on an OUT endpoint.
    EndpointOut,
    /// A packet was sent from an IN endpoint.
    EndpointIn,
}

/// One interrupt source: a condition of one controller.
#[derive(Clone, Copy, Debug, PartialEq, Eq, Structural)]
pub struct Source {
    pub interface: UsbInterface,
    pub condition: Condition,
}

/// The place of a controller in the order in which controllers are served.
pub open spec fn interface_rank(interface: UsbInterface) -> nat {
    match interface {
        UsbInterface::Target => 0,
        UsbInterface::Aux => 1,
        UsbInterface::Control => 2,
    }
}

/// The place of a condition in the order in which the conditions of one
/// controller are served.
pub open spec fn condition_rank(condition: Condition) -> nat {
    match condition {
        Condition::BusReset => 0,
        Condition::EndpointControl => 1,
        Condition::EndpointOut => 2,
        Condition::EndpointIn => 3,
    }
}

impl Source {
    /// The place of the source in the order of service: 0 is served first.
    pub open spec fn rank(self) -> nat {
        4 * interface_rank(self.interface) + condition_rank(self.condition)
    }

    /// The source that is served first.
    pub open spec fn spec_first() -> Source {
        Source { interface: UsbInterface::Target, condition: Condition::BusReset }
    }

    /// The source that is served after this one, if any.
    pub open spec fn spec_next(self) -> Option<Source> {
        match self.condition {
            Condition::BusReset => Some(
                Source { interface: self.interface, condition: Condition::EndpointControl },
            ),
            Condition::EndpointControl => Some(
                Source { interface: self.interface, condition: Condition::EndpointOut },
            ),
            Condition::EndpointOut => Some(
                Source { interface: self.interface, condition: Condition::EndpointIn },
            ),
            Condition::EndpointIn => match self.interface {
                UsbInterface::Target => Some(
                    Source { interface: UsbInterface::Aux, condition: Condition::BusReset },
                ),
                UsbInterface::Aux => Some(
                    Source { interface: UsbInterface::Control, condition: Condition::BusReset },
                ),
                UsbInterface::Control => None,
            },
        }
    }

    /// The source that is served first.
    #[verifier::when_used_as_spec(spec_first)]
    pub fn first() -> (source: Source)
        ensures
            source == Source::spec_first(),
    {
        Source { interface: UsbInterface::Target, condition: Condition::BusReset }
    }

    /// The source that is served after this one, if any.
    #[verifier::when_used_as_spec(spec_next)]
    pub fn next(self) -> (next: Option<Source>)
        ensures
            next == self.spec_next(),
    {
        match self.condition {
            Condition::BusReset => Some(
                Source { interface: self.interface, condition: Condition::EndpointControl },
            ),
            Condition::EndpointControl => Some(
                Source { interface: self.interface, condition: Condition::EndpointOut },
            ),
            Condition::EndpointOut => Some(
                Source { interface: self.interface, condition: Condition::EndpointIn },
            ),
            Condition::EndpointIn => match self.interface {
                UsbInterface::Target => Some(
                    Source { interface: UsbInterface::Aux, condition: Condition::BusReset },
                ),
                UsbInterface::Aux => Some(
                    Source { interface: UsbInterface::Control, condition: Condition::BusReset },
                ),
                UsbInterface::Control => None,
            },
        }
    }

    /// There are twelve sources, ranked 0 to 11 without gaps: the first has
    /// rank 0, each next one the rank after, and the last has rank 11.
    pub proof fn lemma_next_follows_in_rank(self)
        ensures
            Source::spec_first().rank() == 0,
            self.rank() <= 11,
            match self.spec_next() {
                Some(next) => next.rank() == self.rank() + 1,
                None => self.rank() == 11,
            },
    {
    }

    /// No two sources share a rank.
    pub proof fn lemma_rank_tells_sources_apart(self, other: Source)
        requires
            self.rank() == other.rank(),
        ensures
            self == other,
    {
    }
}

/// The message of the event that reports a setup read of zero bytes.
pub open spec fn spec_empty_setup_message(interface: UsbInterface) -> &'static str {
    match interface {
        UsbInterface::Target => "ERROR USB0 received 0 bytes for setup packet",
        UsbInterface::Aux => "ERROR USB1 received 0 bytes for setup packet",
        UsbInterface::Control => "ERROR USB2 received 0 bytes for setup packet",
    }
}

/// The message of the event that reports a setup read of zero bytes.
#[verifier::when_used_as_spec(spec_empty_setup_message)]
pub fn empty_setup_message(interface: UsbInterface) -> (message: &'static str)
    ensures
        message == spec_empty_setup_message(interface),
{
    match interface {
        UsbInterface::Target => "ERROR USB0 received 0 bytes for setup packet",
        UsbInterface::Aux => "ERROR USB1 received 0 bytes for setup packet",
        UsbInterface::Control => "ERROR USB2 received 0 bytes for setup packet",
    }
}

/// The event that a read of the control FIFO gives rise to: an error message
/// if nothing was read, and otherwise the setup packet that the buffer holds.
pub open spec fn spec_setup_event(
    interface: UsbInterface,
    endpoint_number: u8,
    bytes_read: usize,
    bytes: Seq<u8>,
) -> InterruptEvent {
    if bytes_read == 0 {
        InterruptEvent::ErrorMessage(spec_empty_setup_message(interface))
    } else {
        InterruptEvent::Usb(
            interface,
            UsbEvent::ReceiveSetupPacket(endpoint_number, SetupPacket::parse(bytes)),
        )
    }
}

/// The event that a read of the control FIFO gives rise to.
///
/// A read of zero bytes is reported as an error message and never as a setup
/// packet; any other read is reported with the packet that the buffer holds.
pub fn setup_event(
    interface: UsbInterface,
    endpoint_number: u8,
    bytes_read: usize,
    buffer: [u8; 8],
) -> (event: InterruptEvent)
    ensures
        event == spec_setup_event(interface, endpoint_number, bytes_read, buffer@),
        bytes_read == 0 <==> event is ErrorMessage,
        bytes_read != 0 <==> event == InterruptEvent::Usb(
            interface,
            UsbEvent::ReceiveSetupPacket(endpoint_number, SetupPacket::parse(buffer@)),
        ),
{
    if bytes_read == 0 {
        InterruptEvent::ErrorMessage(empty_setup_message(interface))
    } else {
        InterruptEvent::Usb(
            interface,
            UsbEvent::ReceiveSetupPacket(endpoint_number, SetupPacket::from(buffer)),
        )
    }
}

/// What remains to be done once a register write has been made.
#[derive(Clone, Copy, Debug, PartialEq, Eq)]
pub enum Rest {
    /// Run the bus reset sequence of the controller.
    BusReset(UsbInterface),
    /// Clear the flag that marks a transmission on the endpoint as awaiting
    /// its acknowledgement.
    ClearTxAckActive(UsbInterface, u8),
    /// Nothing: the pass ends with this event.
    Finish(InterruptEvent),
}

/// Waits for the pending bits of all interrupt sources.
#[derive(Clone, Copy, Debug, PartialEq, Eq)]
pub struct AwaitPending {}

/// Waits for the answer to whether `source` is pending.
#[derive(Clone, Copy, Debug, PartialEq, Eq)]
pub struct AwaitFlag {
    /// The pending bits read at the start of the pass.
    pub pending: usize,
    /// The source that is asked.
    pub source: Source,
}

/// Waits for the number of the endpoint that raised `source`.
#[derive(Clone, Copy, Debug, PartialEq, Eq)]
pub struct AwaitEndpoint {
    pub source: Source,
}

/// Waits for the bytes of the control FIFO of `interface`.
#[derive(Clone, Copy, Debug, PartialEq, Eq)]
pub struct AwaitControl {
    pub interface: UsbInterface,
    pub endpoint_number: u8,
}

/// Waits for a register write to be made.
#[derive(Clone, Copy, Debug, PartialEq, Eq)]
pub struct AwaitDone {
    pub rest: Rest,
}

/// The register access to make next, with what goes on after it.
#[derive(Clone, Copy, Debug, PartialEq, Eq)]
pub enum Step {
    /// Read the pending bits of all interrupt sources.
    ReadPending(AwaitPending),
    /// Ask whether the source is pending.
    IsPending(AwaitFlag),
    /// Read the number of the endpoint that raised the source.
    ReadEndpointNumber(AwaitEndpoint),
    /// Read up to eight bytes from the control FIFO of the controller into a
    /// zeroed buffer.
    ReadControl(AwaitControl),
    /// Clear the pending bit of the source.
    ClearPending(Source, AwaitDone),
    /// Run the bus reset sequence of the controller.
    BusReset(UsbInterface, AwaitDone),
    /// Clear the flag that marks a transmission on the endpoint as awaiting
    /// its acknowledgement.
    ClearTxAckActive(UsbInterface, u8, AwaitDone),
    /// The pass is over and this is its event.
    Finish(InterruptEvent),
}

/// The first step of servicing a source that was found pending.
///
/// A bus reset is acknowledged at once, so that a reset which arrives while
/// this one is handled is not lost. An endpoint condition starts with reading
/// which endpoint it is about.
pub open spec fn spec_service(source: Source) -> Step {
    match source.condition {
        Condition::BusReset => Step::ClearPending(
            source,
            AwaitDone { rest: Rest::BusReset(source.interface) },
        ),
        _ => Step::ReadEndpointNumber(AwaitEndpoint { source }),
    }
}

/// The first step of servicing a source that was found pending.
#[verifier::when_used_as_spec(spec_service)]
pub fn service(source: Source) -> (step: Step)
    ensures
        step == spec_service(source),
{
    match source.condition {
        Condition::BusReset => Step::ClearPending(
            source,
            AwaitDone { rest: Rest::BusReset(source.interface) },
        ),
        _ => Step::ReadEndpointNumber(AwaitEndpoint { source }),
    }
}

impl AwaitPending {
    /// With the pending bits in hand, the sources are asked one by one,
    /// starting with the first.
    pub open spec fn spec_resume(self, pending: usize) -> Step {
        Step::IsPending(AwaitFlag { pending, source: Source::spec_first() })
    }

    /// Goes on with the pending bits that were read.
    #[verifier::when_used_as_spec(spec_resume)]
    pub fn resume(self, pending: usize) -> (step: Step)
        ensures
            step == self.spec_resume(pending),
    {
        Step::IsPending(AwaitFlag { pending, source: Source::first() })
    }
}

impl AwaitFlag {
    /// A pending source is serviced, and no source after it is looked at. If
    /// the source is not pending the next one is asked; after the last one
    /// the pass ends unhandled, with the pending bits read at its start.
    pub open spec fn spec_resume(self, is_pending: bool) -> Step {
        if is_pending {
            spec_service(self.source)
        } else {
            match self.source.spec_next() {
                Some(source) => Step::IsPending(AwaitFlag { pending: self.pending, source }),
                None => Step::Finish(InterruptEvent::UnhandledInterrupt(self.pending)),
            }
        }
    }

    /// Goes on with the answer to whether the source is pending.
    #[verifier::when_used_as_spec(spec_resume)]
    pub fn resume(self, is_pending: bool) -> (step: Step)
        ensures
            step == self.spec_resume(is_pending),
    {
        if is_pending {
            service(self.source)
        } else {
            match self.source.next() {
                Some(source) => Step::IsPending(AwaitFlag { pending: self.pending, source }),
                None => Step::Finish(InterruptEvent::UnhandledInterrupt(self.pending)),
            }
        }
    }
}

impl AwaitEndpoint {
    /// On the control endpoint of the Target and Aux controllers the setup
    /// bytes are read next, before the condition is acknowledged. The Control
    /// controller leaves its setup bytes where they are and reports the
    /// endpoint alone. A received packet is acknowledged and reported. A
    /// completed send is acknowledged, then the endpoint's flag is cleared.
    pub open spec fn spec_resume(self, endpoint_number: u8) -> Step {
        let interface = self.source.interface;
        match self.source.condition {
            Condition::BusReset => spec_service(self.source),
            Condition::EndpointControl => match interface {
                UsbInterface::Control => Step::ClearPending(
                    self.source,
                    AwaitDone {
                        rest: Rest::Finish(
                            InterruptEvent::Usb(
                                interface,
                                UsbEvent::ReceiveControl(endpoint_number),
                            ),
                        ),
                    },
                ),
                _ => Step::ReadControl(AwaitControl { interface, endpoint_number }),
            },
            Condition::EndpointOut => Step::ClearPending(
                self.source,
                AwaitDone {
                    rest: Rest::Finish(
                        InterruptEvent::Usb(interface, UsbEvent::ReceivePacket(endpoint_number)),
                    ),
                },
            ),
            Condition::EndpointIn => Step::ClearPending(
                self.source,
                AwaitDone { rest: Rest::ClearTxAckActive(interface, endpoint_number) },
            ),
        }
    }

    /// Goes on with the endpoint number that was read.
    #[verifier::when_used_as_spec(spec_resume)]
    pub fn resume(self, endpoint_number: u8) -> (step: Step)
        ensures
            step == self.spec_resume(endpoint_number),
    {
        let interface = self.source.interface;
        match self.source.condition {
            Condition::BusReset => service(self.source),
            Condition::EndpointControl => match interface {
                UsbInterface::Control => Step::ClearPending(
                    self.source,
                    AwaitDone {
                        rest: Rest::Finish(
                            InterruptEvent::Usb(
                                interface,
                                UsbEvent::ReceiveControl(endpoint_number),
                            ),
                        ),
                    },
                ),
                _ => Step::ReadControl(AwaitControl { interface, endpoint_number }),
            },
            Condition::EndpointOut => Step::ClearPending(
                self.source,
                AwaitDone {
                    rest: Rest::Finish(
                        InterruptEvent::Usb(interface, UsbEvent::ReceivePacket(endpoint_number)),
                    ),
                },
            ),
            Condition::EndpointIn => Step::ClearPending(
                self.source,
                AwaitDone { rest: Rest::ClearTxAckActive(interface, endpoint_number) },
            ),
        }
    }
}

impl AwaitControl {
    /// Once the setup bytes are read the condition is acknowledged, and the
    /// pass ends with the event that the read gives rise to.
    pub open spec fn spec_resume(self, bytes_read: usize, bytes: Seq<u8>) -> Step {
        Step::ClearPending(
            Source { interface: self.interface, condition: Condition::EndpointControl },
            AwaitDone {
                rest: Rest::Finish(
                    spec_setup_event(self.interface, self.endpoint_number, bytes_read, bytes),
                ),
            },
        )
    }

    /// Goes on with the number of bytes that were read and the buffer that
    /// they were read into.
    pub fn resume(self, bytes_read: usize, buffer: [u8; 8]) -> (step: Step)
        ensures
            step == self.spec_resume(bytes_read, buffer@),
    {
        Step::ClearPending(
            Source { interface: self.interface, condition: Condition::EndpointControl },
            AwaitDone {
                rest: Rest::Finish(
                    setup_event(self.interface, self.endpoint_number, bytes_read, buffer),
                ),
            },
        )
    }
}

impl AwaitDone {
    /// After the write, what was put off until then is done: the bus reset
    /// sequence, which ends the pass with a bus reset event; the clearing of
    /// the endpoint's flag, which ends it with a send-complete event; or
    /// nothing more.
    pub open spec fn spec_resume(self) -> Step {
        match self.rest {
            Rest::BusReset(interface) => Step::BusReset(
                interface,
                AwaitDone { rest: Rest::Finish(InterruptEvent::Usb(interface, UsbEvent::BusReset)) },
            ),
            Rest::ClearTxAckActive(interface, endpoint_number) => Step::ClearTxAckActive(
                interface,
                endpoint_number,
                AwaitDone {
                    rest: Rest::Finish(
                        InterruptEvent::Usb(interface, UsbEvent::SendComplete(endpoint_number)),
                    ),
                },
            ),
            Rest::Finish(event) => Step::Finish(event),
        }
    }

    /// Goes on after the write was made.
    #[verifier::when_used_as_spec(spec_resume)]
    pub fn resume(self) -> (step: Step)
        ensures
            step == self.spec_resume(),
    {
        match self.rest {
            Rest::BusReset(interface) => Step::BusReset(
                interface,
                AwaitDone { rest: Rest::Finish(InterruptEvent::Usb(interface, UsbEvent::BusReset)) },
            ),
            Rest::ClearTxAckActive(interface, endpoint_number) => Step::ClearTxAckActive(
                interface,
                endpoint_number,
                AwaitDone {
                    rest: Rest::Finish(
                        InterruptEvent::Usb(interface, UsbEvent::SendComplete(endpoint_number)),
                    ),
                },
            ),
            Rest::Finish(event) => Step::Finish(event),
        }
    }
}

impl Rest {
    /// How many register accesses are still to come, at most.
    pub open spec fn remaining(self) -> nat {
        match self {
            Rest::Finish(_) => 0,
            _ => 1,
        }
    }
}

impl Step {
    /// The step that a pass starts with.
    pub open spec fn spec_start() -> Step {
        Step::ReadPending(AwaitPending {})
    }

    /// The step that a pass starts with.
    #[verifier::when_used_as_spec(spec_start)]
    pub fn start() -> (step: Step)
        ensures
            step == Step::spec_start(),
    {
        Step::ReadPending(AwaitPending {})
    }

    /// How many register accesses are still to come, at most. A pass is over
    /// after at most 17 of them.
    pub open spec fn remaining(self) -> nat {
        match self {
            Step::ReadPending(_) => 17,
            Step::IsPending(flag) => (16 - flag.source.rank()) as nat,
            Step::ReadEndpointNumber(_) => 4,
            Step::ReadControl(_) => 2,
            Step::ClearPending(_, done) => 1 + done.rest.remaining(),
            Step::BusReset(_, done) => 1 + done.rest.remaining(),
            Step::ClearTxAckActive(_, _, done) => 1 + done.rest.remaining(),
            Step::Finish(_) => 0,
        }
    }
}

} // verus!
