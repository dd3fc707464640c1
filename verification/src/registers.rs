//! A model of the registers that the interrupt handler reads and writes, and
//! one pass of the handler over it.
//!
//! The model holds, for each of the three controllers, the pending bit of
//! each condition, the endpoint number that each endpoint condition reports
//! and the bytes waiting in the control FIFO. It also keeps the list of the
//! writes that were made, in the order in which they were made. It says what
//! one pass of the handler does to the registers, and it lets a pass run
//! where there is no device.

use vstd::prelude::*;

use crate::classifier::spec_setup_event;
use crate::classifier::Condition;
use crate::classifier::Source;
use crate::classifier::Step;
use crate::event::InterruptEvent;
use crate::event::UsbEvent;
use crate::event::UsbInterface;

verus! {

/// A register access that changes the state of a controller.
#[derive(Clone, Copy, Debug, PartialEq, Eq, Structural)]
pub enum Operation {
    /// The pending bit of the source was cleared.
    ClearPending(Source),
    /// The bus reset sequence of the controller was run.
    BusReset(UsbInterface),
    /// The control FIFO of the controller was read.
    ReadControl(UsbInterface),
    /// The flag that marks a transmission on the endpoint as awaiting its
    /// acknowledgement was cleared.
    ClearTxAckActive(UsbInterface, u8),
}

/// The registers of one controller.
#[derive(Debug, PartialEq, Eq)]
pub struct Controller {
    /// A bus reset is pending.
    pub bus_reset_pending: bool,
    /// A setup packet on a control endpoint is pending.
    pub control_pending: bool,
    /// A received packet on an OUT endpoint is pending.
    pub out_pending: bool,
    /// A completed send on an IN endpoint is pending.
    pub in_pending: bool,
    /// The control endpoint that the setup packet arrived on.
    pub control_endpoint: u8,
    /// The OUT endpoint that the packet arrived on.
    pub out_endpoint: u8,
    /// The IN endpoint that the send completed on.
    pub in_endpoint: u8,
    /// The bytes waiting in the control FIFO, oldest first.
    pub control_fifo: Vec<u8>,
}

/// The registers of one controller, as plain values.
pub struct ControllerState {
    pub bus_reset_pending: bool,
    pub control_pending: bool,
    pub out_pending: bool,
    pub in_pending: bool,
    pub control_endpoint: u8,
    pub out_endpoint: u8,
    pub in_endpoint: u8,
    pub control_fifo: Seq<u8>,
}

impl View for Controller {
    type V = ControllerState;

    open spec fn view(&self) -> ControllerState {
        ControllerState {
            bus_reset_pending: self.bus_reset_pending,
            control_pending: self.control_pending,
            out_pending: self.out_pending,
            in_pending: self.in_pending,
            control_endpoint: self.control_endpoint,
            out_endpoint: self.out_endpoint,
            in_endpoint: self.in_endpoint,
            control_fifo: self.control_fifo@,
        }
    }
}

impl ControllerState {
    /// A controller with nothing pending and an empty FIFO.
    pub open spec fn idle() -> ControllerState {
        ControllerState {
            bus_reset_pending: false,
            control_pending: false,
            out_pending: false,
            in_pending: false,
            control_endpoint: 0,
            out_endpoint: 0,
            in_endpoint: 0,
            control_fifo: Seq::empty(),
        }
    }

    /// Whether the condition is pending.
    pub open spec fn is_pending(self, condition: Condition) -> bool {
        match condition {
            Condition::BusReset => self.bus_reset_pending,
            Condition::EndpointControl => self.control_pending,
            Condition::EndpointOut => self.out_pending,
            Condition::EndpointIn => self.in_pending,
        }
    }

    /// The endpoint that the condition is about. A bus reset is about no
    /// endpoint and reads as 0.
    pub open spec fn endpoint_number(self, condition: Condition) -> u8 {
        match condition {
            Condition::BusReset => 0,
            Condition::EndpointControl => self.control_endpoint,
            Condition::EndpointOut => self.out_endpoint,
            Condition::EndpointIn => self.in_endpoint,
        }
    }

    /// The controller after the pending bit of the condition was cleared.
    pub open spec fn cleared(self, condition: Condition) -> ControllerState {
        match condition {
            Condition::BusReset => ControllerState { bus_reset_pending: false, ..self },
            Condition::EndpointControl => ControllerState { control_pending: false, ..self },
            Condition::EndpointOut => ControllerState { out_pending: false, ..self },
            Condition::EndpointIn => ControllerState { in_pending: false, ..self },
        }
    }

    /// How many bytes a read of the control FIFO returns: all that wait
    /// there, but no more than eight.
    pub open spec fn control_bytes_read(self) -> usize {
        if self.control_fifo.len() < 8 {
            self.control_fifo.len() as usize
        } else {
            8
        }
    }

    /// The buffer that a read of the control FIFO fills: the bytes read,
    /// followed by zeroes.
    pub open spec fn control_bytes(self) -> Seq<u8> {
        Seq::new(
            8,
            |i: int|
                if i < self.control_fifo.len() {
                    self.control_fifo[i]
                } else {
                    0u8
                },
        )
    }

    /// The controller after its control FIFO was read: the FIFO is empty.
    pub open spec fn drained(self) -> ControllerState {
        ControllerState { control_fifo: Seq::empty(), ..self }
    }
}

impl Controller {
    /// A controller with nothing pending and an empty FIFO.
    pub fn new() -> (controller: Controller)
        ensures
            controller@ == ControllerState::idle(),
    {
        Controller {
            bus_reset_pending: false,
            control_pending: false,
            out_pending: false,
            in_pending: false,
            control_endpoint: 0,
            out_endpoint: 0,
            in_endpoint: 0,
            control_fifo: Vec::new(),
        }
    }

    /// Whether the condition is pending.
    pub fn is_pending(&self, condition: Condition) -> (is_pending: bool)
        ensures
            is_pending == self@.is_pending(condition),
    {
        match condition {
            Condition::BusReset => self.bus_reset_pending,
            Condition::EndpointControl => self.control_pending,
            Condition::EndpointOut => self.out_pending,
            Condition::EndpointIn => self.in_pending,
        }
    }

    /// The endpoint that the condition is about.
    pub fn read_endpoint_number(&self, condition: Condition) -> (endpoint_number: u8)
        ensures
            endpoint_number == self@.endpoint_number(condition),
    {
        match condition {
            Condition::BusReset => 0,
            Condition::EndpointControl => self.control_endpoint,
            Condition::EndpointOut => self.out_endpoint,
            Condition::EndpointIn => self.in_endpoint,
        }
    }

    /// Clears the pending bit of the condition.
    pub fn clear_pending(&mut self, condition: Condition)
        ensures
            final(self)@ == old(self)@.cleared(condition),
    {
        match condition {
            Condition::BusReset => {
                self.bus_reset_pending = false;
            },
            Condition::EndpointControl => {
                self.control_pending = false;
            },
            Condition::EndpointOut => {
                self.out_pending = false;
            },
            Condition::EndpointIn => {
                self.in_pending = false;
            },
        }
    }

    /// Reads up to eight bytes from the control FIFO into a zeroed buffer
    /// and empties the FIFO. Returns the number of bytes read and the buffer.
    pub fn read_control(&mut self) -> (read: (usize, [u8; 8]))
        ensures
            read.0 == old(self)@.control_bytes_read(),
            read.1@ == old(self)@.control_bytes(),
            final(self)@ == old(self)@.drained(),
    {
        let mut buffer: [u8; 8] = [0u8; 8];
        let mut bytes_read: usize = 0;
        while bytes_read < 8 && bytes_read < self.control_fifo.len()
            invariant
                bytes_read <= 8,
                bytes_read <= self.control_fifo.len(),
                *self == *old(self),
                forall|i: int| 0 <= i < bytes_read ==> buffer@[i] == self.control_fifo@[i],
                forall|i: int| bytes_read <= i < 8 ==> buffer@[i] == 0u8,
            decreases 8 - bytes_read,
        {
            buffer[bytes_read] = self.control_fifo[bytes_read];
            bytes_read = bytes_read + 1;
        }
        self.control_fifo = Vec::new();
        assert(buffer@ =~= old(self)@.control_bytes());
        (bytes_read, buffer)
    }
}

/// The registers that the interrupt handler reads and writes.
#[derive(Debug, PartialEq, Eq)]
pub struct Registers {
    /// The pending bits of all interrupt sources of the machine, as the
    /// processor reports them.
    pub pending: usize,
    /// The controller of the bus under analysis.
    pub target: Controller,
    /// The controller of the secondary bus.
    pub aux: Controller,
    /// The controller of the sideband bus.
    pub control: Controller,
    /// The writes that were made, oldest first.
    pub operations: Vec<Operation>,
}

/// The registers that the interrupt handler reads and writes, as plain
/// values.
pub struct RegisterState {
    pub pending: usize,
    pub target: ControllerState,
    pub aux: ControllerState,
    pub control: ControllerState,
    pub operations: Seq<Operation>,
}

impl View for Registers {
    type V = RegisterState;

    open spec fn view(&self) -> RegisterState {
        RegisterState {
            pending: self.pending,
            target: self.target@,
            aux: self.aux@,
            control: self.control@,
            operations: self.operations@,
        }
    }
}

impl RegisterState {
    /// Three idle controllers, no pending bits and no writes made.
    pub open spec fn idle() -> RegisterState {
        RegisterState {
            pending: 0,
            target: ControllerState::idle(),
            aux: ControllerState::idle(),
            control: ControllerState::idle(),
            operations: Seq::empty(),
        }
    }

    /// The registers of the named controller.
    pub open spec fn controller(self, interface: UsbInterface) -> ControllerState {
        match interface {
            UsbInterface::Target => self.target,
            UsbInterface::Aux => self.aux,
            UsbInterface::Control => self.control,
        }
    }

    /// The registers with those of the named controller replaced.
    pub open spec fn with_controller(
        self,
        interface: UsbInterface,
        controller: ControllerState,
    ) -> RegisterState {
        match interface {
            UsbInterface::Target => RegisterState { target: controller, ..self },
            UsbInterface::Aux => RegisterState { aux: controller, ..self },
            UsbInterface::Control => RegisterState { control: controller, ..self },
        }
    }

    /// Whether the source is pending.
    pub open spec fn is_pending(self, source: Source) -> bool {
        self.controller(source.interface).is_pending(source.condition)
    }

    /// The endpoint that the source is about.
    pub open spec fn endpoint_number(self, source: Source) -> u8 {
        self.controller(source.interface).endpoint_number(source.condition)
    }

    /// The registers after the operation: it is added to the list of writes;
    /// clearing a pending bit clears that bit and no other, and reading the
    /// control FIFO empties that FIFO.
    pub open spec fn performed(self, operation: Operation) -> RegisterState {
        let logged = RegisterState { operations: self.operations.push(operation), ..self };
        match operation {
            Operation::ClearPending(source) => logged.with_controller(
                source.interface,
                self.controller(source.interface).cleared(source.condition),
            ),
            Operation::ReadControl(interface) => logged.with_controller(
                interface,
                self.controller(interface).drained(),
            ),
            Operation::BusReset(_) => logged,
            Operation::ClearTxAckActive(_, _) => logged,
        }
    }

    /// The first pending source among `from` and those served after it.
    pub open spec fn first_pending_from(self, from: Source) -> Option<Source>
        decreases 11 - from.rank(),
    {
        if self.is_pending(from) {
            Some(from)
        } else {
            match from.spec_next() {
                Some(next) => self.first_pending_from(next),
                None => None,
            }
        }
    }

    /// The pending source that is served first, if any source is pending.
    pub open spec fn first_pending(self) -> Option<Source> {
        self.first_pending_from(Source::spec_first())
    }

    /// The event that one pass of the handler returns.
    ///
    /// It reports the pending source that is served first, and that one
    /// alone. With nothing pending the pass is unhandled and reports the
    /// pending bits of the machine.
    pub open spec fn outcome(self) -> InterruptEvent {
        match self.first_pending() {
            None => InterruptEvent::UnhandledInterrupt(self.pending),
            Some(source) => {
                let interface = source.interface;
                let controller = self.controller(interface);
                match source.condition {
                    Condition::BusReset => InterruptEvent::Usb(interface, UsbEvent::BusReset),
                    Condition::EndpointControl => match interface {
                        UsbInterface::Control => InterruptEvent::Usb(
                            interface,
                            UsbEvent::ReceiveControl(controller.control_endpoint),
                        ),
                        _ => spec_setup_event(
                            interface,
                            controller.control_endpoint,
                            controller.control_bytes_read(),
                            controller.control_bytes(),
                        ),
                    },
                    Condition::EndpointOut => InterruptEvent::Usb(
                        interface,
                        UsbEvent::ReceivePacket(controller.out_endpoint),
                    ),
                    Condition::EndpointIn => InterruptEvent::Usb(
                        interface,
                        UsbEvent::SendComplete(controller.in_endpoint),
                    ),
                }
            },
        }
    }

    /// The registers after one pass of the handler.
    ///
    /// A bus reset is acknowledged before the reset sequence runs. The setup
    /// bytes of the Target and Aux controllers are read before the condition
    /// is acknowledged; the Control controller keeps its setup bytes. A
    /// completed send is acknowledged before the endpoint's flag is cleared.
    /// With nothing pending nothing is written.
    pub open spec fn serviced(self) -> RegisterState {
        match self.first_pending() {
            None => self,
            Some(source) => {
                let interface = source.interface;
                match source.condition {
                    Condition::BusReset => self.performed(Operation::ClearPending(source)).performed(
                        Operation::BusReset(interface),
                    ),
                    Condition::EndpointControl => match interface {
                        UsbInterface::Control => self.performed(Operation::ClearPending(source)),
                        _ => self.performed(Operation::ReadControl(interface)).performed(
                            Operation::ClearPending(source),
                        ),
                    },
                    Condition::EndpointOut => self.performed(Operation::ClearPending(source)),
                    Condition::EndpointIn => self.performed(Operation::ClearPending(source)).performed(
                        Operation::ClearTxAckActive(interface, self.endpoint_number(source)),
                    ),
                }
            },
        }
    }

    /// What the search from `from` finds is pending, is not served before
    /// `from`, and has nothing pending between `from` and itself. If it finds
    /// nothing, nothing from `from` on is pending.
    pub proof fn lemma_first_pending_from(self, from: Source)
        ensures
            match self.first_pending_from(from) {
                Some(found) => {
                    &&& self.is_pending(found)
                    &&& from.rank() <= found.rank()
                    &&& forall|other: Source|
                        from.rank() <= other.rank() < found.rank() ==> !#[trigger] self.is_pending(
                            other,
                        )
                },
                None => forall|other: Source|
                    from.rank() <= other.rank() ==> !#[trigger] self.is_pending(other),
            },
        decreases 11 - from.rank(),
    {
        if !self.is_pending(from) {
            assert forall|other: Source| other.rank() == from.rank() implies other == from by {
                other.lemma_rank_tells_sources_apart(from);
            }
            match from.spec_next() {
                Some(next) => {
                    self.lemma_first_pending_from(next);
                },
                None => {},
            }
        }
    }

    /// One pass serves the pending source of highest priority and no other.
    ///
    /// The source that the pass reports is pending and no source that is
    /// served before it is. After the pass its pending bit is clear and every
    /// other pending bit is as it was. With nothing pending, the pass is
    /// unhandled and leaves the registers as they were. The pending bits that
    /// the processor reports are never written.
    pub proof fn lemma_highest_priority_only(self)
        ensures
            self.serviced().pending == self.pending,
            match self.first_pending() {
                Some(served) => {
                    &&& self.is_pending(served)
                    &&& forall|other: Source|
                        other.rank() < served.rank() ==> !#[trigger] self.is_pending(other)
                    &&& forall|other: Source| #[trigger]
                        self.serviced().is_pending(other) == (self.is_pending(other) && other
                            != served)
                },
                None => {
                    &&& forall|other: Source| !#[trigger] self.is_pending(other)
                    &&& self.outcome() == InterruptEvent::UnhandledInterrupt(self.pending)
                    &&& self.serviced() == self
                },
            },
    {
        self.lemma_first_pending_from(Source::spec_first());
    }

    /// A setup read of zero bytes is reported as an error message, never as
    /// a setup packet.
    pub proof fn lemma_empty_setup_read_is_an_error(self, interface: UsbInterface)
        requires
            interface != UsbInterface::Control,
            self.first_pending() == Some(
                Source { interface, condition: Condition::EndpointControl },
            ),
        ensures
            self.controller(interface).control_fifo.len() == 0 <==> self.outcome() is ErrorMessage,
    {
    }
}

/// The event and the registers that a pass ends with when it goes on from
/// `step` over `state`.
spec fn complete(step: Step, state: RegisterState) -> (InterruptEvent, RegisterState)
    decreases step.remaining(),
{
    match step {
        Step::ReadPending(waiting) => complete(waiting.spec_resume(state.pending), state),
        Step::IsPending(waiting) => complete(
            waiting.spec_resume(state.is_pending(waiting.source)),
            state,
        ),
        Step::ReadEndpointNumber(waiting) => complete(
            waiting.spec_resume(state.endpoint_number(waiting.source)),
            state,
        ),
        Step::ReadControl(waiting) => complete(
            waiting.spec_resume(
                state.controller(waiting.interface).control_bytes_read(),
                state.controller(waiting.interface).control_bytes(),
            ),
            state.performed(Operation::ReadControl(waiting.interface)),
        ),
        Step::ClearPending(source, waiting) => complete(
            waiting.spec_resume(),
            state.performed(Operation::ClearPending(source)),
        ),
        Step::BusReset(interface, waiting) => complete(
            waiting.spec_resume(),
            state.performed(Operation::BusReset(interface)),
        ),
        Step::ClearTxAckActive(interface, endpoint_number, waiting) => complete(
            waiting.spec_resume(),
            state.performed(Operation::ClearTxAckActive(interface, endpoint_number)),
        ),
        Step::Finish(event) => (event, state),
    }
}

/// Servicing the pending source that is served first ends the pass as
/// `outcome` and `serviced` say.
proof fn lemma_service(state: RegisterState, source: Source)
    requires
        state.first_pending() == Some(source),
    ensures
        complete(crate::classifier::spec_service(source), state) == (
            state.outcome(),
            state.serviced(),
        ),
{
    reveal_with_fuel(complete, 5);
}

/// Asking the sources from `source` on, when none before it is pending,
/// ends the pass as `outcome` and `serviced` say.
proof fn lemma_poll(state: RegisterState, source: Source)
    requires
        state.first_pending() == state.first_pending_from(source),
    ensures
        complete(
            Step::IsPending(crate::classifier::AwaitFlag { pending: state.pending, source }),
            state,
        ) == (state.outcome(), state.serviced()),
    decreases 11 - source.rank(),
{
    reveal_with_fuel(complete, 2);
    if state.is_pending(source) {
        lemma_service(state, source);
    } else {
        match source.spec_next() {
            Some(next) => {
                lemma_poll(state, next);
            },
            None => {},
        }
    }
}

/// A pass from its first step ends as `outcome` and `serviced` say.
proof fn lemma_pass(state: RegisterState)
    ensures
        complete(Step::spec_start(), state) == (state.outcome(), state.serviced()),
{
    lemma_poll(state, Source::spec_first());
}

impl Registers {
    /// Three idle controllers, no pending bits and no writes made.
    pub fn new() -> (registers: Registers)
        ensures
            registers@ == RegisterState::idle(),
    {
        Registers {
            pending: 0,
            target: Controller::new(),
            aux: Controller::new(),
            control: Controller::new(),
            operations: Vec::new(),
        }
    }

    /// The pending bits of all interrupt sources of the machine.
    pub fn read_pending(&self) -> (pending: usize)
        ensures
            pending == self@.pending,
    {
        self.pending
    }

    /// Whether the source is pending.
    pub fn is_pending(&self, source: Source) -> (is_pending: bool)
        ensures
            is_pending == self@.is_pending(source),
    {
        match source.interface {
            UsbInterface::Target => self.target.is_pending(source.condition),
            UsbInterface::Aux => self.aux.is_pending(source.condition),
            UsbInterface::Control => self.control.is_pending(source.condition),
        }
    }

    /// The endpoint that the source is about.
    pub fn read_endpoint_number(&self, source: Source) -> (endpoint_number: u8)
        ensures
            endpoint_number == self@.endpoint_number(source),
    {
        match source.interface {
            UsbInterface::Target => self.target.read_endpoint_number(source.condition),
            UsbInterface::Aux => self.aux.read_endpoint_number(source.condition),
            UsbInterface::Control => self.control.read_endpoint_number(source.condition),
        }
    }

    /// Clears the pending bit of the source.
    pub fn clear_pending(&mut self, source: Source)
        ensures
            final(self)@ == old(self)@.performed(Operation::ClearPending(source)),
    {
        match source.interface {
            UsbInterface::Target => self.target.clear_pending(source.condition),
            UsbInterface::Aux => self.aux.clear_pending(source.condition),
            UsbInterface::Control => self.control.clear_pending(source.condition),
        }
        self.operations.push(Operation::ClearPending(source));
    }

    /// Runs the bus reset sequence of the controller.
    pub fn bus_reset(&mut self, interface: UsbInterface)
        ensures
            final(self)@ == old(self)@.performed(Operation::BusReset(interface)),
    {
        self.operations.push(Operation::BusReset(interface));
    }

    /// Reads up to eight bytes from the control FIFO of the controller into
    /// a zeroed buffer. Returns the number of bytes read and the buffer.
    pub fn read_control(&mut self, interface: UsbInterface) -> (read: (usize, [u8; 8]))
        ensures
            read.0 == old(self)@.controller(interface).control_bytes_read(),
            read.1@ == old(self)@.controller(interface).control_bytes(),
            final(self)@ == old(self)@.performed(Operation::ReadControl(interface)),
    {
        let read = match interface {
            UsbInterface::Target => self.target.read_control(),
            UsbInterface::Aux => self.aux.read_control(),
            UsbInterface::Control => self.control.read_control(),
        };
        self.operations.push(Operation::ReadControl(interface));
        read
    }

    /// Clears the flag that marks a transmission on the endpoint as awaiting
    /// its acknowledgement.
    pub fn clear_tx_ack_active(&mut self, interface: UsbInterface, endpoint_number: u8)
        ensures
            final(self)@ == old(self)@.performed(
                Operation::ClearTxAckActive(interface, endpoint_number),
            ),
    {
        self.operations.push(Operation::ClearTxAckActive(interface, endpoint_number));
    }
}

/// Runs one pass of the interrupt handler over the registers and returns its
/// event.
///
/// The pass serves the pending source of highest priority and leaves every
/// other pending bit set for the next pass.
pub fn get_usb_interrupt_event(registers: &mut Registers) -> (event: InterruptEvent)
    ensures
        event == old(registers)@.outcome(),
        final(registers)@ == old(registers)@.serviced(),
{
    let ghost before = registers@;
    let mut step = Step::start();
    loop
        invariant
            before == old(registers)@,
            complete(step, registers@) == complete(Step::spec_start(), before),
        decreases step.remaining(),
    {
        match step {
            Step::ReadPending(waiting) => {
                let pending = registers.read_pending();
                step = waiting.resume(pending);
            },
            Step::IsPending(waiting) => {
                let is_pending = registers.is_pending(waiting.source);
                step = waiting.resume(is_pending);
            },
            Step::ReadEndpointNumber(waiting) => {
                let endpoint_number = registers.read_endpoint_number(waiting.source);
                step = waiting.resume(endpoint_number);
            },
            Step::ReadControl(waiting) => {
                let read = registers.read_control(waiting.interface);
                step = waiting.resume(read.0, read.1);
            },
            Step::ClearPending(source, waiting) => {
                registers.clear_pending(source);
                step = waiting.resume();
            },
            Step::BusReset(interface, waiting) => {
                registers.bus_reset(interface);
                step = waiting.resume();
            },
            Step::ClearTxAckActive(interface, endpoint_number, waiting) => {
                registers.clear_tx_ack_active(interface, endpoint_number);
                step = waiting.resume();
            },
            Step::Finish(event) => {
                proof {
                    lemma_pass(before);
                }
                return event;
            },
        }
    }
}

} // verus!
