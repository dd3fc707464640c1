use moondancer::classifier::Condition;
use moondancer::classifier::Source;
use moondancer::event::InterruptEvent;
use moondancer::event::SetupPacket;
use moondancer::event::UsbEvent;
use moondancer::event::UsbInterface;
use moondancer::queue::MultiEventQueue;
use moondancer::registers::get_usb_interrupt_event;
use moondancer::registers::Controller;
use moondancer::registers::Operation;
use moondancer::registers::Registers;
use moondancer::usb_event_ext::ReceiveControl;

const GET_DESCRIPTOR: u8 = 6;

const INTERFACES: [UsbInterface; 3] =
    [UsbInterface::Target, UsbInterface::Aux, UsbInterface::Control];

const CONDITIONS: [Condition; 4] = [
    Condition::BusReset,
    Condition::EndpointControl,
    Condition::EndpointOut,
    Condition::EndpointIn,
];

fn controller_of(registers: &mut Registers, interface: UsbInterface) -> &mut Controller {
    match interface {
        UsbInterface::Target => &mut registers.target,
        UsbInterface::Aux => &mut registers.aux,
        UsbInterface::Control => &mut registers.control,
    }
}

fn set_pending(registers: &mut Registers, source: Source, pending: bool) {
    let controller = controller_of(registers, source.interface);
    match source.condition {
        Condition::BusReset => controller.bus_reset_pending = pending,
        Condition::EndpointControl => controller.control_pending = pending,
        Condition::EndpointOut => controller.out_pending = pending,
        Condition::EndpointIn => controller.in_pending = pending,
    }
}

fn sources() -> Vec<Source> {
    let mut all = Vec::new();
    for interface in INTERFACES {
        for condition in CONDITIONS {
            all.push(Source { interface, condition });
        }
    }
    all
}

fn registers_with(mask: usize) -> Registers {
    let mut registers = Registers::new();
    registers.pending = mask;
    for (rank, source) in sources().into_iter().enumerate() {
        set_pending(&mut registers, source, mask & (1 << rank) != 0);
    }
    for interface in INTERFACES {
        let controller = controller_of(&mut registers, interface);
        controller.control_endpoint = 1;
        controller.out_endpoint = 2;
        controller.in_endpoint = 3;
        controller.control_fifo = vec![0x80, GET_DESCRIPTOR, 0x00, 0x01, 0x00, 0x00, 0x12, 0x00];
    }
    registers
}

fn expected_event(source: Source) -> InterruptEvent {
    let packet = SetupPacket {
        request_type: 0x80,
        request: GET_DESCRIPTOR,
        value: 0x0100,
        index: 0,
        length: 0x12,
    };
    let event = match (source.condition, source.interface) {
        (Condition::BusReset, _) => UsbEvent::BusReset,
        (Condition::EndpointControl, UsbInterface::Control) => UsbEvent::ReceiveControl(1),
        (Condition::EndpointControl, _) => UsbEvent::ReceiveSetupPacket(1, packet),
        (Condition::EndpointOut, _) => UsbEvent::ReceivePacket(2),
        (Condition::EndpointIn, _) => UsbEvent::SendComplete(3),
    };
    InterruptEvent::Usb(source.interface, event)
}

#[test]
fn no_pending_bits_is_unhandled_zero() {
    let mut registers = Registers::new();
    assert_eq!(
        get_usb_interrupt_event(&mut registers),
        InterruptEvent::UnhandledInterrupt(0)
    );
    assert_eq!(registers, Registers::new());
}

#[test]
fn unhandled_interrupt_carries_the_pending_bits() {
    let mut registers = Registers::new();
    registers.pending = 0b1000_0001;
    assert_eq!(
        get_usb_interrupt_event(&mut registers),
        InterruptEvent::UnhandledInterrupt(0b1000_0001)
    );
    assert!(registers.operations.is_empty());
}

#[test]
fn every_combination_serves_the_highest_priority_only() {
    let all = sources();
    for mask in 0..(1_usize << 12) {
        let mut registers = registers_with(mask);
        let event = get_usb_interrupt_event(&mut registers);
        let mut expected = registers_with(mask);
        if mask == 0 {
            assert_eq!(event, InterruptEvent::UnhandledInterrupt(0));
        } else {
            let served = all[mask.trailing_zeros() as usize];
            assert_eq!(event, expected_event(served), "mask {:#b}", mask);
            set_pending(&mut expected, served, false);
        }
        for interface in INTERFACES {
            let after = controller_of(&mut registers, interface);
            let flags = (
                after.bus_reset_pending,
                after.control_pending,
                after.out_pending,
                after.in_pending,
            );
            let wanted = controller_of(&mut expected, interface);
            assert_eq!(
                flags,
                (
                    wanted.bus_reset_pending,
                    wanted.control_pending,
                    wanted.out_pending,
                    wanted.in_pending
                ),
                "mask {:#b}",
                mask
            );
        }
        assert_eq!(registers.pending, mask);
    }
}

#[test]
fn burst_of_conditions_drains_one_per_pass() {
    let mut registers = registers_with(0b1111_1111_1111);
    for served in sources() {
        assert_eq!(get_usb_interrupt_event(&mut registers), expected_event(served));
    }
    assert_eq!(
        get_usb_interrupt_event(&mut registers),
        InterruptEvent::UnhandledInterrupt(0b1111_1111_1111)
    );
}

#[test]
fn writes_are_made_in_order() {
    let target = UsbInterface::Target;
    let plans = [
        (
            Condition::BusReset,
            vec![
                Operation::ClearPending(Source { interface: target, condition: Condition::BusReset }),
                Operation::BusReset(target),
            ],
        ),
        (
            Condition::EndpointControl,
            vec![
                Operation::ReadControl(target),
                Operation::ClearPending(Source {
                    interface: target,
                    condition: Condition::EndpointControl,
                }),
            ],
        ),
        (
            Condition::EndpointOut,
            vec![Operation::ClearPending(Source {
                interface: target,
                condition: Condition::EndpointOut,
            })],
        ),
        (
            Condition::EndpointIn,
            vec![
                Operation::ClearPending(Source { interface: target, condition: Condition::EndpointIn }),
                Operation::ClearTxAckActive(target, 3),
            ],
        ),
    ];
    for (rank, (condition, operations)) in plans.into_iter().enumerate() {
        let mut registers = registers_with(1 << rank);
        let event = get_usb_interrupt_event(&mut registers);
        assert_eq!(event, expected_event(Source { interface: target, condition }));
        assert_eq!(registers.operations, operations);
    }
}

#[test]
fn control_controller_keeps_its_setup_bytes() {
    let mut registers = registers_with(1 << 9);
    let event = get_usb_interrupt_event(&mut registers);
    assert_eq!(
        event,
        InterruptEvent::Usb(UsbInterface::Control, UsbEvent::ReceiveControl(1))
    );
    assert_eq!(registers.control.control_fifo.len(), 8);
    assert_eq!(
        registers.operations,
        vec![Operation::ClearPending(Source {
            interface: UsbInterface::Control,
            condition: Condition::EndpointControl,
        })]
    );
}

#[test]
fn zero_byte_control_read_yields_error_message() {
    let mut registers = Registers::new();
    registers.target.control_pending = true;
    assert_eq!(
        get_usb_interrupt_event(&mut registers),
        InterruptEvent::ErrorMessage("ERROR USB0 received 0 bytes for setup packet")
    );
    assert!(!registers.target.control_pending);

    let mut registers = Registers::new();
    registers.aux.control_pending = true;
    registers.aux.control_endpoint = 7;
    assert_eq!(
        get_usb_interrupt_event(&mut registers),
        InterruptEvent::ErrorMessage("ERROR USB1 received 0 bytes for setup packet")
    );
    assert!(!registers.aux.control_pending);
}

#[test]
fn control_read_takes_at_most_eight_bytes_and_empties_the_fifo() {
    let mut controller = Controller::new();
    controller.control_fifo = vec![1, 2, 3, 4, 5, 6, 7, 8, 9, 10];
    assert_eq!(controller.read_control(), (8, [1, 2, 3, 4, 5, 6, 7, 8]));
    assert!(controller.control_fifo.is_empty());
    assert_eq!(controller.read_control(), (0, [0; 8]));

    controller.control_fifo = vec![0xaa, 0xbb, 0xcc];
    assert_eq!(controller.read_control(), (3, [0xaa, 0xbb, 0xcc, 0, 0, 0, 0, 0]));
}

#[test]
fn short_control_read_is_parsed_with_zero_padding() {
    let mut registers = Registers::new();
    registers.aux.control_pending = true;
    registers.aux.control_fifo = vec![0x21, 0x09, 0x34];
    let packet = SetupPacket {
        request_type: 0x21,
        request: 0x09,
        value: 0x0034,
        index: 0,
        length: 0,
    };
    assert_eq!(
        get_usb_interrupt_event(&mut registers),
        InterruptEvent::Usb(UsbInterface::Aux, UsbEvent::ReceiveSetupPacket(0, packet))
    );
}

#[test]
fn get_descriptor_on_target_end_to_end() {
    let mut registers = Registers::new();
    registers.target.control_pending = true;
    registers.target.control_endpoint = 0;
    registers.target.control_fifo = vec![0x80, 0x06, 0x00, 0x01, 0x00, 0x00, 0x40, 0x00];
    registers.aux.out_pending = true;

    let event = get_usb_interrupt_event(&mut registers);
    let InterruptEvent::Usb(UsbInterface::Target, UsbEvent::ReceiveSetupPacket(0, packet)) = event
    else {
        panic!("unexpected event: {:?}", event);
    };
    assert_eq!(packet.request, GET_DESCRIPTOR);
    assert_eq!(
        packet,
        SetupPacket { request_type: 0x80, request: 6, value: 0x0100, index: 0, length: 64 }
    );
    assert!(!registers.target.control_pending);
    assert!(registers.aux.out_pending);

    let mut queue = MultiEventQueue::new();
    let extended = ReceiveControl(UsbInterface::Target, 0, packet);
    assert_eq!(queue.enqueue(extended), Ok(()));
    assert_eq!(queue.enqueue(event), Ok(()));
    assert_eq!(queue.dequeue_setup_packet(), Some(extended));
    assert_eq!(queue.dequeue_setup_packet(), None);
    assert_eq!(queue.dequeue(), Some(event));
}

#[test]
fn register_reads_and_writes_touch_one_controller() {
    let mut registers = registers_with(0b1111_1111_1111);
    let source = Source { interface: UsbInterface::Aux, condition: Condition::EndpointOut };
    assert!(registers.is_pending(source));
    assert_eq!(registers.read_endpoint_number(source), 2);
    assert_eq!(registers.read_pending(), 0b1111_1111_1111);
    registers.clear_pending(source);
    assert!(!registers.is_pending(source));
    assert!(registers.target.out_pending);
    assert!(registers.control.out_pending);
    assert!(registers.aux.in_pending);
    registers.bus_reset(UsbInterface::Control);
    registers.clear_tx_ack_active(UsbInterface::Target, 5);
    let bus_reset = Source { interface: UsbInterface::Target, condition: Condition::BusReset };
    assert_eq!(registers.read_endpoint_number(bus_reset), 0);
    assert_eq!(
        registers.operations,
        vec![
            Operation::ClearPending(source),
            Operation::BusReset(UsbInterface::Control),
            Operation::ClearTxAckActive(UsbInterface::Target, 5),
        ]
    );
}
