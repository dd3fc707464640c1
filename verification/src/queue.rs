//! Bounded, allocation-free queues that carry events from the interrupt
//! handler to the main loop.
//!
//! Small, frequent events and large, rare ones are kept apart, each kind in a
//! queue of its own capacity, so that a burst of one kind cannot use up the
//! room of another.

use vstd::prelude::*;

use crate::event::InterruptEvent;
use crate::event::SetupPacket;
use crate::event::UsbEvent;
use crate::usb_event_ext::ReceiveControl;
use crate::usb_event_ext::ReceivePacket;

verus! {

/// How many interrupt events the queue holds at most.
pub const INTERRUPT_EVENT_CAPACITY: usize = 64;

/// How many setup packets the queue holds at most.
pub const RECEIVE_CONTROL_CAPACITY: usize = 16;

/// How many packet buffers the queue holds at most.
pub const RECEIVE_PACKET_CAPACITY: usize = 16;

// - bounded first-in first-out queues, as sequences ---------------------------

/// Whether a queue of the given capacity has room for one more item.
pub open spec fn has_room<T>(items: Seq<T>, capacity: nat) -> bool {
    items.len() < capacity
}

/// What a queue of the given capacity holds after `item` was offered to it:
/// the item goes to the back if there is room, and is turned away otherwise.
pub open spec fn offered<T>(items: Seq<T>, capacity: nat, item: T) -> Seq<T> {
    if has_room(items, capacity) {
        items.push(item)
    } else {
        items
    }
}

/// The oldest item of a queue, if it holds any.
pub open spec fn front<T>(items: Seq<T>) -> Option<T> {
    if items.len() > 0 {
        Some(items[0])
    } else {
        None
    }
}

/// What a queue holds after its oldest item was taken.
pub open spec fn taken<T>(items: Seq<T>) -> Seq<T> {
    if items.len() > 0 {
        items.subrange(1, items.len() as int)
    } else {
        items
    }
}

/// What a queue holds after each of `arrivals` was offered to it, in order.
pub open spec fn offered_all<T>(items: Seq<T>, capacity: nat, arrivals: Seq<T>) -> Seq<T>
    decreases arrivals.len(),
{
    if arrivals.len() == 0 {
        items
    } else {
        offered_all(offered(items, capacity, arrivals[0]), capacity, taken(arrivals))
    }
}

/// What `count` successive takes from a queue return, in order.
pub open spec fn drained<T>(items: Seq<T>, count: nat) -> Seq<Option<T>>
    decreases count,
{
    if count == 0 {
        Seq::empty()
    } else {
        seq![front(items)] + drained(taken(items), (count - 1) as nat)
    }
}

/// Arrivals that fit are all accepted, and stand behind what was there, in
/// the order in which they came.
pub proof fn lemma_offered_all_fits<T>(items: Seq<T>, capacity: nat, arrivals: Seq<T>)
    requires
        items.len() + arrivals.len() <= capacity,
    ensures
        offered_all(items, capacity, arrivals) == items + arrivals,
    decreases arrivals.len(),
{
    if arrivals.len() == 0 {
        assert(items + arrivals =~= items);
    } else {
        lemma_offered_all_fits(offered(items, capacity, arrivals[0]), capacity, taken(arrivals));
        assert(items.push(arrivals[0]) + taken(arrivals) =~= items + arrivals);
    }
}

/// Taking as many items as a queue holds returns them oldest first.
pub proof fn lemma_drained_in_order<T>(items: Seq<T>)
    ensures
        drained(items, items.len()) == items.map_values(|item: T| Some(item)),
    decreases items.len(),
{
    if items.len() > 0 {
        lemma_drained_in_order(taken(items));
    }
    assert(drained(items, items.len()) =~= items.map_values(|item: T| Some(item)));
}

/// First in, first out: offer any number of items that fits to an empty
/// queue, take as many again, and the items come back in the order in which
/// they went in.
pub proof fn lemma_first_in_first_out<T>(capacity: nat, arrivals: Seq<T>)
    requires
        arrivals.len() <= capacity,
    ensures
        drained(offered_all(Seq::empty(), capacity, arrivals), arrivals.len())
            == arrivals.map_values(|item: T| Some(item)),
{
    lemma_offered_all_fits(Seq::empty(), capacity, arrivals);
    assert(Seq::<T>::empty() + arrivals =~= arrivals);
    lemma_drained_in_order(arrivals);
}

/// A queue takes exactly as many items as its capacity: of `capacity`
/// arrivals offered to an empty queue each one finds room, and one more is
/// turned away and leaves the queue as it was.
pub proof fn lemma_capacity<T>(capacity: nat, arrivals: Seq<T>, extra: T)
    requires
        arrivals.len() == capacity,
    ensures
        forall|k: int|
            0 <= k < capacity ==> has_room(
                #[trigger] offered_all(Seq::empty(), capacity, arrivals.take(k)),
                capacity,
            ),
        offered_all(Seq::empty(), capacity, arrivals) == arrivals,
        !has_room(arrivals, capacity),
        offered(arrivals, capacity, extra) == arrivals,
{
    assert forall|k: int| 0 <= k < capacity implies has_room(
        #[trigger] offered_all(Seq::empty(), capacity, arrivals.take(k)),
        capacity,
    ) by {
        lemma_offered_all_fits(Seq::empty(), capacity, arrivals.take(k));
        assert(Seq::<T>::empty() + arrivals.take(k) =~= arrivals.take(k));
    }
    lemma_offered_all_fits(Seq::empty(), capacity, arrivals);
    assert(Seq::<T>::empty() + arrivals =~= arrivals);
}

// - the queue of the outside crate -------------------------------------------
//
// The queue of `heapless` is shared between contexts and changes behind a
// shared reference. Here each queue has one holder at a time: the functions
// below take it by exclusive reference, so that what it holds before and
// after a call can be told apart.

/// `heapless::mpmc::MpMcQueue`, a lock-free queue of fixed capacity `N`.
#[verifier::external_type_specification]
#[verifier::external_body]
#[verifier::reject_recursive_types(T)]
pub struct ExMpMcQueue<T, const N: usize>(heapless::mpmc::MpMcQueue<T, N>);

/// The interrupt events that a queue holds, oldest first.
pub uninterp spec fn queued_interrupt_events(
    queue: heapless::mpmc::MpMcQueue<InterruptEvent, 64>,
) -> Seq<InterruptEvent>;

/// The setup packets that a queue holds, oldest first.
pub uninterp spec fn queued_setup_packets(
    queue: heapless::mpmc::MpMcQueue<ReceiveControl, 16>,
) -> Seq<ReceiveControl>;

/// The packet buffers that a queue holds, oldest first.
pub uninterp spec fn queued_buffers(
    queue: heapless::mpmc::MpMcQueue<ReceivePacket, 16>,
) -> Seq<ReceivePacket>;

/// `heapless::mpmc::MpMcQueue::new`: the new queue holds nothing.
#[verifier::external_body]
fn new_interrupt_event_queue() -> (queue: heapless::mpmc::MpMcQueue<InterruptEvent, 64>)
    ensures
        queued_interrupt_events(queue) == Seq::<InterruptEvent>::empty(),
{
    heapless::mpmc::MpMcQueue::new()
}

/// `heapless::mpmc::MpMcQueue::new`: the new queue holds nothing.
#[verifier::external_body]
fn new_setup_packet_queue() -> (queue: heapless::mpmc::MpMcQueue<ReceiveControl, 16>)
    ensures
        queued_setup_packets(queue) == Seq::<ReceiveControl>::empty(),
{
    heapless::mpmc::MpMcQueue::new()
}

/// `heapless::mpmc::MpMcQueue::new`: the new queue holds nothing.
#[verifier::external_body]
fn new_buffer_queue() -> (queue: heapless::mpmc::MpMcQueue<ReceivePacket, 16>)
    ensures
        queued_buffers(queue) == Seq::<ReceivePacket>::empty(),
{
    heapless::mpmc::MpMcQueue::new()
}

/// `heapless::mpmc::MpMcQueue::enqueue`, called by the only holder of the
/// queue: while the queue holds fewer than 64 items the item goes to the
/// back; once it holds 64 the queue stays as it is and the item comes back.
/// The call does not panic.
#[verifier::external_body]
fn enqueue_interrupt_event(
    queue: &mut heapless::mpmc::MpMcQueue<InterruptEvent, 64>,
    item: InterruptEvent,
) -> (result: Result<(), InterruptEvent>)
    ensures
        result is Ok <==> queued_interrupt_events(*old(queue)).len() < 64,
        result is Ok ==> queued_interrupt_events(*final(queue)) == queued_interrupt_events(
            *old(queue),
        ).push(item),
        result matches Err(rejected) ==> rejected == item && queued_interrupt_events(*final(queue))
            == queued_interrupt_events(*old(queue)),
    no_unwind
{
    queue.enqueue(item)
}

/// `heapless::mpmc::MpMcQueue::enqueue`, called by the only holder of the
/// queue: while the queue holds fewer than 16 items the item goes to the
/// back; once it holds 16 the queue stays as it is and the item comes back.
/// The call does not panic.
#[verifier::external_body]
fn enqueue_setup_packet(
    queue: &mut heapless::mpmc::MpMcQueue<ReceiveControl, 16>,
    item: ReceiveControl,
) -> (result: Result<(), ReceiveControl>)
    ensures
        result is Ok <==> queued_setup_packets(*old(queue)).len() < 16,
        result is Ok ==> queued_setup_packets(*final(queue)) == queued_setup_packets(
            *old(queue),
        ).push(item),
        result matches Err(rejected) ==> rejected == item && queued_setup_packets(*final(queue))
            == queued_setup_packets(*old(queue)),
    no_unwind
{
    queue.enqueue(item)
}

/// `heapless::mpmc::MpMcQueue::enqueue`, called by the only holder of the
/// queue: while the queue holds fewer than 16 items the item goes to the
/// back; once it holds 16 the queue stays as it is and the item comes back.
/// The call does not panic.
#[verifier::external_body]
fn enqueue_buffer(
    queue: &mut heapless::mpmc::MpMcQueue<ReceivePacket, 16>,
    item: ReceivePacket,
) -> (result: Result<(), ReceivePacket>)
    ensures
        result is Ok <==> queued_buffers(*old(queue)).len() < 16,
        result is Ok ==> queued_buffers(*final(queue)) == queued_buffers(*old(queue)).push(item),
        result matches Err(rejected) ==> rejected == item && queued_buffers(*final(queue))
            == queued_buffers(*old(queue)),
    no_unwind
{
    queue.enqueue(item)
}

/// `heapless::mpmc::MpMcQueue::dequeue`, called by the only holder of the
/// queue: the oldest item leaves the queue and is returned; an empty queue
/// stays empty and returns `None`. The call does not panic.
#[verifier::external_body]
fn dequeue_interrupt_event(queue: &mut heapless::mpmc::MpMcQueue<InterruptEvent, 64>) -> (result:
    Option<InterruptEvent>)
    ensures
        result == front(queued_interrupt_events(*old(queue))),
        queued_interrupt_events(*final(queue)) == taken(queued_interrupt_events(*old(queue))),
    no_unwind
{
    queue.dequeue()
}

/// `heapless::mpmc::MpMcQueue::dequeue`, called by the only holder of the
/// queue: the oldest item leaves the queue and is returned; an empty queue
/// stays empty and returns `None`. The call does not panic.
#[verifier::external_body]
fn dequeue_setup_packet(queue: &mut heapless::mpmc::MpMcQueue<ReceiveControl, 16>) -> (result:
    Option<ReceiveControl>)
    ensures
        result == front(queued_setup_packets(*old(queue))),
        queued_setup_packets(*final(queue)) == taken(queued_setup_packets(*old(queue))),
    no_unwind
{
    queue.dequeue()
}

/// `heapless::mpmc::MpMcQueue::dequeue`, called by the only holder of the
/// queue: the oldest item leaves the queue and is returned; an empty queue
/// stays empty and returns `None`. The call does not panic.
#[verifier::external_body]
fn dequeue_buffer(queue: &mut heapless::mpmc::MpMcQueue<ReceivePacket, 16>) -> (result: Option<
    ReceivePacket,
>)
    ensures
        result == front(queued_buffers(*old(queue))),
        queued_buffers(*final(queue)) == taken(queued_buffers(*old(queue))),
    no_unwind
{
    queue.dequeue()
}

// - routing -------------------------------------------------------------------

/// The queue that a submitted value belongs to, with the value to store.
#[derive(Clone, Copy, Debug, PartialEq, Eq)]
pub enum Route {
    /// The value is an interrupt event.
    InterruptEvent(InterruptEvent),
    /// The value is a setup packet read inside the interrupt handler.
    ReceiveControl(ReceiveControl),
    /// The value is a data packet read inside the interrupt handler.
    ReceivePacket(ReceivePacket),
    /// The value is of no kind that is queued.
    Nowhere,
}

impl Route {
    /// Whether two values go to the same queue.
    pub open spec fn shares_queue(self, other: Route) -> bool {
        ||| self is InterruptEvent && other is InterruptEvent
        ||| self is ReceiveControl && other is ReceiveControl
        ||| self is ReceivePacket && other is ReceivePacket
    }
}

/// A value that can be handed to [`MultiEventQueue::enqueue`].
pub trait Routed: Sized {
    /// Where the value is stored.
    spec fn spec_route(&self) -> Route;

    /// Where the value is stored.
    fn route(&self) -> (route: Route)
        ensures
            route == self.spec_route(),
    ;
}

impl Routed for InterruptEvent {
    open spec fn spec_route(&self) -> Route {
        Route::InterruptEvent(*self)
    }

    fn route(&self) -> (route: Route) {
        Route::InterruptEvent(*self)
    }
}

impl Routed for ReceiveControl {
    open spec fn spec_route(&self) -> Route {
        Route::ReceiveControl(*self)
    }

    fn route(&self) -> (route: Route) {
        Route::ReceiveControl(*self)
    }
}

impl Routed for ReceivePacket {
    open spec fn spec_route(&self) -> Route {
        Route::ReceivePacket(*self)
    }

    fn route(&self) -> (route: Route) {
        Route::ReceivePacket(*self)
    }
}

/// A USB event without the interface it occurred on is not queued.
impl Routed for UsbEvent {
    open spec fn spec_route(&self) -> Route {
        Route::Nowhere
    }

    fn route(&self) -> (route: Route) {
        Route::Nowhere
    }
}

/// A setup packet without the endpoint it arrived on is not queued.
impl Routed for SetupPacket {
    open spec fn spec_route(&self) -> Route {
        Route::Nowhere
    }

    fn route(&self) -> (route: Route) {
        Route::Nowhere
    }
}

// - the three queues ----------------------------------------------------------

/// What a [`MultiEventQueue`] holds: three independent queues, oldest item
/// first in each.
pub struct Queues {
    pub interrupt_events: Seq<InterruptEvent>,
    pub setup_packets: Seq<ReceiveControl>,
    pub buffers: Seq<ReceivePacket>,
}

impl Queues {
    /// Three empty queues.
    pub open spec fn empty() -> Queues {
        Queues {
            interrupt_events: Seq::empty(),
            setup_packets: Seq::empty(),
            buffers: Seq::empty(),
        }
    }

    /// No queue holds more than its capacity.
    pub open spec fn bounded(self) -> bool {
        &&& self.interrupt_events.len() <= INTERRUPT_EVENT_CAPACITY
        &&& self.setup_packets.len() <= RECEIVE_CONTROL_CAPACITY
        &&& self.buffers.len() <= RECEIVE_PACKET_CAPACITY
    }

    /// Whether a value with the given route is accepted: its queue has room,
    /// or it is stored nowhere.
    pub open spec fn accepts(self, route: Route) -> bool {
        match route {
            Route::InterruptEvent(_) => has_room(
                self.interrupt_events,
                INTERRUPT_EVENT_CAPACITY as nat,
            ),
            Route::ReceiveControl(_) => has_room(
                self.setup_packets,
                RECEIVE_CONTROL_CAPACITY as nat,
            ),
            Route::ReceivePacket(_) => has_room(self.buffers, RECEIVE_PACKET_CAPACITY as nat),
            Route::Nowhere => true,
        }
    }

    /// The queues after a value with the given route was submitted.
    pub open spec fn submitted(self, route: Route) -> Queues {
        match route {
            Route::InterruptEvent(event) => Queues {
                interrupt_events: offered(
                    self.interrupt_events,
                    INTERRUPT_EVENT_CAPACITY as nat,
                    event,
                ),
                ..self
            },
            Route::ReceiveControl(event) => Queues {
                setup_packets: offered(self.setup_packets, RECEIVE_CONTROL_CAPACITY as nat, event),
                ..self
            },
            Route::ReceivePacket(event) => Queues {
                buffers: offered(self.buffers, RECEIVE_PACKET_CAPACITY as nat, event),
                ..self
            },
            Route::Nowhere => self,
        }
    }

    /// Submitting to one queue neither changes what the other two hold nor
    /// whether they accept: a value of another kind is accepted afterwards
    /// exactly if it was accepted before, however full the first queue is,
    /// and two such submissions give the same queues in either order.
    pub proof fn lemma_queues_are_independent(self, first: Route, second: Route)
        requires
            !first.shares_queue(second),
        ensures
            self.submitted(first).accepts(second) == self.accepts(second),
            !(first is InterruptEvent) ==> self.submitted(first).interrupt_events
                == self.interrupt_events,
            !(first is ReceiveControl) ==> self.submitted(first).setup_packets
                == self.setup_packets,
            !(first is ReceivePacket) ==> self.submitted(first).buffers == self.buffers,
            self.submitted(first).submitted(second) == self.submitted(second).submitted(first),
    {
    }

    /// Submitting never makes a queue hold more than its capacity.
    pub proof fn lemma_submitted_is_bounded(self, route: Route)
        requires
            self.bounded(),
        ensures
            self.submitted(route).bounded(),
    {
    }
}

/// An event queue with a separate queue for each kind of event.
///
/// Some events are much larger than others, and the larger ones are also the
/// rarer ones. Keeping each kind in a queue of its own lets the queue of
/// small events be long without paying for its length in large slots.
pub struct MultiEventQueue {
    receive_control: heapless::mpmc::MpMcQueue<ReceiveControl, 16>,
    receive_packet: heapless::mpmc::MpMcQueue<ReceivePacket, 16>,
    interrupt_event: heapless::mpmc::MpMcQueue<InterruptEvent, 64>,
}

impl View for MultiEventQueue {
    type V = Queues;

    closed spec fn view(&self) -> Queues {
        Queues {
            interrupt_events: queued_interrupt_events(self.interrupt_event),
            setup_packets: queued_setup_packets(self.receive_control),
            buffers: queued_buffers(self.receive_packet),
        }
    }
}

impl MultiEventQueue {
    #[verifier::type_invariant]
    closed spec fn within_capacity(&self) -> bool {
        self@.bounded()
    }

    /// Creates three empty queues.
    pub fn new() -> (queue: MultiEventQueue)
        ensures
            queue@ == Queues::empty(),
    {
        MultiEventQueue {
            receive_control: new_setup_packet_queue(),
            receive_packet: new_buffer_queue(),
            interrupt_event: new_interrupt_event_queue(),
        }
    }

    /// Takes the oldest interrupt event, if there is one.
    pub fn dequeue(&mut self) -> (event: Option<InterruptEvent>)
        ensures
            event == front(old(self)@.interrupt_events),
            final(self)@ == (Queues {
                interrupt_events: taken(old(self)@.interrupt_events),
                ..old(self)@
            }),
            final(self)@.bounded(),
    {
        proof {
            use_type_invariant(&*self);
        }
        dequeue_interrupt_event(&mut self.interrupt_event)
    }

    /// Takes the oldest setup packet, if there is one.
    pub fn dequeue_setup_packet(&mut self) -> (event: Option<ReceiveControl>)
        ensures
            event == front(old(self)@.setup_packets),
            final(self)@ == (Queues {
                setup_packets: taken(old(self)@.setup_packets),
                ..old(self)@
            }),
            final(self)@.bounded(),
    {
        proof {
            use_type_invariant(&*self);
        }
        dequeue_setup_packet(&mut self.receive_control)
    }

    /// Takes the oldest packet buffer, if there is one.
    pub fn dequeue_buffer(&mut self) -> (event: Option<ReceivePacket>)
        ensures
            event == front(old(self)@.buffers),
            final(self)@ == (Queues { buffers: taken(old(self)@.buffers), ..old(self)@ }),
            final(self)@.bounded(),
    {
        proof {
            use_type_invariant(&*self);
        }
        dequeue_buffer(&mut self.receive_packet)
    }

    /// Enqueues the given event if there is room in the queue of its kind.
    ///
    /// The kind of the event alone decides which queue it goes to. A value of
    /// a kind that is not queued is accepted and stored nowhere.
    ///
    /// # Errors
    ///
    /// If the queue of its kind is full, the event comes back and the queues
    /// stay as they were.
    pub fn enqueue<T: Routed>(&mut self, event: T) -> (result: Result<(), T>)
        ensures
            result is Ok <==> old(self)@.accepts(event.spec_route()),
            result matches Err(rejected) ==> rejected == event,
            final(self)@ == old(self)@.submitted(event.spec_route()),
            final(self)@.bounded(),
    {
        proof {
            use_type_invariant(&*self);
        }
        match event.route() {
            Route::InterruptEvent(interrupt_event) => {
                match enqueue_interrupt_event(&mut self.interrupt_event, interrupt_event) {
                    Ok(()) => Ok(()),
                    Err(_) => Err(event),
                }
            },
            Route::ReceiveControl(receive_control) => {
                match enqueue_setup_packet(&mut self.receive_control, receive_control) {
                    Ok(()) => Ok(()),
                    Err(_) => Err(event),
                }
            },
            Route::ReceivePacket(receive_packet) => {
                match enqueue_buffer(&mut self.receive_packet, receive_packet) {
                    Ok(()) => Ok(()),
                    Err(_) => Err(event),
                }
            },
            Route::Nowhere => Ok(()),
        }
    }
}

} // verus!
