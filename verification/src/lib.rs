//! Interrupt-time core of a USB analysis device: the events that interrupt
//! handling produces, the classifier that decides which controller condition
//! to service, and the bounded queues that carry events to the main loop.

pub mod classifier;
pub mod event;
pub mod queue;
pub mod registers;
pub mod usb_event_ext;
