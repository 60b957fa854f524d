//! Ports: one-slot cells that split into a sending and a receiving half.
//!
//! The ports of a runtime live in its arena; their halves are the index of the cell.  A
//! `RefPort` instead wraps a cell of the caller's own, borrowed for the lifetime of its halves.

use vstd::prelude::*;
use crate::api::{Port, Receiver, ReceiverMut, ReceiverOnce, Sender, SenderMut, SenderOnce};

verus! {

/// The sending half of port `port` of a runtime.
#[derive(PartialEq, Eq, Structural, Debug, Clone, Copy)]
pub struct RcSender {
    pub port: usize,
}

/// The receiving half of port `port` of a runtime.
#[derive(PartialEq, Eq, Structural, Debug, Clone, Copy)]
pub struct RcReceiver {
    pub port: usize,
}

/// Port `port` of a runtime, before it is split.
#[derive(PartialEq, Eq, Structural, Debug, Clone, Copy)]
pub struct RcPort {
    pub port: usize,
}

impl RcPort {
    /// The port whose cell has index `port`.
    pub fn new(port: usize) -> (p: RcPort)
        ensures
            p.port == port,
    {
        RcPort { port }
    }

    /// The two halves of the port; both name its cell.
    pub fn halves(self) -> (h: (RcSender, RcReceiver))
        ensures
            h.0.port == self.port,
            h.1.port == self.port,
    {
        (RcSender { port: self.port }, RcReceiver { port: self.port })
    }
}

impl Port for RcPort {
    type Sender = RcSender;

    type Receiver = RcReceiver;

    fn split(self) -> (h: (RcSender, RcReceiver))
        ensures
            h.0.port == self.port,
            h.1.port == self.port,
    {
        self.halves()
    }
}

/// The sending half of a `RefPort`.
pub struct RefSender<'a, T: Sender + 'a>(pub &'a T);

impl<'a, T: Sender + 'a> SenderOnce for RefSender<'a, T> {
    type Item = T::Item;

    fn send_once(self, item: T::Item) {
        self.0.send(item)
    }
}

impl<'a, T: Sender + 'a> SenderMut for RefSender<'a, T> {
    fn send_mut(&mut self, item: T::Item) {
        self.0.send(item)
    }
}

impl<'a, T: Sender + 'a> Sender for RefSender<'a, T> {
    fn send(&self, item: T::Item) {
        self.0.send(item)
    }
}

/// The receiving half of a `RefPort`.
pub struct RefReceiver<'a, T: 'a>(pub &'a T);

impl<'a, T: Receiver + 'a> ReceiverOnce for RefReceiver<'a, T> {
    type Item = T::Item;

    fn recv_once(self) -> T::Item {
        self.0.recv()
    }
}

impl<'a, T: Receiver + 'a> ReceiverMut for RefReceiver<'a, T> {
    fn recv_mut(&mut self) -> T::Item {
        self.0.recv()
    }
}

impl<'a, T: Receiver + 'a> Receiver for RefReceiver<'a, T> {
    fn recv(&self) -> T::Item {
        self.0.recv()
    }
}

/// A port over a cell that the caller owns, which both halves borrow.
pub struct RefPort<'a, T: Sender + Receiver + 'a>(pub &'a mut T);

impl<'a, T: Sender + Receiver + 'a> RefPort<'a, T> {
    /// The port over `initial`.
    pub fn new(initial: &'a mut T) -> (p: Self)
        ensures
            *p.0 == *old(initial),
    {
        RefPort(initial)
    }
}

impl<'a, T: Sender + Receiver + 'a> Port for RefPort<'a, T> {
    type Sender = RefSender<'a, T>;

    type Receiver = RefReceiver<'a, T>;

    fn split(self) -> (RefSender<'a, T>, RefReceiver<'a, T>) {
        let cell: &'a T = self.0;
        (RefSender(cell), RefReceiver(cell))
    }
}


/// std's `Cell`, whose content changes through shared references: nothing is stated of it.
#[verifier::external_type_specification]
#[verifier::external_body]
#[verifier::reject_recursive_types(T)]
pub struct ExCell<T: ?Sized>(std::cell::Cell<T>);

/// Relies on `Cell::set`, to write a port cell: replaces the content.
pub assume_specification<T>[ std::cell::Cell::<T>::set ](c: &std::cell::Cell<T>, val: T);

/// Relies on `Cell::replace`, to read a port cell: puts `val` in and returns the content it
/// had.
pub assume_specification<T>[ std::cell::Cell::<T>::replace ](c: &std::cell::Cell<T>, val: T) -> T;

/// A cell of the caller's own, used through a `RefPort`: sending replaces its content, receiving
/// takes it and leaves it empty.
impl<T> SenderOnce for std::cell::Cell<Option<T>> {
    type Item = T;

    fn send_once(self, item: T) {
        self.set(Some(item))
    }
}

impl<T> SenderMut for std::cell::Cell<Option<T>> {
    fn send_mut(&mut self, item: T) {
        self.set(Some(item))
    }
}

impl<T> Sender for std::cell::Cell<Option<T>> {
    fn send(&self, item: T) {
        self.set(Some(item))
    }
}

impl<T> ReceiverOnce for std::cell::Cell<Option<T>> {
    type Item = Option<T>;

    fn recv_once(self) -> Option<T> {
        self.replace(None)
    }
}

impl<T> ReceiverMut for std::cell::Cell<Option<T>> {
    fn recv_mut(&mut self) -> Option<T> {
        self.replace(None)
    }
}

impl<T> Receiver for std::cell::Cell<Option<T>> {
    fn recv(&self) -> Option<T> {
        self.replace(None)
    }
}

} // verus!
