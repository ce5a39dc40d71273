//! The duplex transport: two one-way lanes, seen from one end.
//!
//! An endpoint sends on one lane and receives on the other. Each lane keeps
//! the order of what is put on it, takes whatever is sent without making the
//! sender wait, and ends when either side closes. Two endpoints are joined
//! by `exchange`, which carries what each has sent to the other.

use std::collections::VecDeque;
use vstd::prelude::*;
use vstd::string::*;

verus! {

/// An endpoint as a mathematical value.
pub struct TransportModel<Request, Response> {
    /// What has arrived and has not been received yet, oldest first.
    pub inbox: Seq<Request>,
    /// What has been sent and has not been carried over yet, oldest first.
    pub outbox: Seq<Response>,
    /// Whether the connection is closed.
    pub closed: bool,
}

impl<Request, Response> TransportModel<Request, Response> {
    /// The open endpoint with nothing in either lane.
    pub open spec fn idle() -> Self {
        TransportModel { inbox: Seq::empty(), outbox: Seq::empty(), closed: false }
    }

    /// The endpoint after `item` has been sent on it.
    pub open spec fn send(self, item: Response) -> Self {
        if self.closed {
            self
        } else {
            TransportModel { outbox: self.outbox.push(item), ..self }
        }
    }

    /// The endpoint after one look for an inbound item.
    pub open spec fn receive(self) -> Self {
        if self.inbox.len() > 0 {
            TransportModel { inbox: self.inbox.skip(1), ..self }
        } else {
            self
        }
    }

    /// What one look for an inbound item shows.
    pub open spec fn next(self) -> Inbound<Request> {
        if self.inbox.len() > 0 {
            Inbound::Item(self.inbox[0])
        } else if self.closed {
            Inbound::Closed
        } else {
            Inbound::Pending
        }
    }

    /// This endpoint after an exchange with `peer`: what the peer had sent
    /// has arrived behind what was here already, what was sent from here is
    /// on its way, and a closure on either side is known on both.
    pub open spec fn after_exchange(self, peer: TransportModel<Response, Request>) -> Self {
        TransportModel {
            inbox: self.inbox + peer.outbox,
            outbox: Seq::empty(),
            closed: self.closed || peer.closed,
        }
    }
}

/// What one look for an inbound item shows.
pub enum Inbound<Request> {
    /// Nothing has arrived, and the connection is open: look again later.
    Pending,
    /// The oldest item that had arrived.
    Item(Request),
    /// Nothing is left, and the connection is closed: nothing will arrive.
    Closed,
}

/// One end of a duplex connection: it receives `Request`s and sends
/// `Response`s.
pub struct ChannelTransport<Request, Response> {
    rcv: VecDeque<Request>,
    snd: VecDeque<Response>,
    closed: bool,
}

impl<Request, Response> View for ChannelTransport<Request, Response> {
    type V = TransportModel<Request, Response>;

    closed spec fn view(&self) -> TransportModel<Request, Response> {
        TransportModel { inbox: self.rcv@, outbox: self.snd@, closed: self.closed }
    }
}

impl<R, S> ChannelTransport<R, S> {
    /// An open endpoint with nothing in either lane.
    pub fn new() -> (transport: Self)
        ensures
            transport@ == TransportModel::<R, S>::idle(),
    {
        ChannelTransport { rcv: VecDeque::new(), snd: VecDeque::new(), closed: false }
    }

    /// Whether the endpoint takes an item now. It always does: a lane has no
    /// bound, and the queue behind it is what makes callers wait.
    pub fn poll_ready(&self) -> (ready: Result<(), String>)
        ensures
            ready is Ok,
    {
        Ok(())
    }

    /// Sends `item`: puts it on the outbound lane, behind what was sent
    /// before. Fails on a closed connection, which is left as it was.
    pub fn start_send(&mut self, item: S) -> (sent: Result<(), String>)
        ensures
            final(self)@ == old(self)@.send(item),
            match sent {
                Ok(_) => !old(self)@.closed,
                Err(error) => old(self)@.closed && error@ == "channel closed"@,
            },
    {
        if self.closed {
            Err(String::from_str("channel closed"))
        } else {
            self.snd.push_back(item);
            Ok(())
        }
    }

    /// Whether all that was sent has left the endpoint's hands. It always
    /// has: sending does not buffer here.
    pub fn poll_flush(&self) -> (flushed: Result<(), String>)
        ensures
            flushed is Ok,
    {
        Ok(())
    }

    /// Whether the sending side is done. It always is.
    pub fn poll_close(&self) -> (done: Result<(), String>)
        ensures
            done is Ok,
    {
        Ok(())
    }

    /// Receives the oldest inbound item, if there is one. What had arrived
    /// before a closure is still handed out; after that the lane reports
    /// that it is closed.
    pub fn poll_next(&mut self) -> (inbound: Inbound<R>)
        ensures
            inbound == old(self)@.next(),
            final(self)@ == old(self)@.receive(),
    {
        match self.rcv.pop_front() {
            Some(item) => Inbound::Item(item),
            None => if self.closed {
                Inbound::Closed
            } else {
                Inbound::Pending
            },
        }
    }

    /// Closes the connection from this end. Nothing more can be sent.
    pub fn close(&mut self)
        ensures
            final(self)@ == (TransportModel { closed: true, ..old(self)@ }),
    {
        self.closed = true;
    }

    /// Carries over what this endpoint and `peer` have sent to each other,
    /// in the order in which it was sent, and lets each know if the other
    /// has closed.
    pub fn exchange(&mut self, peer: &mut ChannelTransport<S, R>)
        ensures
            final(self)@ == old(self)@.after_exchange(old(peer)@),
            final(peer)@ == old(peer)@.after_exchange(old(self)@),
    {
        peer.rcv.append(&mut self.snd);
        self.rcv.append(&mut peer.snd);
        let closed = self.closed || peer.closed;
        self.closed = closed;
        peer.closed = closed;
    }

    /// How many inbound items wait to be received.
    pub fn inbound(&self) -> (inbound: usize)
        ensures
            inbound == self@.inbox.len(),
    {
        self.rcv.len()
    }

    /// How many sent items wait to be carried over.
    pub fn outbound(&self) -> (outbound: usize)
        ensures
            outbound == self@.outbox.len(),
    {
        self.snd.len()
    }

    /// Whether the connection is closed.
    pub fn is_closed(&self) -> (closed: bool)
        ensures
            closed == self@.closed,
    {
        self.closed
    }
}

} // verus!
