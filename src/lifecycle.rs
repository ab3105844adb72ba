use vstd::prelude::*;

use crate::error::Error;

verus! {

/// The process-wide slot of the running server: at most one stop trigger,
/// tagged with the ticket its start was given.
pub struct ServerLifecycle<T> {
    handle: Option<(u64, T)>,
    next_ticket: u64,
}

impl<T> ServerLifecycle<T> {
    /// A server is running: its stop trigger is held.
    pub closed spec fn running(self) -> bool {
        self.handle is Some
    }

    /// The ticket of the running server.
    pub closed spec fn ticket(self) -> u64 {
        (self.handle->0).0
    }

    /// The stop trigger of the running server.
    pub closed spec fn trigger(self) -> T {
        (self.handle->0).1
    }

    /// The ticket that the next start will get.
    pub closed spec fn next_ticket(self) -> u64 {
        self.next_ticket
    }

    /// The slot after a start with `trigger`: unchanged while a server runs,
    /// else holding `trigger` under a fresh ticket.
    pub closed spec fn after_start(self, trigger: T) -> Self {
        if self.running() {
            self
        } else {
            ServerLifecycle {
                handle: Some((self.next_ticket, trigger)),
                next_ticket: self.next_ticket.wrapping_add(1),
            }
        }
    }

    /// The slot after a stop: empty.
    pub closed spec fn after_stop(self) -> Self {
        ServerLifecycle { handle: None, next_ticket: self.next_ticket }
    }

    /// The slot after the server with ticket `ticket` ended: emptied where
    /// that server is the one held, else unchanged.
    pub closed spec fn after_finish(self, ticket: u64) -> Self {
        if self.running() && self.ticket() == ticket {
            self.after_stop()
        } else {
            self
        }
    }

    /// An empty slot: no server runs.
    pub fn new() -> (r: Self)
        ensures
            !r.running(),
    {
        ServerLifecycle { handle: None, next_ticket: 0 }
    }

    /// Tells whether a server is running.
    pub fn is_running(&self) -> (r: bool)
        ensures
            r == self.running(),
    {
        self.handle.is_some()
    }

    /// Registers the stop trigger of a server about to start, and returns its
    /// ticket; fails with `AlreadyRunning`, changing nothing, while one runs.
    pub fn start(&mut self, trigger: T) -> (r: Result<u64, Error>)
        ensures
            *final(self) == old(self).after_start(trigger),
            r is Err <==> old(self).running(),
            r matches Err(e) ==> e is AlreadyRunning,
            old(self).running() ==> *final(self) == *old(self),
            r matches Ok(t) ==> t == old(self).next_ticket() && final(self).running()
                && final(self).ticket() == t && final(self).trigger() == trigger,
    {
        if self.handle.is_some() {
            return Err(Error::AlreadyRunning);
        }
        let t = self.next_ticket;
        self.handle = Some((t, trigger));
        self.next_ticket = t.wrapping_add(1);
        Ok(t)
    }

    /// Takes the running server's stop trigger, for the caller to fire; where
    /// none runs, returns `None` and changes nothing.
    pub fn stop(&mut self) -> (r: Option<T>)
        ensures
            *final(self) == old(self).after_stop(),
            !final(self).running(),
            old(self).running() ==> r == Some(old(self).trigger()),
            !old(self).running() ==> r is None && *final(self) == *old(self),
    {
        match self.handle.take() {
            Some((_, trigger)) => Some(trigger),
            None => None,
        }
    }

    /// Records that the server with ticket `ticket` ended, by a signal or a
    /// failure: its trigger is dropped from the slot and returned. A later
    /// server's trigger is left in place.
    pub fn finish(&mut self, ticket: u64) -> (r: Option<T>)
        ensures
            *final(self) == old(self).after_finish(ticket),
            (old(self).running() && old(self).ticket() == ticket) ==> r == Some(old(self).trigger())
                && !final(self).running(),
            !(old(self).running() && old(self).ticket() == ticket) ==> r is None && *final(self)
                == *old(self),
    {
        let held = match &self.handle {
            Some((t, _)) => *t == ticket,
            None => false,
        };
        if held {
            self.stop()
        } else {
            None
        }
    }
}

/// Starting twice with no stop between: the first start runs the server, the
/// second finds it running and leaves the slot as it was. Stopping when no
/// server runs changes nothing.
pub proof fn lemma_start_twice_then_stop<T>(l: ServerLifecycle<T>, first: T, second: T)
    ensures
        !l.running() ==> l.after_start(first).running(),
        !l.running() ==> l.after_start(first).trigger() == first,
        !l.running() ==> l.after_start(first).after_start(second) == l.after_start(first),
        !l.running() ==> l.after_stop() == l,
        !l.after_start(first).after_stop().running(),
{
}

} // verus!
