//! Messages between components, and the queue that carries them.
use vstd::prelude::*;

verus! {

/// A side effect on the chat platform, decided by the linker or the
/// verifier and carried out by the action consumer.
#[derive(Clone, Copy, Debug, PartialEq, Eq, Structural)]
pub enum TelegramAction {
    InviteUser { id: i64, group_id: i64 },
    RemoveUser { id: i64, group_id: i64 },
}

/// A request to run a verification cycle out of schedule.
#[derive(Clone, Copy, Debug, PartialEq, Eq, Structural)]
pub enum CronAction {
    Execute,
}

/// A single-consumer, unbounded, first-in first-out queue. Producers never
/// wait on the consumer; sending fails only once the consumer has gone
/// away, and the item is then handed back.
pub struct Outbox<T> {
    items: Vec<T>,
    open: bool,
}

impl<T> Outbox<T> {
    /// The items sent and not yet taken, oldest first.
    pub closed spec fn items(&self) -> Seq<T> {
        self.items@
    }

    pub closed spec fn is_open(&self) -> bool {
        self.open
    }

    pub fn new() -> (r: Self)
        ensures
            r.items() == Seq::<T>::empty(),
            r.is_open(),
    {
        Outbox { items: Vec::new(), open: true }
    }

    /// Marks the consumer as gone: later sends fail.
    pub fn close(&mut self)
        ensures
            final(self).items() == old(self).items(),
            !final(self).is_open(),
    {
        self.open = false;
    }

    pub fn is_closed(&self) -> (r: bool)
        ensures
            r == !self.is_open(),
    {
        !self.open
    }

    pub fn len(&self) -> (r: usize)
        ensures
            r == self.items().len(),
    {
        self.items.len()
    }

    pub fn send(&mut self, item: T) -> (r: Result<(), T>)
        ensures
            final(self).is_open() == old(self).is_open(),
            old(self).is_open() ==> r is Ok && final(self).items() == old(self).items().push(item),
            !old(self).is_open() ==> r == Err::<(), T>(item) && final(self).items() == old(
                self,
            ).items(),
    {
        if self.open {
            self.items.push(item);
            Ok(())
        } else {
            Err(item)
        }
    }

    /// Hands out every pending item in the order it was sent.
    pub fn take_all(&mut self) -> (r: Vec<T>)
        ensures
            r@ == old(self).items(),
            final(self).items() == Seq::<T>::empty(),
            final(self).is_open() == old(self).is_open(),
    {
        let mut out: Vec<T> = Vec::new();
        core::mem::swap(&mut self.items, &mut out);
        out
    }
}

} // verus!
