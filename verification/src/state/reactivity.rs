//! A value with subscribers that are called whenever it changes.

use vstd::prelude::*;

verus! {

/// A value and the callbacks to run after each change of it.
pub struct ReactiveState<T, F> {
    pub value: T,
    pub subscribers: Vec<F>,
}

impl<T, F: Fn()> ReactiveState<T, F> {
    /// Every subscriber may be called.
    pub open spec fn callable(&self) -> bool {
        forall|i: int| 0 <= i < self.subscribers@.len() ==> call_requires(#[trigger] self.subscribers@[i], ())
    }

    /// Every subscriber has run to completion: each call of it returned.
    pub open spec fn notified(&self) -> bool {
        forall|i: int| 0 <= i < self.subscribers@.len() ==> call_ensures(#[trigger] self.subscribers@[i], (), ())
    }

    /// A state holding `value`, without subscribers.
    pub fn new(value: T) -> (s: Self)
        ensures
            s.value == value,
            s.subscribers@.len() == 0,
    {
        ReactiveState { value, subscribers: Vec::new() }
    }

    /// The current value.
    pub fn get(&self) -> (r: &T)
        ensures
            *r == self.value,
    {
        &self.value
    }

    /// Stores `new_value`, then calls every subscriber in order.
    pub fn set(&mut self, new_value: T)
        requires
            old(self).callable(),
        ensures
            final(self).value == new_value,
            final(self).subscribers@ == old(self).subscribers@,
            old(self).notified(),
    {
        self.value = new_value;
        self.notify();
    }

    /// Replaces the value by what `updater` makes of it, then calls every
    /// subscriber in order.
    pub fn update<U: FnOnce(&T) -> T>(&mut self, updater: U)
        requires
            old(self).callable(),
            call_requires(updater, (&old(self).value,)),
        ensures
            call_ensures(updater, (&old(self).value,), final(self).value),
            final(self).subscribers@ == old(self).subscribers@,
            old(self).notified(),
    {
        let new_value = updater(&self.value);
        self.value = new_value;
        self.notify();
    }

    /// Adds a subscriber; it is called after every later change.
    pub fn subscribe(&mut self, callback: F)
        requires
            call_requires(callback, ()),
        ensures
            final(self).value == old(self).value,
            final(self).subscribers@ == old(self).subscribers@.push(callback),
    {
        self.subscribers.push(callback);
    }

    /// Calls every subscriber in order.
    fn notify(&self)
        requires
            self.callable(),
        ensures
            self.notified(),
    {
        let mut i: usize = 0;
        while i < self.subscribers.len()
            invariant
                i <= self.subscribers@.len(),
                self.callable(),
                forall|j: int| 0 <= j < i ==> call_ensures(#[trigger] self.subscribers@[j], (), ()),
            decreases self.subscribers@.len() - i,
        {
            (self.subscribers[i])();
            i += 1;
        }
    }
}

/// A callback added by `subscribe` runs at each later change, and stays
/// subscribed: `subscribed` is the state `subscribe` left, `set` or
/// `update` ran its subscribers (`notified`) and left `changed`.
pub proof fn law_subscribed_callback_runs<T, F: Fn()>(
    before: ReactiveState<T, F>,
    subscribed: ReactiveState<T, F>,
    changed: ReactiveState<T, F>,
    callback: F,
)
    requires
        subscribed.subscribers@ == before.subscribers@.push(callback),
        subscribed.notified(),
        changed.subscribers@ == subscribed.subscribers@,
    ensures
        call_ensures(callback, (), ()),
        changed.subscribers@.contains(callback),
{
    let i = before.subscribers@.len() as int;
    assert(subscribed.subscribers@[i] == callback);
    assert(changed.subscribers@[i] == callback);
}

} // verus!
