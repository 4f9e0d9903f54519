use vstd::prelude::*;

verus! {

/// A lock that hands out its value to one holder at a time.
///
/// The lock is `Locked` exactly while a [`SpinlockGuard`] holds the value,
/// and `Unlocked` while the value sits in the lock. Acquiring moves the value
/// into the guard; releasing moves it back.
pub struct Spinlock<T> {
    data: Option<T>,
}

/// Exclusive access to the value of a [`Spinlock`] while it is held.
pub struct SpinlockGuard<T> {
    data: T,
}

impl<T> Spinlock<T> {
    /// Whether a guard holds the value.
    pub closed spec fn is_locked(&self) -> bool {
        self.data is None
    }

    /// The protected value, while the lock is not held.
    pub closed spec fn value(&self) -> T {
        self.data->Some_0
    }

    /// A lock, not held, protecting `data`.
    pub fn new(data: T) -> (r: Self)
        ensures
            !r.is_locked(),
            r.value() == data,
    {
        Spinlock { data: Some(data) }
    }

    /// Whether a guard holds the value.
    pub fn locked(&self) -> (r: bool)
        ensures
            r == self.is_locked(),
    {
        self.data.is_none()
    }

    /// One attempt to take the lock: succeeds, and moves the value into the
    /// returned guard, exactly when the lock is not held; leaves it as it was
    /// otherwise.
    pub fn try_lock(&mut self) -> (r: Option<SpinlockGuard<T>>)
        ensures
            r is Some <==> !old(self).is_locked(),
            r is Some ==> final(self).is_locked() && r->Some_0.value() == old(self).value(),
            r is None ==> *final(self) == *old(self),
    {
        match self.data.take() {
            Some(data) => Some(SpinlockGuard { data }),
            None => None,
        }
    }

    /// Takes the lock. A holder that asked again for a lock it holds would
    /// spin for ever, so the lock must not be held.
    pub fn lock(&mut self) -> (g: SpinlockGuard<T>)
        requires
            !old(self).is_locked(),
        ensures
            final(self).is_locked(),
            g.value() == old(self).value(),
    {
        let r = self.try_lock();
        r.unwrap()
    }

    /// Releases the lock, putting back the value that `guard` holds.
    pub fn unlock(&mut self, guard: SpinlockGuard<T>)
        requires
            old(self).is_locked(),
        ensures
            !final(self).is_locked(),
            final(self).value() == guard.value(),
    {
        self.data = Some(guard.data);
    }
}

impl<T> SpinlockGuard<T> {
    /// The value held.
    pub closed spec fn value(&self) -> T {
        self.data
    }

    /// Shared access to the value held.
    pub fn get(&self) -> (r: &T)
        ensures
            *r == self.value(),
    {
        &self.data
    }

    /// Mutable access to the value held.
    pub fn get_mut(&mut self) -> (r: &mut T)
        ensures
            *r == old(self).value(),
            final(self).value() == *final(r),
    {
        &mut self.data
    }
}

} // verus!
