use vstd::prelude::*;

verus! {

/// A value held together with the function that disposes of it. The holder either takes
/// the value out, which keeps it, or disposes of it, which hands it to the function.
pub struct DisposeOnDrop<T, F: FnOnce(T)> {
    value: T,
    dispose_fn: F,
}

impl<T, F: FnOnce(T)> DisposeOnDrop<T, F> {
    /// The held value.
    pub closed spec fn value(&self) -> T {
        self.value
    }

    /// The function that disposes of the value.
    pub closed spec fn dispose_fn(&self) -> F {
        self.dispose_fn
    }

    /// Holds `value`, to be disposed of by `dispose_fn`.
    pub fn new(value: T, dispose_fn: F) -> (r: Self)
        ensures
            r.value() == value,
            r.dispose_fn() == dispose_fn,
    {
        DisposeOnDrop { value, dispose_fn }
    }

    /// A reference to the held value.
    pub fn get(&self) -> (r: &T)
        ensures
            *r == self.value(),
    {
        &self.value
    }

    /// Takes the value out; it is not disposed of.
    pub fn take(self) -> (r: T)
        ensures
            r == self.value(),
    {
        self.value
    }

    /// Disposes of the value: the function is called with it.
    pub fn dispose(self)
        requires
            call_requires(self.dispose_fn(), (self.value(),)),
        ensures
            call_ensures(self.dispose_fn(), (self.value(),), ()),
    {
        let DisposeOnDrop { value, dispose_fn } = self;
        dispose_fn(value)
    }
}

} // verus!
