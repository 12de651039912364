//! Named callbacks and a fixed-capacity event that holds them.
use vstd::prelude::*;

verus! {

/// Length of a subscriber's name; shorter names are padded with `'\0'`.
pub const NAME_LEN: usize = 10;

#[derive(Clone, Copy, Debug, PartialEq, Eq, Structural)]
pub enum EventError {
    /// The event already holds its full number of subscribers.
    NoSpace,
}

/// The name as stored: its characters, then `'\0'` up to `NAME_LEN`.
pub open spec fn padded_name(name: Seq<char>) -> Seq<char> {
    name + Seq::new((NAME_LEN - name.len()) as nat, |i: int| '\0')
}

/// A callback with a short name.
pub struct Subscriber<F: FnMut()> {
    callback: F,
    name: [char; 10],
}

impl<F: FnMut()> Subscriber<F> {
    pub closed spec fn callback(&self) -> F {
        self.callback
    }

    pub closed spec fn name(&self) -> Seq<char> {
        self.name@
    }

    /// Stores `callback` under `name`, which has at most `NAME_LEN`
    /// characters.
    pub fn new(callback: F, name: &str) -> (r: Self)
        requires
            name@.len() <= NAME_LEN,
        ensures
            r.callback() == callback,
            r.name() == padded_name(name@),
    {
        let len: usize = name.unicode_len();
        let mut n: [char; 10] = ['\0'; 10];
        let mut i: usize = 0;
        while i < len
            invariant
                len == name@.len(),
                len <= NAME_LEN,
                i <= len,
                n@.len() == NAME_LEN,
                forall|j: int| 0 <= j < i ==> n@[j] == name@[j],
                forall|j: int| i <= j < NAME_LEN ==> n@[j] == '\0',
            decreases len - i,
        {
            n[i] = name.get_char(i);
            i = i + 1;
        }
        assert(n@ =~= padded_name(name@));
        Subscriber { callback, name: n }
    }

    /// Runs the callback once.
    pub fn call(&mut self)
        requires
            call_requires(old(self).callback(), ()),
        ensures
            call_ensures(old(self).callback(), (), ()),
            final(self).name() == old(self).name(),
    {
        (self.callback)();
    }
}

/// An event with room for `S` subscribers.
pub struct Event<F: FnMut(), const S: usize> {
    callbacks: Vec<Subscriber<F>>,
}

impl<F: FnMut(), const S: usize> Event<F, S> {
    /// The subscribers, in the order they subscribed.
    pub closed spec fn subscribers(&self) -> Seq<Subscriber<F>> {
        self.callbacks@
    }

    /// The names of the subscribers, in the order they subscribed.
    pub open spec fn names(&self) -> Seq<Seq<char>> {
        self.subscribers().map_values(|s: Subscriber<F>| s.name())
    }

    pub open spec fn wf(&self) -> bool {
        self.names().len() <= S
    }

    /// An event without subscribers.
    pub fn new() -> (r: Self)
        ensures
            r.wf(),
            r.names() == Seq::<Seq<char>>::empty(),
    {
        Event { callbacks: Vec::new() }
    }

    /// Adds a subscriber; a full event is left unchanged and gives `NoSpace`.
    pub fn subscribe(&mut self, callback: F, name: &str) -> (r: Result<(), EventError>)
        requires
            old(self).wf(),
            name@.len() <= NAME_LEN,
        ensures
            final(self).wf(),
            old(self).subscribers().len() == S ==> r == Err::<(), EventError>(EventError::NoSpace)
                && final(self).subscribers() == old(self).subscribers(),
            old(self).subscribers().len() < S ==> {
                &&& r is Ok
                &&& final(self).subscribers().len() == old(self).subscribers().len() + 1
                &&& final(self).subscribers().drop_last() == old(self).subscribers()
                &&& final(self).subscribers().last().callback() == callback
                &&& final(self).subscribers().last().name() == padded_name(name@)
            },
    {
        if self.callbacks.len() == S {
            return Err(EventError::NoSpace);
        }
        let subscriber = Subscriber::new(callback, name);
        self.callbacks.push(subscriber);
        assert(self.subscribers().drop_last() =~= old(self).subscribers());
        Ok(())
    }

    /// Whether every subscriber's callback may run now.
    pub closed spec fn callable(&self) -> bool {
        forall|i: int|
            0 <= i < self.subscribers().len() ==> call_requires(#[trigger] self.subscribers()[i].callback(), ())
    }

    /// Runs every subscriber's callback once, in the order they subscribed.
    pub fn raise(&mut self)
        requires
            old(self).callable(),
        ensures
            final(self).names() == old(self).names(),
            final(self).subscribers().len() == old(self).subscribers().len(),
            forall|i: int|
                0 <= i < old(self).subscribers().len() ==> call_ensures(
                    #[trigger] old(self).subscribers()[i].callback(),
                    (),
                    (),
                ),
    {
        let n: usize = self.callbacks.len();
        let mut i: usize = 0;
        while i < n
            invariant
                n == self.callbacks@.len(),
                n == old(self).callbacks@.len(),
                i <= n,
                forall|j: int| 0 <= j < n ==> (#[trigger] self.callbacks@[j]).name() == old(self).callbacks@[j].name(),
                forall|j: int| i <= j < n ==> (#[trigger] self.callbacks@[j]).callback() == old(self).callbacks@[j].callback(),
                forall|j: int| 0 <= j < i ==> call_ensures(#[trigger] old(self).callbacks@[j].callback(), (), ()),
                old(self).callable(),
            decreases n - i,
        {
            assert(call_requires(old(self).subscribers()[i as int].callback(), ()));
            self.callbacks[i].call();
            i = i + 1;
        }
        assert(self.names() =~= old(self).names());
    }
}

} // verus!
