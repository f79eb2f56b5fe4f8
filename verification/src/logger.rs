use crate::level::LogLevel;
use vstd::prelude::*;

verus! {

/// The plain kind of listener: a function that takes the severity, the tag
/// that the sender gave (if any) and the text of one message. A registry can
/// hold any type of function with this shape, one type per registry.
pub type Listener = fn(LogLevel, Option<&str>, &str);

/// Whether a listener may be called with any message whatever: any severity,
/// any tag or none, any text.
pub open spec fn takes_every_message<F: Fn(LogLevel, Option<&str>, &str)>(cb: F) -> bool {
    forall|level: LogLevel, tag: Option<&str>, msg: &str| call_requires(cb, (level, tag, msg))
}

/// A listener as a channel holds it: the function to call, under the
/// identity that it was attached with. Two listeners of a channel are the
/// same listener exactly when their identities are equal.
pub struct Subscriber<F> {
    pub id: u64,
    pub cb: F,
}

/// What a channel is: the least severity that it lets through, and its
/// listeners in the order in which they were attached.
pub struct Channel<F> {
    pub threshold: LogLevel,
    pub listeners: Seq<Subscriber<F>>,
}

impl<F> Channel<F> {
    /// A channel as it is first made: threshold `Info`, nobody listening.
    pub open spec fn fresh() -> Self {
        Channel { threshold: LogLevel::Info, listeners: Seq::empty() }
    }

    /// A channel without listeners and with the given threshold.
    pub open spec fn quiet(level: LogLevel) -> Self {
        Channel { threshold: level, listeners: Seq::empty() }
    }

    /// The same listeners behind another threshold.
    pub open spec fn with_threshold(self, level: LogLevel) -> Self {
        Channel { threshold: level, listeners: self.listeners }
    }

    /// Whether a listener is attached under the identity `id`.
    pub open spec fn holds(self, id: u64) -> bool {
        exists|i: int| 0 <= i < self.listeners.len() && (#[trigger] self.listeners[i]).id == id
    }

    /// The channel after a listener was attached under `id`: unchanged where
    /// that identity is already attached; otherwise with the new listener
    /// after those already there.
    pub open spec fn with_listener(self, id: u64, cb: F) -> Self {
        if self.holds(id) {
            self
        } else {
            Channel {
                threshold: self.threshold,
                listeners: self.listeners.push(Subscriber { id, cb }),
            }
        }
    }

    /// The same threshold with nobody listening.
    pub open spec fn silenced(self) -> Self {
        Channel { threshold: self.threshold, listeners: Seq::empty() }
    }

    /// Whether a message of severity `level` passes the threshold.
    pub open spec fn accepts(self, level: LogLevel) -> bool {
        self.threshold.admits(level)
    }

    /// The listeners that get a message of severity `level` sent on this
    /// channel: all of them if it passes the threshold, none if it does not.
    pub open spec fn heard_by(self, level: LogLevel) -> Seq<Subscriber<F>> {
        if self.accepts(level) {
            self.listeners
        } else {
            Seq::empty()
        }
    }

    /// No identity is attached twice: the listeners are a set, kept in the
    /// order of attachment.
    pub open spec fn distinct(self) -> bool {
        forall|i: int, j: int|
            0 <= i < j < self.listeners.len()
                ==> (#[trigger] self.listeners[i]).id != (#[trigger] self.listeners[j]).id
    }
}

impl<F: Fn(LogLevel, Option<&str>, &str)> Channel<F> {
    /// Every listener of the channel may be called with any message.
    pub open spec fn callable(self) -> bool {
        forall|i: int|
            0 <= i < self.listeners.len() ==> takes_every_message((#[trigger] self.listeners[i]).cb)
    }

    /// What every channel of a registry is: no identity is attached twice,
    /// and every listener may be called with any message.
    pub open spec fn wf(self) -> bool {
        self.distinct() && self.callable()
    }
}

/// One channel of the registry: a threshold and the listeners behind it.
pub struct Logger<F> {
    pub level: LogLevel,
    pub callbacks: Vec<Subscriber<F>>,
}

impl<F> View for Logger<F> {
    type V = Channel<F>;

    open spec fn view(&self) -> Channel<F> {
        Channel { threshold: self.level, listeners: self.callbacks@ }
    }
}

impl<F: Fn(LogLevel, Option<&str>, &str) + Copy> Logger<F> {
    /// A channel with threshold `Info` and no listeners.
    pub fn new() -> (r: Self)
        ensures
            r@ == Channel::<F>::fresh(),
    {
        Logger::with_level(LogLevel::Info)
    }

    /// A channel with the given threshold and no listeners.
    pub fn with_level(level: LogLevel) -> (r: Self)
        ensures
            r@ == Channel::<F>::quiet(level),
    {
        Logger { level, callbacks: Vec::new() }
    }

    /// Replaces the threshold and keeps the listeners.
    pub fn set_level(&mut self, level: LogLevel)
        ensures
            final(self)@ == old(self)@.with_threshold(level),
    {
        self.level = level;
    }

    /// Whether a listener is attached under the identity `id`.
    pub fn has_listener(&self, id: u64) -> (found: bool)
        ensures
            found == self@.holds(id),
    {
        let mut i: usize = 0;
        while i < self.callbacks.len()
            invariant
                i <= self.callbacks@.len(),
                forall|j: int| 0 <= j < i ==> (#[trigger] self.callbacks@[j]).id != id,
            decreases self.callbacks@.len() - i,
        {
            if self.callbacks[i].id == id {
                assert(self@.listeners[i as int].id == id);
                return true;
            }
            i = i + 1;
        }
        false
    }

    /// Attaches a listener under the identity `id`, behind those already
    /// there. Where that identity is already attached nothing changes: the
    /// listener that was there stays, and `cb` is dropped.
    pub fn add_listener(&mut self, id: u64, cb: F)
        ensures
            final(self)@ == old(self)@.with_listener(id, cb),
    {
        if !self.has_listener(id) {
            self.callbacks.push(Subscriber { id, cb });
        }
    }

    /// Detaches every listener and keeps the threshold.
    pub fn clear_listeners(&mut self)
        ensures
            final(self)@ == old(self)@.silenced(),
    {
        self.callbacks = Vec::new();
    }

    /// Whether a message of severity `level` passes the threshold.
    pub fn accepts(&self, level: LogLevel) -> (b: bool)
        ensures
            b == self@.accepts(level),
    {
        self.level.lets_through(&level)
    }

    /// A second channel with the same threshold and the same listeners in the
    /// same order.
    pub fn duplicate(&self) -> (r: Self)
        ensures
            r@ == self@,
    {
        let mut callbacks: Vec<Subscriber<F>> = Vec::new();
        let mut i: usize = 0;
        while i < self.callbacks.len()
            invariant
                i <= self.callbacks@.len(),
                callbacks@ == self.callbacks@.subrange(0, i as int),
            decreases self.callbacks@.len() - i,
        {
            let id: u64 = self.callbacks[i].id;
            let cb: F = self.callbacks[i].cb;
            callbacks.push(Subscriber { id, cb });
            i = i + 1;
        }
        assert(callbacks@ == self.callbacks@);
        Logger { level: self.level, callbacks }
    }

    /// Hands one message to every listener of the channel, in the order in
    /// which they were attached, whatever the threshold. Returns how many
    /// listeners were called.
    pub fn notify(&self, level: LogLevel, maybe_tag: Option<&str>, msg: &str) -> (called: usize)
        requires
            self@.callable(),
        ensures
            called == self@.listeners.len(),
            forall|i: int|
                0 <= i < self@.listeners.len() ==> call_ensures(
                    (#[trigger] self@.listeners[i]).cb,
                    (level, maybe_tag, msg),
                    (),
                ),
    {
        let mut i: usize = 0;
        while i < self.callbacks.len()
            invariant
                i <= self.callbacks@.len(),
                self@.callable(),
                forall|j: int|
                    0 <= j < i ==> call_ensures(
                        (#[trigger] self.callbacks@[j]).cb,
                        (level, maybe_tag, msg),
                        (),
                    ),
            decreases self.callbacks@.len() - i,
        {
            let cb: F = self.callbacks[i].cb;
            assert(takes_every_message(self@.listeners[i as int].cb));
            cb(level, maybe_tag, msg);
            i = i + 1;
        }
        i
    }
}

/// Attaching a listener keeps a channel in order: no identity comes to stand
/// twice, every listener that was there stays in its place, and at most one
/// is added, at the end.
pub proof fn lemma_with_listener_keeps_order<F: Fn(LogLevel, Option<&str>, &str)>(
    channel: Channel<F>,
    id: u64,
    cb: F,
)
    requires
        channel.distinct(),
    ensures
        channel.with_listener(id, cb).distinct(),
        channel.with_listener(id, cb).holds(id),
        channel.with_listener(id, cb).threshold == channel.threshold,
        channel.listeners.is_prefix_of(channel.with_listener(id, cb).listeners),
        channel.callable() && takes_every_message(cb) ==> channel.with_listener(id, cb).callable(),
{
    let after = channel.with_listener(id, cb);
    if !channel.holds(id) {
        let last = channel.listeners.len() as int;
        assert(after.listeners[last].id == id);
        assert forall|i: int, j: int|
            0 <= i < j < after.listeners.len()
            implies (#[trigger] after.listeners[i]).id != (#[trigger] after.listeners[j]).id
        by {
            if j == last {
                assert(channel.listeners[i].id != id);
            } else {
                assert(channel.listeners[i].id != channel.listeners[j].id);
            }
        }
    }
}

} // verus!
