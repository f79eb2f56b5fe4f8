use crate::error::LogError;
use crate::level::LogLevel;
use crate::logger::{lemma_with_listener_keeps_order, takes_every_message, Channel, Logger};
use crate::model::{
    after_add, after_listen, after_set, after_unlisten, default_tag, initial, passes, recipients,
    well_formed,
};
use vstd::hash_map::StringHashMap;
use vstd::prelude::*;

verus! {

/// The name of the channel that a caller means by an owned tag: the tag, or
/// the default channel's name where there is none.
pub open spec fn owned_name(maybe_tag: Option<String>) -> Seq<char> {
    match maybe_tag {
        Some(tag) => tag@,
        None => default_tag(),
    }
}

/// The name of the channel that a caller means by a borrowed tag: the tag, or
/// the default channel's name where there is none.
pub open spec fn borrowed_name(maybe_tag: Option<&str>) -> Seq<char> {
    match maybe_tag {
        Some(tag) => tag@,
        None => default_tag(),
    }
}

/// The registry: every channel under its name. Its view is the map from names
/// to channels.
#[verifier::reject_recursive_types(F)]
pub struct Tweetlog<F> {
    log_by_tag: StringHashMap<Logger<F>>,
}

impl<F> View for Tweetlog<F> {
    type V = Map<Seq<char>, Channel<F>>;

    closed spec fn view(&self) -> Map<Seq<char>, Channel<F>> {
        Map::new(
            |name: Seq<char>| self.log_by_tag@.contains_key(name),
            |name: Seq<char>| self.log_by_tag@[name]@,
        )
    }
}

impl<F: Fn(LogLevel, Option<&str>, &str) + Copy> Tweetlog<F> {
    /// The default channel is there, no channel holds a listener twice, and
    /// every listener may be called with any message.
    pub open spec fn wf(&self) -> bool {
        well_formed(self@)
    }

    /// What sending one message comes to: `delivered` is the number of
    /// listeners that the message is for, and for each of them there holds
    /// what it ensures of a call with the severity, the tag as the caller
    /// gave it, and the text.
    pub open spec fn delivers(
        &self,
        level: LogLevel,
        maybe_tag: Option<&str>,
        msg: &str,
        delivered: usize,
    ) -> bool {
        let heard = recipients(self@, level, borrowed_name(maybe_tag));
        &&& delivered == heard.len()
        &&& forall|i: int|
            0 <= i < heard.len() ==> call_ensures(
                (#[trigger] heard[i]).cb,
                (level, maybe_tag, msg),
                (),
            )
    }

    /// The default channel's name, owned.
    fn default_name() -> (name: String)
        ensures
            name@ == default_tag(),
    {
        proof {
            reveal_strlit("_");
        }
        let name = "_".to_owned();
        assert(name@ =~= default_tag());
        name
    }

    /// The channel under `name`, if there is one.
    fn find(&self, name: &str) -> (found: Option<&Logger<F>>)
        ensures
            match found {
                Some(logger) => self@.contains_key(name@) && logger@ == self@[name@],
                None => !self@.contains_key(name@),
            },
    {
        self.log_by_tag.get(name)
    }

    /// Puts `logger` under `name`, in place of what stood there.
    fn put(&mut self, name: String, logger: Logger<F>)
        ensures
            final(self)@ == old(self)@.insert(name@, logger@),
    {
        self.log_by_tag.insert(name, logger);
        assert(self@ =~= old(self)@.insert(name@, logger@));
    }

    /// A registry that holds the default channel alone, at threshold `Info`
    /// and with nobody listening.
    pub fn new() -> (tlog: Self)
        ensures
            tlog.wf(),
            tlog@ == initial::<F>(),
    {
        let mut tlog = Tweetlog { log_by_tag: StringHashMap::new() };
        assert(tlog@ =~= Map::<Seq<char>, Channel<F>>::empty());
        tlog.put(Self::default_name(), Logger::new());
        tlog
    }

    /// Makes the channel `tag` anew, at threshold `Info` and with nobody
    /// listening. A channel that stood under that name is replaced: its
    /// threshold and its listeners are gone.
    pub fn add(&mut self, tag: &str)
        requires
            old(self).wf(),
        ensures
            final(self).wf(),
            final(self)@ == after_add(old(self)@, tag@),
    {
        self.put(tag.to_owned(), Logger::new());
    }

    /// Sets the threshold of the channel `maybe_tag`, or of the default
    /// channel where no tag is given. A channel that is there keeps its
    /// listeners; one that is not is made, with that threshold and nobody
    /// listening. No other channel changes.
    pub fn set(&mut self, level: LogLevel, maybe_tag: Option<String>)
        requires
            old(self).wf(),
        ensures
            final(self).wf(),
            final(self)@ == after_set(old(self)@, level, owned_name(maybe_tag)),
            final(self)@.contains_key(owned_name(maybe_tag)),
            final(self)@[owned_name(maybe_tag)].threshold == level,
            forall|other: Seq<char>|
                other != owned_name(maybe_tag) ==> {
                    &&& final(self)@.contains_key(other) == old(self)@.contains_key(other)
                    &&& final(self)@[other] == old(self)@[other]
                },
    {
        let tag = match maybe_tag {
            None => Self::default_name(),
            Some(tag) => tag,
        };
        let updated = match self.find(tag.as_str()) {
            Some(logger) => {
                let mut logger = logger.duplicate();
                logger.set_level(level);
                logger
            },
            None => Logger::with_level(level),
        };
        self.put(tag, updated);
    }

    /// Attaches a listener to the default channel under the identity `id`,
    /// behind those already there. Where the default channel already holds
    /// a listener under that identity nothing changes.
    pub fn listen(&mut self, id: u64, cb: F)
        requires
            old(self).wf(),
            takes_every_message(cb),
        ensures
            final(self).wf(),
            final(self)@ == after_listen(old(self)@, default_tag(), id, cb),
    {
        let name = Self::default_name();
        let _attached = self.listen_to_tag(name.as_str(), id, cb);
    }

    /// Attaches a listener to the channel `tag` under the identity `id`,
    /// behind those already there. Where the channel already holds a
    /// listener under that identity nothing changes: the one that is there
    /// stays, and a message still reaches it once. Where there is no such
    /// channel nothing changes either, no channel is made, and the error
    /// names the tag.
    pub fn listen_to_tag(&mut self, tag: &str, id: u64, cb: F) -> (r: Result<(), LogError>)
        requires
            old(self).wf(),
            takes_every_message(cb),
        ensures
            final(self).wf(),
            match r {
                Ok(_) => {
                    &&& old(self)@.contains_key(tag@)
                    &&& final(self)@ == after_listen(old(self)@, tag@, id, cb)
                },
                Err(LogError::UnknownChannel(name)) => {
                    &&& !old(self)@.contains_key(tag@)
                    &&& final(self)@ == old(self)@
                    &&& name@ == tag@
                },
                Err(_) => false,
            },
    {
        match self.find(tag) {
            Some(logger) => {
                let mut logger = logger.duplicate();
                logger.add_listener(id, cb);
                proof {
                    lemma_with_listener_keeps_order(self@[tag@], id, cb);
                }
                self.put(tag.to_owned(), logger);
                Ok(())
            },
            None => Err(LogError::UnknownChannel(tag.to_owned())),
        }
    }

    /// Detaches every listener of the channel `tag` and keeps its threshold.
    /// Where there is no such channel nothing changes.
    pub fn unlisten(&mut self, tag: &str)
        requires
            old(self).wf(),
        ensures
            final(self).wf(),
            final(self)@ == after_unlisten(old(self)@, tag@),
    {
        match self.find(tag) {
            Some(logger) => {
                let mut logger = logger.duplicate();
                logger.clear_listeners();
                self.put(tag.to_owned(), logger);
            },
            None => {},
        }
    }

    /// Whether a message of severity `level` for the channel `maybe_tag`, or
    /// for the default channel where no tag is given, would pass its
    /// threshold. A tag without a channel passes nothing: this question does
    /// not fall back to the default channel.
    pub fn should(&self, level: LogLevel, maybe_tag: Option<String>) -> (b: bool)
        requires
            self.wf(),
        ensures
            b == passes(self@, level, owned_name(maybe_tag)),
    {
        let tag = match maybe_tag {
            None => Self::default_name(),
            Some(tag) => tag,
        };
        match self.find(tag.as_str()) {
            None => false,
            Some(logger) => logger.accepts(level),
        }
    }

    /// Sends one message. The channel `maybe_tag` handles it, or the default
    /// channel where no tag is given or the tag names no channel. If the
    /// severity passes that channel's threshold, each of its listeners is
    /// called once, in the order of attachment, with the severity, the tag
    /// exactly as the caller gave it, and the text; otherwise nobody is
    /// called. Returns the number of listeners called.
    pub fn tweet(&self, level: LogLevel, maybe_tag: Option<&str>, msg: &str) -> (delivered: usize)
        requires
            self.wf(),
        ensures
            self.delivers(level, maybe_tag, msg, delivered),
    {
        proof {
            reveal_strlit("_");
            assert("_"@ =~= default_tag());
        }
        let tag = match maybe_tag {
            None => "_",
            Some(tag) => tag,
        };
        let logger = match self.find(tag) {
            None => self.find("_").unwrap(),
            Some(logger) => logger,
        };
        if logger.accepts(level) {
            logger.notify(level, maybe_tag, msg)
        } else {
            0
        }
    }

    /// Sends a `Trace` message without a tag: see `tweet`.
    pub fn t(&self, msg: &str) -> (delivered: usize)
        requires
            self.wf(),
        ensures
            self.delivers(LogLevel::Trace, None, msg, delivered),
    {
        self.tweet(LogLevel::Trace, None, msg)
    }

    /// Sends a `Trace` message under `tag`: see `tweet`.
    pub fn tt(&self, tag: &str, msg: &str) -> (delivered: usize)
        requires
            self.wf(),
        ensures
            self.delivers(LogLevel::Trace, Some(tag), msg, delivered),
    {
        self.tweet(LogLevel::Trace, Some(tag), msg)
    }

    /// Sends a `Debug` message without a tag: see `tweet`.
    pub fn d(&self, msg: &str) -> (delivered: usize)
        requires
            self.wf(),
        ensures
            self.delivers(LogLevel::Debug, None, msg, delivered),
    {
        self.tweet(LogLevel::Debug, None, msg)
    }

    /// Sends a `Debug` message under `tag`: see `tweet`.
    pub fn dd(&self, tag: &str, msg: &str) -> (delivered: usize)
        requires
            self.wf(),
        ensures
            self.delivers(LogLevel::Debug, Some(tag), msg, delivered),
    {
        self.tweet(LogLevel::Debug, Some(tag), msg)
    }

    /// Sends an `Info` message without a tag: see `tweet`.
    pub fn i(&self, msg: &str) -> (delivered: usize)
        requires
            self.wf(),
        ensures
            self.delivers(LogLevel::Info, None, msg, delivered),
    {
        self.tweet(LogLevel::Info, None, msg)
    }

    /// Sends an `Info` message under `tag`: see `tweet`.
    pub fn ii(&self, tag: &str, msg: &str) -> (delivered: usize)
        requires
            self.wf(),
        ensures
            self.delivers(LogLevel::Info, Some(tag), msg, delivered),
    {
        self.tweet(LogLevel::Info, Some(tag), msg)
    }

    /// Sends a `Warning` message without a tag: see `tweet`.
    pub fn w(&self, msg: &str) -> (delivered: usize)
        requires
            self.wf(),
        ensures
            self.delivers(LogLevel::Warning, None, msg, delivered),
    {
        self.tweet(LogLevel::Warning, None, msg)
    }

    /// Sends a `Warning` message under `tag`: see `tweet`.
    pub fn ww(&self, tag: &str, msg: &str) -> (delivered: usize)
        requires
            self.wf(),
        ensures
            self.delivers(LogLevel::Warning, Some(tag), msg, delivered),
    {
        self.tweet(LogLevel::Warning, Some(tag), msg)
    }

    /// Sends an `Error` message without a tag: see `tweet`.
    pub fn e(&self, msg: &str) -> (delivered: usize)
        requires
            self.wf(),
        ensures
            self.delivers(LogLevel::Error, None, msg, delivered),
    {
        self.tweet(LogLevel::Error, None, msg)
    }

    /// Sends an `Error` message under `tag`: see `tweet`.
    pub fn ee(&self, tag: &str, msg: &str) -> (delivered: usize)
        requires
            self.wf(),
        ensures
            self.delivers(LogLevel::Error, Some(tag), msg, delivered),
    {
        self.tweet(LogLevel::Error, Some(tag), msg)
    }
}

} // verus!
