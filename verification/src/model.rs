use crate::level::LogLevel;
use crate::logger::{Channel, Subscriber};
use vstd::prelude::*;

verus! {

/// The name of the default channel: the one character `_`.
pub open spec fn default_tag() -> Seq<char> {
    seq!['_']
}

/// What a registry must always hold: the default channel is there, no
/// channel holds a listener twice, and every listener of every channel may be
/// called with any message.
pub open spec fn well_formed<F: Fn(LogLevel, Option<&str>, &str)>(
    channels: Map<Seq<char>, Channel<F>>,
) -> bool {
    &&& channels.contains_key(default_tag())
    &&& forall|name: Seq<char>| channels.contains_key(name) ==> (#[trigger] channels[name]).wf()
}

/// A registry as it is first made: the default channel alone, at `Info`, with
/// nobody listening.
pub open spec fn initial<F>() -> Map<Seq<char>, Channel<F>> {
    Map::empty().insert(default_tag(), Channel::fresh())
}

/// The registry after a channel was made anew under `name`: whatever stood
/// under that name before is gone.
pub open spec fn after_add<F>(
    channels: Map<Seq<char>, Channel<F>>,
    name: Seq<char>,
) -> Map<Seq<char>, Channel<F>> {
    channels.insert(name, Channel::fresh())
}

/// The registry after the threshold of `name` was set: a channel that was
/// there keeps its listeners, one that was not is made without any.
pub open spec fn after_set<F>(
    channels: Map<Seq<char>, Channel<F>>,
    level: LogLevel,
    name: Seq<char>,
) -> Map<Seq<char>, Channel<F>> {
    if channels.contains_key(name) {
        channels.insert(name, channels[name].with_threshold(level))
    } else {
        channels.insert(name, Channel::quiet(level))
    }
}

/// The registry after a listener was attached under `id` to the channel
/// `name`, which must be there: unchanged where the channel already holds
/// that identity.
pub open spec fn after_listen<F>(
    channels: Map<Seq<char>, Channel<F>>,
    name: Seq<char>,
    id: u64,
    cb: F,
) -> Map<Seq<char>, Channel<F>>
    recommends
        channels.contains_key(name),
{
    channels.insert(name, channels[name].with_listener(id, cb))
}

/// The registry after the listeners of `name` were detached: unchanged where
/// there is no such channel.
pub open spec fn after_unlisten<F>(
    channels: Map<Seq<char>, Channel<F>>,
    name: Seq<char>,
) -> Map<Seq<char>, Channel<F>> {
    if channels.contains_key(name) {
        channels.insert(name, channels[name].silenced())
    } else {
        channels
    }
}

/// Whether a message of severity `level` for the channel `name` would pass:
/// the channel must be there and its threshold must let the severity through.
/// A name without a channel passes nothing.
pub open spec fn passes<F>(
    channels: Map<Seq<char>, Channel<F>>,
    level: LogLevel,
    name: Seq<char>,
) -> bool {
    channels.contains_key(name) && channels[name].accepts(level)
}

/// The channel that handles a message sent under `name`: the channel of
/// that name, or the default channel where there is none.
pub open spec fn route<F>(channels: Map<Seq<char>, Channel<F>>, name: Seq<char>) -> Seq<char> {
    if channels.contains_key(name) {
        name
    } else {
        default_tag()
    }
}

/// The listeners that get a message of severity `level` sent under `name`,
/// in the order in which they are called.
pub open spec fn recipients<F>(
    channels: Map<Seq<char>, Channel<F>>,
    level: LogLevel,
    name: Seq<char>,
) -> Seq<Subscriber<F>> {
    channels[route(channels, name)].heard_by(level)
}

} // verus!
