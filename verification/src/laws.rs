use crate::level::LogLevel;
use crate::logger::{lemma_with_listener_keeps_order, takes_every_message, Channel, Subscriber};
use crate::model::{
    after_add, after_listen, after_set, after_unlisten, default_tag, initial, passes, recipients,
    well_formed,
};
use vstd::prelude::*;

verus! {

/// A channel lets through every severity at or above its threshold, the
/// threshold itself included, and hands such a message to all its listeners.
pub proof fn lemma_channel_accepts_at_or_above<F>(channel: Channel<F>, level: LogLevel)
    requires
        channel.threshold.rank() <= level.rank(),
    ensures
        channel.accepts(level),
        channel.accepts(channel.threshold),
        channel.heard_by(level) == channel.listeners,
{
}

/// A channel holds back every severity below its threshold: nobody hears
/// such a message.
pub proof fn lemma_channel_rejects_below<F>(channel: Channel<F>, level: LogLevel)
    requires
        level.rank() < channel.threshold.rank(),
    ensures
        !channel.accepts(level),
        channel.heard_by(level) == Seq::<Subscriber<F>>::empty(),
{
}

/// A new registry is well formed, and its default channel lets through
/// `Info`, `Warning` and `Error` and holds back `Trace` and `Debug`.
pub proof fn lemma_initial_filters_at_info<F: Fn(LogLevel, Option<&str>, &str)>(level: LogLevel)
    ensures
        well_formed(initial::<F>()),
        passes(initial::<F>(), level, default_tag()) == (level == LogLevel::Info
            || level == LogLevel::Warning || level == LogLevel::Error),
        recipients(initial::<F>(), level, default_tag()) == Seq::<Subscriber<F>>::empty(),
{
}

/// No change of the registry takes the default channel away, lets a
/// listener stand twice in a channel, or lets in a listener that cannot be
/// called: a well-formed registry stays well formed under `add`, `set`,
/// `listen` and `unlisten`.
pub proof fn lemma_changes_keep_well_formed<F: Fn(LogLevel, Option<&str>, &str)>(
    channels: Map<Seq<char>, Channel<F>>,
    level: LogLevel,
    name: Seq<char>,
    id: u64,
    cb: F,
)
    requires
        well_formed(channels),
    ensures
        well_formed(after_add(channels, name)),
        well_formed(after_set(channels, level, name)),
        well_formed(after_unlisten(channels, name)),
        channels.contains_key(name) && takes_every_message(cb)
            ==> well_formed(after_listen(channels, name, id, cb)),
{
    if channels.contains_key(name) {
        lemma_with_listener_keeps_order(channels[name], id, cb);
    }
}

/// Setting a threshold under a name makes the channel if it was not there,
/// and from then on that channel lets through exactly the severities at or
/// above the threshold that was set. A channel made this way has no
/// listeners; one that was there keeps its own.
pub proof fn lemma_set_decides_what_passes<F>(
    channels: Map<Seq<char>, Channel<F>>,
    level: LogLevel,
    name: Seq<char>,
    asked: LogLevel,
)
    ensures
        after_set(channels, level, name).contains_key(name),
        after_set(channels, level, name)[name].threshold == level,
        passes(after_set(channels, level, name), asked, name) == level.admits(asked),
        !channels.contains_key(name)
            ==> after_set(channels, level, name)[name] == Channel::<F>::quiet(level),
        channels.contains_key(name)
            ==> after_set(channels, level, name)[name].listeners == channels[name].listeners,
{
}

/// Setting a threshold under one name changes no channel under another
/// name: the default channel and every other tag keep their threshold and
/// their listeners, and no other channel appears or goes.
pub proof fn lemma_set_leaves_other_channels<F>(
    channels: Map<Seq<char>, Channel<F>>,
    level: LogLevel,
    name: Seq<char>,
    other: Seq<char>,
    asked: LogLevel,
)
    requires
        other != name,
    ensures
        after_set(channels, level, name).contains_key(other) == channels.contains_key(other),
        after_set(channels, level, name)[other] == channels[other],
        passes(after_set(channels, level, name), asked, other) == passes(channels, asked, other),
{
}

/// A listener attached under an identity that the channel does not hold yet
/// is called last, after the listeners that were there, for every message
/// sent under that channel's name that passes its threshold; a message that
/// does not pass reaches nobody.
pub proof fn lemma_listen_adds_recipient<F>(
    channels: Map<Seq<char>, Channel<F>>,
    name: Seq<char>,
    id: u64,
    cb: F,
    level: LogLevel,
)
    requires
        channels.contains_key(name),
        !channels[name].holds(id),
    ensures
        channels[name].accepts(level)
            ==> recipients(after_listen(channels, name, id, cb), level, name)
                == channels[name].listeners.push(Subscriber { id, cb }),
        !channels[name].accepts(level)
            ==> recipients(after_listen(channels, name, id, cb), level, name)
                == Seq::<Subscriber<F>>::empty(),
{
}

/// Attaching under an identity that the channel already holds changes
/// nothing: the registry is as it was, so every message reaches the same
/// listeners as before. Attaching twice is therefore the same as attaching
/// once, whatever function comes with the second attachment.
pub proof fn lemma_listen_again_changes_nothing<F>(
    channels: Map<Seq<char>, Channel<F>>,
    name: Seq<char>,
    id: u64,
    cb: F,
    again: F,
)
    requires
        channels.contains_key(name),
    ensures
        channels[name].holds(id) ==> after_listen(channels, name, id, cb) == channels,
        after_listen(after_listen(channels, name, id, cb), name, id, again) == after_listen(
            channels,
            name,
            id,
            cb,
        ),
{
    if channels[name].holds(id) {
        assert(after_listen(channels, name, id, cb) =~= channels);
    }
    let once = after_listen(channels, name, id, cb);
    if !channels[name].holds(id) {
        let last = channels[name].listeners.len() as int;
        assert(once[name].listeners[last].id == id);
    }
    assert(once[name].holds(id));
    assert(after_listen(once, name, id, again) =~= once);
}

/// Whether `i` is the one place among `heard` where the identity `id` stands.
pub open spec fn only_at<F>(heard: Seq<Subscriber<F>>, id: u64, i: int) -> bool {
    &&& 0 <= i < heard.len()
    &&& heard[i].id == id
    &&& forall|j: int| 0 <= j < heard.len() && (#[trigger] heard[j]).id == id ==> j == i
}

/// After a listener was attached under an identity, a message that passes
/// the channel's threshold reaches exactly one listener of that identity;
/// every listener that was attached before is still reached, in its old
/// place; and no threshold has changed, nor any other channel.
pub proof fn lemma_attached_listener_is_heard_once<F: Fn(LogLevel, Option<&str>, &str)>(
    channels: Map<Seq<char>, Channel<F>>,
    name: Seq<char>,
    id: u64,
    cb: F,
    level: LogLevel,
)
    requires
        well_formed(channels),
        channels.contains_key(name),
        channels[name].accepts(level),
    ensures
        exists|i: int|
            {
                &&& #[trigger] only_at(
                    recipients(after_listen(channels, name, id, cb), level, name),
                    id,
                    i,
                )
                &&& !channels[name].holds(id) ==> recipients(
                    after_listen(channels, name, id, cb),
                    level,
                    name,
                )[i].cb == cb
            },
        channels[name].listeners.is_prefix_of(
            recipients(after_listen(channels, name, id, cb), level, name),
        ),
        after_listen(channels, name, id, cb)[name].threshold == channels[name].threshold,
        forall|other: Seq<char>|
            other != name ==> {
                &&& after_listen(channels, name, id, cb).contains_key(other)
                    == channels.contains_key(other)
                &&& after_listen(channels, name, id, cb)[other] == channels[other]
            },
{
    lemma_with_listener_keeps_order(channels[name], id, cb);
    let heard = recipients(after_listen(channels, name, id, cb), level, name);
    assert(heard == channels[name].with_listener(id, cb).listeners);
    let i = choose|i: int| 0 <= i < heard.len() && (#[trigger] heard[i]).id == id;
    assert forall|j: int| 0 <= j < heard.len() && (#[trigger] heard[j]).id == id implies j
        == i by {
        if j < i {
            assert(heard[j].id != heard[i].id);
        } else if i < j {
            assert(heard[i].id != heard[j].id);
        }
    }
    if !channels[name].holds(id) {
        let last = channels[name].listeners.len() as int;
        assert(heard[last].id == id);
        assert(last == i);
    }
    assert(only_at(heard, id, i));
}

/// A message sent under a name that has no channel is handled by the default
/// channel: it is filtered by the default threshold and heard by the default
/// channel's listeners.
pub proof fn lemma_unknown_tag_falls_back<F>(
    channels: Map<Seq<char>, Channel<F>>,
    level: LogLevel,
    name: Seq<char>,
)
    requires
        !channels.contains_key(name),
    ensures
        recipients(channels, level, name) == recipients(channels, level, default_tag()),
        recipients(channels, level, name) == channels[default_tag()].heard_by(level),
        !passes(channels, level, name),
{
}

/// Once the listeners of a channel are detached, a message sent under its
/// name reaches nobody, whatever its severity and whatever threshold the
/// channel has or is given afterwards.
pub proof fn lemma_unlisten_silences<F>(
    channels: Map<Seq<char>, Channel<F>>,
    name: Seq<char>,
    level: LogLevel,
    threshold: LogLevel,
)
    requires
        channels.contains_key(name),
    ensures
        recipients(after_unlisten(channels, name), level, name) == Seq::<Subscriber<F>>::empty(),
        recipients(after_set(after_unlisten(channels, name), threshold, name), level, name)
            == Seq::<Subscriber<F>>::empty(),
        after_unlisten(channels, name)[name].threshold == channels[name].threshold,
{
}

/// Making a channel anew forgets what stood under its name: the threshold is
/// `Info` again and nobody listens.
pub proof fn lemma_add_resets_channel<F>(
    channels: Map<Seq<char>, Channel<F>>,
    name: Seq<char>,
    level: LogLevel,
)
    ensures
        after_add(channels, name)[name] == Channel::<F>::fresh(),
        passes(after_add(channels, name), level, name) == LogLevel::Info.admits(level),
        recipients(after_add(channels, name), level, name) == Seq::<Subscriber<F>>::empty(),
{
}

} // verus!
