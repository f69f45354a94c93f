//! Channel filter maps: per-channel decisions on whether a record is logged,
//! and the text its channel is displayed as.

use vstd::prelude::*;
use std::collections::BTreeMap;
use crate::loggers::{Level, LogObject};
use crate::text::{digits, push_decimal};

verus! {

broadcast use vstd::std_specs::btree::group_btree_axioms;

/// The text held by an optional string.
pub open spec fn text_of(o: Option<String>) -> Option<Seq<char>> {
    match o {
        Some(s) => Some(s@),
        None => None,
    }
}

/// Decides, for each record, whether it is logged and how its channel is
/// displayed.
pub trait ChannelFilterMap: Sized {
    /// `None` when the record is dropped; else the text its channel is
    /// displayed as.
    spec fn decide(&self, log_object: LogObject) -> Option<Seq<char>>;

    /// Returns `None` when the record should be dropped, or the text its
    /// channel is displayed as when it should be logged.
    fn filter_map(&self, log_object: &LogObject) -> (r: Option<String>)
        ensures
            text_of(r) == self.decide(*log_object),
    ;
}

/// Logs every channel, displayed by its ID.
#[derive(Clone, Copy, Debug, Default, Hash)]
pub struct InvisibleChannelFilterMap;

impl ChannelFilterMap for InvisibleChannelFilterMap {
    open spec fn decide(&self, log_object: LogObject) -> Option<Seq<char>> {
        Some(digits(log_object.channel_id as nat))
    }

    fn filter_map(&self, log_object: &LogObject) -> (r: Option<String>) {
        let mut s = String::new();
        push_decimal(&mut s, log_object.channel_id as u64);
        assert(s@ =~= digits(log_object.channel_id as nat));
        Some(s)
    }
}

/// Logs the channels that have a name in the table, displayed by that name;
/// the name of channel `i` is entry `i`.
#[derive(Clone, Copy, Debug, Hash)]
pub struct StaticChannelFilterMap(pub &'static [&'static str]);

impl ChannelFilterMap for StaticChannelFilterMap {
    open spec fn decide(&self, log_object: LogObject) -> Option<Seq<char>> {
        if log_object.channel_id < self.0@.len() {
            Some(self.0@[log_object.channel_id as int]@)
        } else {
            None
        }
    }

    fn filter_map(&self, log_object: &LogObject) -> (r: Option<String>) {
        if log_object.channel_id < self.0.len() {
            Some(self.0[log_object.channel_id].to_owned())
        } else {
            None
        }
    }
}

/// Logs the channels that have an entry in the table, each from its own
/// minimum severity on, displayed by the entry's name; the entry of channel
/// `i` is entry `i`.
#[derive(Clone, Copy, Debug, Hash)]
pub struct StaticSeverityChannelFilterMap(pub &'static [(&'static str, Level)]);

impl ChannelFilterMap for StaticSeverityChannelFilterMap {
    open spec fn decide(&self, log_object: LogObject) -> Option<Seq<char>> {
        if log_object.channel_id < self.0@.len() && log_object.severity.rank() >= self.0@[
            log_object.channel_id as int
        ].1.rank() {
            Some(self.0@[log_object.channel_id as int].0@)
        } else {
            None
        }
    }

    fn filter_map(&self, log_object: &LogObject) -> (r: Option<String>) {
        if log_object.channel_id < self.0.len() {
            let (name, min_severity) = self.0[log_object.channel_id];
            if log_object.severity < min_severity {
                None
            } else {
                Some(name.to_owned())
            }
        } else {
            None
        }
    }
}

/// A channel of [SimpleChannelFilterMap].
#[derive(Clone, Debug, PartialEq, Eq)]
pub struct SimpleChannel {
    /// Whether the channel is enabled; nothing is logged from a disabled
    /// channel.
    pub enabled: bool,
    /// The channel's minimum severity level; records below it are dropped.
    pub min_severity: Level,
    /// The name the channel is displayed as.
    pub name: String,
}

impl SimpleChannel {
    /// An enabled channel that logs from `DEBUG` on, under the given name.
    pub open spec fn named(name: String) -> SimpleChannel {
        SimpleChannel { enabled: true, min_severity: Level::DEBUG, name }
    }

    /// Constructs an enabled channel that logs from `DEBUG` on.
    pub fn new(name: String) -> (r: Self)
        ensures
            r == SimpleChannel::named(name),
    {
        SimpleChannel { enabled: true, min_severity: Level::DEBUG, name }
    }
}

impl Default for SimpleChannel {
    /// An enabled channel that logs from `DEBUG` on, with an empty name.
    fn default() -> (r: Self)
        ensures
            r.enabled,
            r.min_severity == Level::DEBUG,
            r.name@ == Seq::<char>::empty(),
    {
        SimpleChannel::new(String::new())
    }
}

/// Relies on `BTreeMap::get_mut`: a mutable borrow of the value under `k`, if
/// there is one; what is written through it becomes the value under `k`.
#[verifier::external_body]
fn entry_mut(m: &mut BTreeMap<usize, SimpleChannel>, k: usize) -> (r: Option<&mut SimpleChannel>)
    ensures
        match r {
            Some(c) => {
                &&& old(m)@.contains_key(k)
                &&& *c == old(m)@[k]
                &&& final(m)@ == old(m)@.insert(k, *final(c))
            },
            None => !old(m)@.contains_key(k) && final(m)@ == old(m)@,
        },
{
    m.get_mut(&k)
}

/// A registry of channels by ID, each enabled or disabled, with its own
/// minimum severity and name.
#[derive(Debug)]
pub struct SimpleChannelFilterMap {
    channels: BTreeMap<usize, SimpleChannel>,
}

impl View for SimpleChannelFilterMap {
    type V = Map<usize, SimpleChannel>;

    closed spec fn view(&self) -> Map<usize, SimpleChannel> {
        self.channels@
    }
}

impl Default for SimpleChannelFilterMap {
    /// An empty registry.
    fn default() -> (r: Self)
        ensures
            r@ == Map::<usize, SimpleChannel>::empty(),
    {
        SimpleChannelFilterMap::new()
    }
}

impl SimpleChannelFilterMap {
    /// Constructs an empty registry.
    pub fn new() -> (r: Self)
        ensures
            r@ == Map::<usize, SimpleChannel>::empty(),
    {
        SimpleChannelFilterMap { channels: BTreeMap::new() }
    }

    /// Returns the channel with the given ID, if it is registered.
    pub fn channel(&self, channel_id: usize) -> (r: Option<&SimpleChannel>)
        ensures
            match r {
                Some(c) => self@.contains_key(channel_id) && *c == self@[channel_id],
                None => !self@.contains_key(channel_id),
            },
    {
        self.channels.get(&channel_id)
    }

    /// Returns a mutable borrow of the channel with the given ID, if it is
    /// registered; what is written through it becomes that channel.
    pub fn channel_mut(&mut self, channel_id: usize) -> (r: Option<&mut SimpleChannel>)
        ensures
            match r {
                Some(c) => {
                    &&& old(self)@.contains_key(channel_id)
                    &&& *c == old(self)@[channel_id]
                    &&& final(self)@ == old(self)@.insert(channel_id, *final(c))
                },
                None => !old(self)@.contains_key(channel_id) && final(self)@ == old(self)@,
            },
    {
        entry_mut(&mut self.channels, channel_id)
    }

    /// Registers `channel` under the given ID, returning the channel it
    /// replaces, if any.
    pub fn insert_channel(&mut self, channel_id: usize, channel: SimpleChannel) -> (r: Option<
        SimpleChannel,
    >)
        ensures
            final(self)@ == old(self)@.insert(channel_id, channel),
            match r {
                Some(prev) => old(self)@.contains_key(channel_id) && prev == old(self)@[channel_id],
                None => !old(self)@.contains_key(channel_id),
            },
    {
        self.channels.insert(channel_id, channel)
    }

    /// Replaces a registered channel by `f` of it, or registers `channel`
    /// when the ID is new; returns a mutable borrow of the result.
    pub fn modify_or_insert_channel(
        &mut self,
        channel_id: usize,
        f: impl FnOnce(SimpleChannel) -> SimpleChannel,
        channel: SimpleChannel,
    ) -> (r: &mut SimpleChannel)
        requires
            old(self)@.contains_key(channel_id) ==> f.requires((old(self)@[channel_id],)),
        ensures
            old(self)@.contains_key(channel_id) ==> f.ensures((old(self)@[channel_id],), *r),
            !old(self)@.contains_key(channel_id) ==> *r == channel,
            final(self)@ == old(self)@.insert(channel_id, *final(r)),
    {
        match self.channels.remove(&channel_id) {
            Some(current) => {
                let next = f(current);
                self.channels.insert(channel_id, next);
            },
            None => {
                self.channels.insert(channel_id, channel);
            },
        }
        let ghost middle = self@;
        let r = entry_mut(&mut self.channels, channel_id).unwrap();
        assert(middle.insert(channel_id, *final(r)) =~= old(self)@.insert(channel_id, *final(r)));
        r
    }

    /// Replaces a registered channel by `f1` of it, or registers `f2()` when
    /// the ID is new; returns a mutable borrow of the result.
    pub fn modify_or_insert_channel_with(
        &mut self,
        channel_id: usize,
        f1: impl FnOnce(SimpleChannel) -> SimpleChannel,
        f2: impl FnOnce() -> SimpleChannel,
    ) -> (r: &mut SimpleChannel)
        requires
            old(self)@.contains_key(channel_id) ==> f1.requires((old(self)@[channel_id],)),
            !old(self)@.contains_key(channel_id) ==> f2.requires(()),
        ensures
            old(self)@.contains_key(channel_id) ==> f1.ensures((old(self)@[channel_id],), *r),
            !old(self)@.contains_key(channel_id) ==> f2.ensures((), *r),
            final(self)@ == old(self)@.insert(channel_id, *final(r)),
    {
        match self.channels.remove(&channel_id) {
            Some(current) => {
                let next = f1(current);
                self.channels.insert(channel_id, next);
            },
            None => {
                let fresh = f2();
                self.channels.insert(channel_id, fresh);
            },
        }
        let ghost middle = self@;
        let r = entry_mut(&mut self.channels, channel_id).unwrap();
        assert(middle.insert(channel_id, *final(r)) =~= old(self)@.insert(channel_id, *final(r)));
        r
    }

    /// Replaces a registered channel by `f1` of it, or registers `f2` of the
    /// ID when the ID is new; returns a mutable borrow of the result.
    pub fn modify_or_insert_channel_with_id(
        &mut self,
        channel_id: usize,
        f1: impl FnOnce(SimpleChannel) -> SimpleChannel,
        f2: impl FnOnce(&usize) -> SimpleChannel,
    ) -> (r: &mut SimpleChannel)
        requires
            old(self)@.contains_key(channel_id) ==> f1.requires((old(self)@[channel_id],)),
            !old(self)@.contains_key(channel_id) ==> f2.requires((&channel_id,)),
        ensures
            old(self)@.contains_key(channel_id) ==> f1.ensures((old(self)@[channel_id],), *r),
            !old(self)@.contains_key(channel_id) ==> f2.ensures((&channel_id,), *r),
            final(self)@ == old(self)@.insert(channel_id, *final(r)),
    {
        match self.channels.remove(&channel_id) {
            Some(current) => {
                let next = f1(current);
                self.channels.insert(channel_id, next);
            },
            None => {
                let fresh = f2(&channel_id);
                self.channels.insert(channel_id, fresh);
            },
        }
        let ghost middle = self@;
        let r = entry_mut(&mut self.channels, channel_id).unwrap();
        assert(middle.insert(channel_id, *final(r)) =~= old(self)@.insert(channel_id, *final(r)));
        r
    }

    /// Replaces a registered channel by `f` of it, or registers the default
    /// channel when the ID is new; returns a mutable borrow of the result.
    pub fn modify_or_default(
        &mut self,
        channel_id: usize,
        f: impl FnOnce(SimpleChannel) -> SimpleChannel,
    ) -> (r: &mut SimpleChannel)
        requires
            old(self)@.contains_key(channel_id) ==> f.requires((old(self)@[channel_id],)),
        ensures
            old(self)@.contains_key(channel_id) ==> f.ensures((old(self)@[channel_id],), *r),
            !old(self)@.contains_key(channel_id) ==> r.enabled && r.min_severity == Level::DEBUG
                && r.name@ == Seq::<char>::empty(),
            final(self)@ == old(self)@.insert(channel_id, *final(r)),
    {
        match self.channels.remove(&channel_id) {
            Some(current) => {
                let next = f(current);
                self.channels.insert(channel_id, next);
            },
            None => {
                let fresh = SimpleChannel::default();
                self.channels.insert(channel_id, fresh);
            },
        }
        let ghost middle = self@;
        let r = entry_mut(&mut self.channels, channel_id).unwrap();
        assert(middle.insert(channel_id, *final(r)) =~= old(self)@.insert(channel_id, *final(r)));
        r
    }

    /// Returns the name of the channel with the given ID, if it is
    /// registered.
    pub fn channel_name(&self, channel_id: usize) -> (r: Option<&String>)
        ensures
            match r {
                Some(name) => self@.contains_key(channel_id) && *name == self@[channel_id].name,
                None => !self@.contains_key(channel_id),
            },
    {
        match self.channels.get(&channel_id) {
            Some(channel) => Some(&channel.name),
            None => None,
        }
    }

    /// Renames a registered channel and returns its previous name; or
    /// registers a new enabled channel under the name, logging from `DEBUG`
    /// on, and returns no previous name. Also returns a mutable borrow of the
    /// channel.
    pub fn set_channel_name_or_insert_channel(&mut self, channel_id: usize, name: String) -> (r: (
        &mut SimpleChannel,
        Option<String>,
    ))
        ensures
            match r.1 {
                Some(prev) => {
                    &&& old(self)@.contains_key(channel_id)
                    &&& prev == old(self)@[channel_id].name
                    &&& *r.0 == (SimpleChannel { name, ..old(self)@[channel_id] })
                },
                None => !old(self)@.contains_key(channel_id) && *r.0 == SimpleChannel::named(name),
            },
            final(self)@ == old(self)@.insert(channel_id, *final(r.0)),
    {
        if self.channels.contains_key(&channel_id) {
            let channel = entry_mut(&mut self.channels, channel_id).unwrap();
            let mut previous = name;
            std::mem::swap(&mut channel.name, &mut previous);
            (channel, Some(previous))
        } else {
            self.channels.insert(channel_id, SimpleChannel::new(name));
            let ghost middle = self@;
            let channel = entry_mut(&mut self.channels, channel_id).unwrap();
            assert(middle.insert(channel_id, *final(channel)) =~= old(self)@.insert(
                channel_id,
                *final(channel),
            ));
            (channel, None)
        }
    }

    /// Renames a channel that must be registered.
    pub fn set_channel_name(&mut self, channel_id: usize, name: String)
        requires
            old(self)@.contains_key(channel_id),
        ensures
            final(self)@ == old(self)@.insert(
                channel_id,
                SimpleChannel { name, ..old(self)@[channel_id] },
            ),
    {
        let channel = entry_mut(&mut self.channels, channel_id).unwrap();
        channel.name = name;
    }

    /// Returns whether the channel with the given ID is enabled, if it is
    /// registered.
    pub fn channel_enabled(&self, channel_id: usize) -> (r: Option<bool>)
        ensures
            r == (if self@.contains_key(channel_id) {
                Some(self@[channel_id].enabled)
            } else {
                None
            }),
    {
        match self.channels.get(&channel_id) {
            Some(channel) => Some(channel.enabled),
            None => None,
        }
    }

    /// Enables or disables a registered channel and returns whether it was
    /// enabled; returns `None` and changes nothing when the ID is unknown.
    pub fn set_channel_enabled(&mut self, channel_id: usize, enabled: bool) -> (r: Option<bool>)
        ensures
            r == (if old(self)@.contains_key(channel_id) {
                Some(old(self)@[channel_id].enabled)
            } else {
                None
            }),
            final(self)@ == (if old(self)@.contains_key(channel_id) {
                old(self)@.insert(channel_id, SimpleChannel { enabled, ..old(self)@[channel_id] })
            } else {
                old(self)@
            }),
    {
        match entry_mut(&mut self.channels, channel_id) {
            Some(channel) => {
                let previous = channel.enabled;
                channel.enabled = enabled;
                Some(previous)
            },
            None => None,
        }
    }

    /// Returns the minimum severity of the channel with the given ID, if it
    /// is registered.
    pub fn channel_min_severity(&self, channel_id: usize) -> (r: Option<Level>)
        ensures
            r == (if self@.contains_key(channel_id) {
                Some(self@[channel_id].min_severity)
            } else {
                None
            }),
    {
        match self.channels.get(&channel_id) {
            Some(channel) => Some(channel.min_severity),
            None => None,
        }
    }

    /// Sets the minimum severity of a registered channel and returns the
    /// previous one; returns `None` and changes nothing when the ID is
    /// unknown.
    pub fn set_channel_min_severity(&mut self, channel_id: usize, min_severity: Level) -> (r:
        Option<Level>)
        ensures
            r == (if old(self)@.contains_key(channel_id) {
                Some(old(self)@[channel_id].min_severity)
            } else {
                None
            }),
            final(self)@ == (if old(self)@.contains_key(channel_id) {
                old(self)@.insert(
                    channel_id,
                    SimpleChannel { min_severity, ..old(self)@[channel_id] },
                )
            } else {
                old(self)@
            }),
    {
        match entry_mut(&mut self.channels, channel_id) {
            Some(channel) => {
                let previous = channel.min_severity;
                channel.min_severity = min_severity;
                Some(previous)
            },
            None => None,
        }
    }
}

impl ChannelFilterMap for SimpleChannelFilterMap {
    /// A record is logged when its channel is registered and enabled and the
    /// record is at or above the channel's minimum severity; the channel is
    /// displayed by its name.
    open spec fn decide(&self, log_object: LogObject) -> Option<Seq<char>> {
        if self@.contains_key(log_object.channel_id) && self@[log_object.channel_id].enabled
            && log_object.severity.rank() >= self@[log_object.channel_id].min_severity.rank() {
            Some(self@[log_object.channel_id].name@)
        } else {
            None
        }
    }

    fn filter_map(&self, log_object: &LogObject) -> (r: Option<String>) {
        match self.channels.get(&log_object.channel_id) {
            Some(channel) => {
                if !channel.enabled || log_object.severity < channel.min_severity {
                    None
                } else {
                    Some(channel.name.clone())
                }
            },
            None => None,
        }
    }
}

} // verus!
