use vstd::prelude::*;

verus! {

/// Static configuration: which category holds the custom voice channels,
/// which of them are left alone, and where sessions are announced.
pub struct AppConfig {
    /// Category whose voice channels are managed.
    pub vc_category: u64,
    /// Voice channels of that category that are never managed.
    pub vc_ignored_channels: Vec<u64>,
    /// Text channel where new sessions are announced and threads are opened.
    pub thread_channel: u64,
}

/// The kind of a guild channel, as far as the coordinator tells them apart.
#[derive(Clone, Copy, Debug, PartialEq, Eq, Structural)]
pub enum ChannelKind {
    Voice,
    Other,
}

/// What the coordinator reads of a guild channel.
#[derive(Clone, Copy, Debug, PartialEq, Eq, Structural)]
pub struct ChannelInfo {
    pub id: u64,
    pub kind: ChannelKind,
    /// The category the channel sits in, if any.
    pub parent_id: Option<u64>,
}

/// A custom voice channel: a voice channel in the configured category that is
/// not on the ignore list.
pub open spec fn is_custom_vc_spec(config: AppConfig, channel: ChannelInfo) -> bool {
    &&& channel.kind == ChannelKind::Voice
    &&& channel.parent_id == Some(config.vc_category)
    &&& !config.vc_ignored_channels@.contains(channel.id)
}

impl AppConfig {
    /// Whether `id` is on the ignore list.
    pub fn is_ignored(&self, id: u64) -> (r: bool)
        ensures
            r == self.vc_ignored_channels@.contains(id),
    {
        let mut i: usize = 0;
        while i < self.vc_ignored_channels.len()
            invariant
                i <= self.vc_ignored_channels@.len(),
                forall|j: int| 0 <= j < i ==> self.vc_ignored_channels@[j] != id,
            decreases self.vc_ignored_channels@.len() - i,
        {
            if self.vc_ignored_channels[i] == id {
                return true;
            }
            i = i + 1;
        }
        false
    }

    /// Whether `channel` is a custom voice channel, subject to the session
    /// lifecycle.
    pub fn is_custom_vc(&self, channel: &ChannelInfo) -> (r: bool)
        ensures
            r == is_custom_vc_spec(*self, *channel),
    {
        if channel.kind != ChannelKind::Voice {
            return false;
        }
        let parent = match channel.parent_id {
            Some(id) => id,
            None => return false,
        };
        if parent != self.vc_category {
            return false;
        }
        !self.is_ignored(channel.id)
    }
}

/// The name used for a voice channel whose name could not be fetched.
pub const UNKNOWN_VC_NAME: &'static str = "不明なVC";

/// The name a session's thread takes: the voice channel's name as fetched,
/// or the fallback name where fetching it failed.
pub fn display_name(fetched: Option<String>) -> (r: String)
    ensures
        r@ == match fetched {
            Some(name) => name@,
            None => UNKNOWN_VC_NAME@,
        },
{
    match fetched {
        Some(name) => name,
        None => UNKNOWN_VC_NAME.to_owned(),
    }
}

} // verus!
