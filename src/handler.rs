use vstd::prelude::*;

use crate::bindings::{BindingsView, ChannelMap};
use crate::channel::{is_custom_vc_spec, AppConfig, ChannelInfo};
use crate::finalize::{decide_finalize, finalize_spec, participants, without_bot, Finalize};

verus! {

/// What a join in a voice channel asks the caller to do.
#[derive(Clone, Copy, Debug, PartialEq, Eq, Structural)]
pub enum JoinPlan {
    /// The channel is not a custom voice channel.
    Ignore,
    /// The channel already has thread `thread`: post a join notice there if
    /// the member is not among the thread's members yet.
    JoinNotice { thread: u64 },
    /// The channel has no thread yet: announce the session in
    /// `announcement_channel`, open a thread from the announcement, and record
    /// it with `register_thread`.
    NewSession { announcement_channel: u64 },
}

/// The plan for a join in `channel`, under `config`, with bindings `b`.
pub open spec fn join_plan_spec(config: AppConfig, b: BindingsView, channel: ChannelInfo) -> JoinPlan {
    if !is_custom_vc_spec(config, channel) {
        JoinPlan::Ignore
    } else if b.vc_to_thread.contains_key(channel.id) {
        JoinPlan::JoinNotice { thread: b.vc_to_thread[channel.id] }
    } else {
        JoinPlan::NewSession { announcement_channel: config.thread_channel }
    }
}

/// Whether `register_thread` records a new session for `channel`.
pub open spec fn may_register(config: AppConfig, b: BindingsView, channel: ChannelInfo, thread: u64) -> bool {
    is_custom_vc_spec(config, channel) && b.is_free(channel.id, thread)
}

/// The bindings after `register_thread`.
pub open spec fn register_spec(
    config: AppConfig,
    b: BindingsView,
    channel: ChannelInfo,
    thread: u64,
    agenda: u64,
) -> BindingsView {
    if may_register(config, b, channel, thread) {
        b.bind(channel.id, thread, agenda)
    } else {
        b
    }
}

/// The thread to rename, or to retire, after an event on `channel`.
pub open spec fn bound_thread_spec(config: AppConfig, b: BindingsView, channel: ChannelInfo) -> Option<u64> {
    if is_custom_vc_spec(config, channel) && b.vc_to_thread.contains_key(channel.id) {
        Some(b.vc_to_thread[channel.id])
    } else {
        None
    }
}

/// Whether a member who joined needs a join notice in the thread: only when
/// the thread's members do not include them yet.
pub fn join_notice_needed(thread_members: &Vec<u64>, user: u64) -> (r: bool)
    ensures
        r == !thread_members@.contains(user),
{
    let mut i: usize = 0;
    while i < thread_members.len()
        invariant
            i <= thread_members@.len(),
            forall|j: int| 0 <= j < i ==> thread_members@[j] != user,
        decreases thread_members@.len() - i,
    {
        if thread_members[i] == user {
            return false;
        }
        i = i + 1;
    }
    true
}

/// The lifecycle coordinator: the configuration, the bot's own user once it
/// is known, and the bindings of voice channels to threads.
pub struct Handler {
    bot_user_id: Option<u64>,
    app_config: AppConfig,
    channels: ChannelMap,
}

impl Handler {
    pub closed spec fn bot(&self) -> Option<u64> {
        self.bot_user_id
    }

    pub closed spec fn config(&self) -> AppConfig {
        self.app_config
    }

    pub closed spec fn bindings(&self) -> BindingsView {
        self.channels@
    }

    pub open spec fn wf(&self) -> bool {
        self.bindings().wf()
    }

    /// A coordinator with no bindings, before the bot's own user is known.
    pub fn new(app_config: AppConfig) -> (r: Handler)
        ensures
            r.wf(),
            r.config() == app_config,
            r.bot() is None,
            r.bindings().vc_to_thread == Map::<u64, u64>::empty(),
            r.bindings().thread_to_vc == Map::<u64, u64>::empty(),
            r.bindings().thread_to_agenda == Map::<u64, u64>::empty(),
    {
        Handler { bot_user_id: None, app_config, channels: ChannelMap::new() }
    }

    /// The bot is ready: records its own user.
    pub fn ready(&mut self, bot_user_id: u64)
        ensures
            final(self).bot() == Some(bot_user_id),
            final(self).config() == old(self).config(),
            final(self).bindings() == old(self).bindings(),
    {
        self.bot_user_id = Some(bot_user_id);
    }

    /// The bot's own user, once it is known.
    pub fn bot_user_id(&self) -> (r: Option<u64>)
        ensures
            r == self.bot(),
    {
        self.bot_user_id
    }

    /// The configured channel where sessions are announced.
    pub fn thread_channel(&self) -> (r: u64)
        ensures
            r == self.config().thread_channel,
    {
        self.app_config.thread_channel
    }

    /// Whether `channel` is a custom voice channel.
    pub fn is_custom_vc(&self, channel: &ChannelInfo) -> (r: bool)
        ensures
            r == is_custom_vc_spec(self.config(), *channel),
    {
        self.app_config.is_custom_vc(channel)
    }

    /// A member joined `channel`: says whether a session is to be opened, a
    /// join notice considered, or nothing done.
    pub fn voice_state_update(&self, channel: &ChannelInfo) -> (r: JoinPlan)
        ensures
            r == join_plan_spec(self.config(), self.bindings(), *channel),
    {
        if !self.is_custom_vc(channel) {
            return JoinPlan::Ignore;
        }
        self.create_or_mention_thread(channel.id)
    }

    /// The plan for a join in custom voice channel `vc`.
    pub fn create_or_mention_thread(&self, vc: u64) -> (r: JoinPlan)
        ensures
            r == (if self.bindings().vc_to_thread.contains_key(vc) {
                JoinPlan::JoinNotice { thread: self.bindings().vc_to_thread[vc] }
            } else {
                JoinPlan::NewSession { announcement_channel: self.config().thread_channel }
            }),
    {
        match self.channels.thread_of(vc) {
            Some(thread) => JoinPlan::JoinNotice { thread },
            None => JoinPlan::NewSession { announcement_channel: self.app_config.thread_channel },
        }
    }

    /// Records the session of `channel`: its thread and the agenda message the
    /// thread was opened from. Nothing is recorded, and `false` returned, where
    /// `channel` is not a custom voice channel or either side is bound already.
    pub fn register_thread(&mut self, channel: &ChannelInfo, thread: u64, agenda: u64) -> (r: bool)
        requires
            old(self).wf(),
        ensures
            r == may_register(old(self).config(), old(self).bindings(), *channel, thread),
            final(self).bindings() == register_spec(
                old(self).config(),
                old(self).bindings(),
                *channel,
                thread,
                agenda,
            ),
            final(self).config() == old(self).config(),
            final(self).bot() == old(self).bot(),
            final(self).wf(),
    {
        if !self.is_custom_vc(channel) {
            return false;
        }
        self.channels.bind(channel.id, thread, agenda)
    }

    /// `channel` was updated: the thread whose name is to follow the channel's.
    pub fn channel_update(&self, channel: &ChannelInfo) -> (r: Option<u64>)
        ensures
            r == bound_thread_spec(self.config(), self.bindings(), *channel),
    {
        if !self.is_custom_vc(channel) {
            return None;
        }
        self.rename_thread(channel.id)
    }

    /// The thread bound to voice channel `vc`, to be renamed after it.
    pub fn rename_thread(&self, vc: u64) -> (r: Option<u64>)
        ensures
            r == (if self.bindings().vc_to_thread.contains_key(vc) {
                Some(self.bindings().vc_to_thread[vc])
            } else {
                None
            }),
    {
        self.channels.thread_of(vc)
    }

    /// The voice channel bound to thread `thread`.
    pub fn get_vc(&self, thread: u64) -> (r: Option<u64>)
        ensures
            r == (if self.bindings().thread_to_vc.contains_key(thread) {
                Some(self.bindings().thread_to_vc[thread])
            } else {
                None
            }),
    {
        self.channels.vc_of(thread)
    }

    /// `channel` was deleted: forgets its session, both directions of the
    /// pair and the agenda message, and returns the thread to retire with its
    /// agenda message.
    pub fn channel_delete(&mut self, channel: &ChannelInfo) -> (r: Option<(u64, u64)>)
        requires
            old(self).wf(),
        ensures
            match bound_thread_spec(old(self).config(), old(self).bindings(), *channel) {
                Some(t) => {
                    &&& r == Some((t, old(self).bindings().thread_to_agenda[t]))
                    &&& final(self).bindings() == old(self).bindings().unbind(channel.id)
                },
                None => {
                    &&& r is None
                    &&& final(self).bindings() == old(self).bindings()
                },
            },
            final(self).config() == old(self).config(),
            final(self).bot() == old(self).bot(),
            final(self).wf(),
    {
        if !self.is_custom_vc(channel) {
            return None;
        }
        self.channels.unbind(channel.id)
    }

    /// Retires the session of `thread`: forgets everything recorded of it,
    /// its pair if it is still bound and its agenda message, and decides from
    /// `window`, the bot flags of the thread's most recent messages, what
    /// becomes of it.
    pub fn finalize_agenda_message(&mut self, thread: u64, window: &Vec<bool>) -> (r: Finalize)
        requires
            old(self).wf(),
        ensures
            ({
                let b = old(self).bindings();
                let agenda = if b.thread_to_agenda.contains_key(thread) {
                    Some(b.thread_to_agenda[thread])
                } else {
                    None
                };
                &&& r == finalize_spec(agenda, window@)
                &&& final(self).bindings() == b.release(thread)
            }),
            final(self).config() == old(self).config(),
            final(self).bot() == old(self).bot(),
            final(self).wf(),
    {
        let agenda = self.channels.release(thread);
        decide_finalize(agenda, window)
    }

    /// The participants named in a closing summary: the thread's members but
    /// the bot; `None` while the bot's own user is not known.
    pub fn summary_participants(&self, members: &Vec<u64>) -> (r: Option<Vec<u64>>)
        ensures
            match self.bot() {
                None => r is None,
                Some(bot) => r is Some && r->0@ == without_bot(members@, bot),
            },
    {
        match self.bot_user_id {
            Some(bot) => Some(participants(members, bot)),
            None => None,
        }
    }
}

/// A channel outside the managed category, or on the ignore list, is never
/// given a session: a join there plans nothing and registering it records
/// nothing.
pub proof fn lemma_unmanaged_channel(
    config: AppConfig,
    b: BindingsView,
    channel: ChannelInfo,
    thread: u64,
    agenda: u64,
)
    requires
        !is_custom_vc_spec(config, channel),
    ensures
        join_plan_spec(config, b, channel) == JoinPlan::Ignore,
        register_spec(config, b, channel, thread, agenda) == b,
        bound_thread_spec(config, b, channel) is None,
{
}

/// Opening a session is idempotent per voice channel: once `channel` has
/// thread `thread`, another join plans only a join notice in that thread, and
/// registering any thread for it again changes nothing.
pub proof fn lemma_join_idempotent(
    config: AppConfig,
    b: BindingsView,
    channel: ChannelInfo,
    thread: u64,
    agenda: u64,
    other_thread: u64,
    other_agenda: u64,
)
    requires
        b.wf(),
        may_register(config, b, channel, thread),
    ensures
        ({
            let after = register_spec(config, b, channel, thread, agenda);
            &&& join_plan_spec(config, after, channel) == (JoinPlan::JoinNotice { thread })
            &&& register_spec(config, after, channel, other_thread, other_agenda) == after
        }),
{
}

/// Every recorded binding reads the same both ways: the thread of a voice
/// channel maps back to that voice channel.
pub proof fn lemma_binding_round_trip(h: Handler, vc: u64)
    requires
        h.wf(),
        h.bindings().vc_to_thread.contains_key(vc),
    ensures
        h.bindings().thread_to_vc.contains_key(h.bindings().vc_to_thread[vc]),
        h.bindings().thread_to_vc[h.bindings().vc_to_thread[vc]] == vc,
{
}

/// A session whose join plans a new thread is recorded exactly: registering
/// a thread that none of the maps knows adds the pair both ways and the
/// thread's agenda message, and changes nothing else.
pub proof fn lemma_new_session_recorded(
    config: AppConfig,
    b: BindingsView,
    channel: ChannelInfo,
    thread: u64,
    agenda: u64,
)
    requires
        b.wf(),
        join_plan_spec(config, b, channel) is NewSession,
        !b.thread_to_vc.contains_key(thread),
        !b.thread_to_agenda.contains_key(thread),
    ensures
        may_register(config, b, channel, thread),
        register_spec(config, b, channel, thread, agenda).vc_to_thread == b.vc_to_thread.insert(
            channel.id,
            thread,
        ),
        register_spec(config, b, channel, thread, agenda).thread_to_vc == b.thread_to_vc.insert(
            thread,
            channel.id,
        ),
        register_spec(config, b, channel, thread, agenda).thread_to_agenda
            == b.thread_to_agenda.insert(thread, agenda),
{
}

/// Deleting a bound voice channel forgets its whole session: neither
/// direction of the pair nor the thread's agenda message stays recorded, and
/// every other entry is kept.
pub proof fn lemma_deleted_session_forgotten(b: BindingsView, vc: u64)
    requires
        b.wf(),
        b.vc_to_thread.contains_key(vc),
    ensures
        ({
            let t = b.vc_to_thread[vc];
            let n = b.unbind(vc);
            &&& !n.vc_to_thread.contains_key(vc)
            &&& !n.thread_to_vc.contains_key(t)
            &&& !n.thread_to_agenda.contains_key(t)
            &&& forall|v: u64| v != vc ==> #[trigger] n.vc_to_thread.get(v) == b.vc_to_thread.get(v)
            &&& forall|u: u64| u != t ==> #[trigger] n.thread_to_vc.get(u) == b.thread_to_vc.get(u)
            &&& forall|u: u64|
                u != t ==> #[trigger] n.thread_to_agenda.get(u) == b.thread_to_agenda.get(u)
            &&& n.wf()
        }),
{
    crate::bindings::lemma_unbind_wf(b, vc);
}

} // verus!
