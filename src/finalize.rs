use vstd::prelude::*;

verus! {

/// How many of the thread's most recent messages the retirement decision
/// looks at.
pub const RECENT_WINDOW: u8 = 5;

/// At most this many messages, all from bots, mean that only the bot's own
/// opening posts are in the thread.
pub const BOT_OPENING_POSTS: usize = 2;

/// What retiring a session's thread asks the caller to do.
#[derive(Clone, Copy, Debug, PartialEq, Eq, Structural)]
pub enum Finalize {
    /// No agenda message is recorded for the thread (it was never opened by
    /// this coordinator, or was retired already): nothing to clean up, and the
    /// thread is archived.
    Unregistered,
    /// Nobody but bots wrote: delete the agenda message, then delete the
    /// thread when `delete_thread` holds and archive it otherwise.
    Discard { agenda: u64, delete_thread: bool },
    /// Someone took part: edit the agenda message into a closing summary and
    /// archive the thread.
    Summarize { agenda: u64 },
}

/// Whether some message of the window was written by a person; each entry of
/// `window` tells whether that message's author is a bot.
pub open spec fn has_human(window: Seq<bool>) -> bool {
    exists|i: int| 0 <= i < window.len() && !window[i]
}

/// The retirement decision for a thread whose agenda message is `agenda`,
/// given the bot flags of its most recent messages.
pub open spec fn finalize_spec(agenda: Option<u64>, window: Seq<bool>) -> Finalize {
    match agenda {
        None => Finalize::Unregistered,
        Some(a) => if has_human(window) {
            Finalize::Summarize { agenda: a }
        } else {
            Finalize::Discard { agenda: a, delete_thread: window.len() <= BOT_OPENING_POSTS }
        },
    }
}

impl Finalize {
    pub open spec fn deletes_thread(self) -> bool {
        match self {
            Finalize::Discard { delete_thread, .. } => delete_thread,
            _ => false,
        }
    }

    /// Whether the thread is to be deleted rather than archived.
    pub fn should_delete_thread(&self) -> (r: bool)
        ensures
            r == self.deletes_thread(),
    {
        match self {
            Finalize::Discard { delete_thread, .. } => *delete_thread,
            _ => false,
        }
    }
}

/// Whether any message of the window was written by a person.
pub fn any_human(window: &Vec<bool>) -> (r: bool)
    ensures
        r == has_human(window@),
{
    let mut i: usize = 0;
    while i < window.len()
        invariant
            i <= window@.len(),
            forall|j: int| 0 <= j < i ==> window@[j],
        decreases window@.len() - i,
    {
        if !window[i] {
            return true;
        }
        i = i + 1;
    }
    false
}

/// Decides how a session is retired from its agenda message, if one is
/// recorded, and the bot flags of the thread's most recent messages.
pub fn decide_finalize(agenda: Option<u64>, window: &Vec<bool>) -> (r: Finalize)
    ensures
        r == finalize_spec(agenda, window@),
{
    match agenda {
        None => Finalize::Unregistered,
        Some(a) => if any_human(window) {
            Finalize::Summarize { agenda: a }
        } else {
            Finalize::Discard { agenda: a, delete_thread: window.len() <= BOT_OPENING_POSTS }
        },
    }
}

/// A window with no message from a person and at most the bot's opening
/// posts deletes the thread; with more bot messages the thread is archived.
pub proof fn lemma_quiet_session(agenda: u64, window: Seq<bool>)
    requires
        !has_human(window),
    ensures
        finalize_spec(Some(agenda), window).deletes_thread() == (window.len() <= 2),
        window.len() == 3 ==> finalize_spec(Some(agenda), window) == (Finalize::Discard {
            agenda,
            delete_thread: false,
        }),
{
}

/// A window with at least one message from a person never deletes the
/// thread, whatever its length.
pub proof fn lemma_human_session(agenda: Option<u64>, window: Seq<bool>)
    requires
        has_human(window),
    ensures
        !finalize_spec(agenda, window).deletes_thread(),
{
}

/// Holds of every user but `bot`.
pub open spec fn is_not(bot: u64) -> spec_fn(u64) -> bool {
    |m: u64| m != bot
}

/// The members of `members` that are not `bot`, in order.
pub open spec fn without_bot(members: Seq<u64>, bot: u64) -> Seq<u64> {
    members.filter(is_not(bot))
}

/// The participants listed in a closing summary: the thread's members but
/// the bot itself, in the order given.
pub fn participants(members: &Vec<u64>, bot: u64) -> (r: Vec<u64>)
    ensures
        r@ == without_bot(members@, bot),
{
    let mut out: Vec<u64> = Vec::new();
    let mut i: usize = 0;
    while i < members.len()
        invariant
            i <= members@.len(),
            out@ == without_bot(members@.subrange(0, i as int), bot),
        decreases members@.len() - i,
    {
        let m = members[i];
        proof {
            let pre = members@.subrange(0, i as int);
            assert(members@.subrange(0, i + 1) =~= pre.push(m));
            pre.lemma_filter_push(m, is_not(bot));
        }
        if m != bot {
            out.push(m);
        }
        i = i + 1;
    }
    assert(members@.subrange(0, members@.len() as int) =~= members@);
    out
}

} // verus!
