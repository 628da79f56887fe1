//! Decisions about the voice channel: whether a command may act, how the
//! play command reaches the user's channel, when the bot leaves, and how the
//! loop command flips looping.

use vstd::prelude::*;
use crate::messages::{
    BOT_NOT_IN_VOCIE, USER_NOT_IN_VOCIE, ALREADY_PLAYING, EMPTY_QUEUE, LOOP_DISABLED, LOOP_ENABLED,
};
use crate::text::{decimal, push_decimal, push_str, str_starts_with};
use crate::seek::{all_digits, digits_value, lemma_decimal_digits};

verus! {

/// Why the check before a command stops it.
#[derive(Debug, Clone, Copy, PartialEq, Eq, Structural)]
pub enum CheckFailure {
    /// The bot has no call in this guild.
    BotNotInVoice,
    /// The user who sent the command is in no voice channel.
    UserNotInVoice,
    /// The bot is in another voice channel than the user.
    AlreadyPlaying,
    /// Nothing is queued.
    EmptyQueue,
}

impl CheckFailure {
    /// The error text sent for this failure.
    pub fn message(&self) -> (r: &'static str)
        ensures
            *self == CheckFailure::BotNotInVoice ==> r@ == BOT_NOT_IN_VOCIE@,
            *self == CheckFailure::UserNotInVoice ==> r@ == USER_NOT_IN_VOCIE@,
            *self == CheckFailure::AlreadyPlaying ==> r@ == ALREADY_PLAYING@,
            *self == CheckFailure::EmptyQueue ==> r@ == EMPTY_QUEUE@,
    {
        match self {
            CheckFailure::BotNotInVoice => BOT_NOT_IN_VOCIE,
            CheckFailure::UserNotInVoice => USER_NOT_IN_VOCIE,
            CheckFailure::AlreadyPlaying => ALREADY_PLAYING,
            CheckFailure::EmptyQueue => EMPTY_QUEUE,
        }
    }
}

/// The outcome of the check. `bot_call` is the bot's call in the guild, if
/// any, with the channel it is connected to; `user_channel` the voice
/// channel of the user; `queue_empty` whether nothing is queued.
pub open spec fn check_result(
    bot_call: Option<Option<u64>>,
    user_channel: Option<u64>,
    queue_empty: bool,
) -> Result<(), CheckFailure> {
    match bot_call {
        None => Err(CheckFailure::BotNotInVoice),
        Some(bot_channel) => match user_channel {
            None => Err(CheckFailure::UserNotInVoice),
            Some(user) => if bot_channel != Some(user) {
                Err(CheckFailure::AlreadyPlaying)
            } else if queue_empty {
                Err(CheckFailure::EmptyQueue)
            } else {
                Ok(())
            },
        },
    }
}

/// The check that runs before the commands that act on the queue. The
/// channel of a call is read only when the user is in voice, and a call the
/// bot holds then is connected (reading an unconnected one panics).
pub fn check(bot_call: Option<Option<u64>>, user_channel: Option<u64>, queue_empty: bool) -> (r:
    Result<(), CheckFailure>)
    requires
        bot_call is Some && user_channel is Some ==> bot_call->Some_0 is Some,
    ensures
        r == check_result(bot_call, user_channel, queue_empty),
{
    let bot_channel = match bot_call {
        Some(c) => c,
        None => return Err(CheckFailure::BotNotInVoice),
    };
    let user = match user_channel {
        Some(u) => u,
        None => return Err(CheckFailure::UserNotInVoice),
    };
    let current = match bot_channel {
        Some(c) => c,
        None => return Err(CheckFailure::AlreadyPlaying),
    };
    if current != user {
        return Err(CheckFailure::AlreadyPlaying);
    }
    if queue_empty {
        return Err(CheckFailure::EmptyQueue);
    }
    Ok(())
}

/// A command that passes the check acts while the bot sits in the user's
/// voice channel with a track queued, and only then.
pub proof fn law_check_passes_exactly_in_users_channel(
    bot_call: Option<Option<u64>>,
    user_channel: Option<u64>,
    queue_empty: bool,
)
    ensures
        check_result(bot_call, user_channel, queue_empty) is Ok <==> ({
            &&& user_channel is Some
            &&& bot_call == Some(Some(user_channel->Some_0))
            &&& !queue_empty
        }),
{
}

/// How the play command reaches the user's voice channel.
#[derive(Debug, Clone, Copy, PartialEq, Eq, Structural)]
pub enum JoinPlan {
    /// The user is in no voice channel: reply and stop.
    NotInVoice,
    /// The bot already sits in the user's channel: queue on its call.
    UseCall(u64),
    /// The bot sits in another channel: stop without a reply.
    Busy,
    /// The bot has no call in the guild: join the user's channel.
    Join(u64),
}

/// The plan of the play command for a user in `user_channel`, where the
/// bot's call, if any, is connected to `bot_call`.
pub open spec fn join_plan(user_channel: Option<u64>, bot_call: Option<Option<u64>>) -> JoinPlan {
    match user_channel {
        None => JoinPlan::NotInVoice,
        Some(user) => match bot_call {
            None => JoinPlan::Join(user),
            Some(bot_channel) => if bot_channel == Some(user) {
                JoinPlan::UseCall(user)
            } else {
                JoinPlan::Busy
            },
        },
    }
}

/// Decides how the play command reaches the user's voice channel. A call
/// the bot holds is connected (reading an unconnected one panics).
pub fn plan_join(user_channel: Option<u64>, bot_call: Option<Option<u64>>) -> (r: JoinPlan)
    requires
        user_channel is Some && bot_call is Some ==> bot_call->Some_0 is Some,
    ensures
        r == join_plan(user_channel, bot_call),
{
    let user = match user_channel {
        Some(u) => u,
        None => return JoinPlan::NotInVoice,
    };
    match bot_call {
        None => JoinPlan::Join(user),
        Some(bot_channel) => match bot_channel {
            Some(c) => if c == user {
                JoinPlan::UseCall(user)
            } else {
                JoinPlan::Busy
            },
            None => JoinPlan::Busy,
        },
    }
}

/// The play command only ever plays into the voice channel of the user
/// who asked: it joins or uses that channel, or does nothing.
pub proof fn law_play_only_in_users_channel(user_channel: Option<u64>, bot_call: Option<Option<u64>>)
    ensures
        join_plan(user_channel, bot_call) matches JoinPlan::Join(c) ==> user_channel == Some(c)
            && bot_call is None,
        join_plan(user_channel, bot_call) matches JoinPlan::UseCall(c) ==> user_channel == Some(c)
            && bot_call == Some(Some(c)),
{
}

/// A query that starts with `http` is a link; any other is a search.
pub open spec fn is_link(query: Seq<char>) -> bool {
    "http"@.len() <= query.len() && query.take("http"@.len() as int) == "http"@
}

/// Whether the play command loads `query` as a link (else it searches).
pub fn is_url_query(query: &str) -> (r: bool)
    ensures
        r == is_link(query@),
{
    str_starts_with(query, "http")
}

/// The index of the track the play command announces in a queue of
/// `queue_len` tracks: the last one when there are several, else the first.
pub fn announced_index(queue_len: usize) -> (r: usize)
    requires
        queue_len >= 1,
    ensures
        r == (if queue_len > 1 { queue_len - 1 } else { 0 }),
{
    if queue_len > 1 {
        queue_len - 1
    } else {
        0
    }
}

/// The text announcing a queued track, with a mention of the user.
pub open spec fn queued_text(title: Seq<char>, url: Seq<char>, user_id: nat) -> Seq<char> {
    "Queued [**"@ + title + "**]("@ + url + ") [<@"@ + decimal(user_id) + ">]"@
}

/// Announces a queued track: `Queued [**title**](url) [<@user>]`.
pub fn queued_description(title: &str, url: &str, user_id: u64) -> (r: String)
    ensures
        r@ == queued_text(title@, url@, user_id as nat),
{
    let mut r = String::new();
    push_str(&mut r, "Queued [**");
    push_str(&mut r, title);
    push_str(&mut r, "**](");
    push_str(&mut r, url);
    push_str(&mut r, ") [<@");
    push_decimal(&mut r, user_id);
    push_str(&mut r, ">]");
    r
}

/// What the play command does next, once it has a call to the user's
/// channel in hand.
#[derive(Debug, Clone, Copy, PartialEq, Eq, Structural)]
pub enum PlayAction {
    /// Joining the channel failed: reply that the bot could not join.
    ReplyCouldNotJoin,
    /// Joined: deafen the bot and load the query, as a link or as a search.
    Load { link: bool },
    /// The source did not load: stop without a reply.
    Stop,
    /// The source loaded and is queued: announce the queued track.
    Announce,
}

/// The play command's next action for `query`, where `joined` says whether
/// the bot holds a call to the user's channel, and `loaded` whether the
/// source loaded (nothing while it has not been tried).
pub open spec fn play_action(query: Seq<char>, joined: bool, loaded: Option<bool>) -> PlayAction {
    if !joined {
        PlayAction::ReplyCouldNotJoin
    } else {
        match loaded {
            None => PlayAction::Load { link: is_link(query) },
            Some(false) => PlayAction::Stop,
            Some(true) => PlayAction::Announce,
        }
    }
}

/// One step of the play command after the join: from the join's and the
/// load's outcomes to what it does next.
pub fn play_step(query: &str, joined: bool, loaded: Option<bool>) -> (r: PlayAction)
    ensures
        r == play_action(query@, joined, loaded),
{
    if !joined {
        return PlayAction::ReplyCouldNotJoin;
    }
    match loaded {
        None => PlayAction::Load { link: is_url_query(query) },
        Some(false) => PlayAction::Stop,
        Some(true) => PlayAction::Announce,
    }
}

/// A track is announced only after the bot joined and the source loaded,
/// and a failed join is always answered.
pub proof fn law_announce_only_after_success(query: Seq<char>, joined: bool, loaded: Option<bool>)
    ensures
        play_action(query, joined, loaded) == PlayAction::Announce <==> joined && loaded == Some(
            true,
        ),
        !joined ==> play_action(query, joined, loaded) == PlayAction::ReplyCouldNotJoin,
{
}

/// Whether the bot is alone in its voice channel: the channel is a guild
/// channel with exactly one member. A channel outside a guild counts no
/// member.
pub fn bot_alone(channel_members: Option<usize>) -> (r: bool)
    ensures
        r == (channel_members == Some(1usize)),
{
    let members: usize = match channel_members {
        Some(m) => m,
        None => 0,
    };
    members == 1
}

/// Whether the bot leaves the voice channel on its periodic look: it is
/// alone in the channel and still holds a call.
pub fn should_leave(channel_members: Option<usize>, has_call: bool) -> (r: bool)
    ensures
        r == (channel_members == Some(1usize) && has_call),
{
    bot_alone(channel_members) && has_call
}

/// What the loop command does to the track that plays.
#[derive(Debug, Clone, Copy, PartialEq, Eq, Structural)]
pub enum LoopChange {
    Disable,
    Enable,
}

impl LoopChange {
    /// The reply after the change.
    pub fn message(&self) -> (r: &'static str)
        ensures
            *self == LoopChange::Disable ==> r@ == LOOP_DISABLED@,
            *self == LoopChange::Enable ==> r@ == LOOP_ENABLED@,
    {
        match self {
            LoopChange::Disable => LOOP_DISABLED,
            LoopChange::Enable => LOOP_ENABLED,
        }
    }
}

/// The loop command switches looping off on a track that loops forever,
/// and on otherwise.
pub fn loop_change(loops_forever: bool) -> (r: LoopChange)
    ensures
        loops_forever ==> r == LoopChange::Disable,
        !loops_forever ==> r == LoopChange::Enable,
{
    if loops_forever {
        LoopChange::Disable
    } else {
        LoopChange::Enable
    }
}


/// When the user is in a voice channel and the bot holds no call in the
/// guild, the play command joins the user's channel, whatever its id.
pub proof fn law_join_users_channel_without_call(channel: u64)
    ensures
        join_plan(Some(channel), None) == JoinPlan::Join(channel),
{
}

/// The play command's plan in every situation: a user outside voice gets
/// the not-in-voice reply; a bot already in the user's channel queues there;
/// a bot in another channel does nothing.
pub proof fn law_join_plan_cases(user: u64, bot: u64, bot_call: Option<Option<u64>>)
    ensures
        join_plan(None, bot_call) == JoinPlan::NotInVoice,
        join_plan(Some(user), Some(Some(user))) == JoinPlan::UseCall(user),
        bot != user ==> join_plan(Some(user), Some(Some(bot))) == JoinPlan::Busy,
{
}

/// The announcement mentions the user by their full id: after the title and
/// the link it reads `) [<@`, then a run of digits whose value is the user
/// id, then `>]`.
pub proof fn law_announcement_mentions_user(title: Seq<char>, url: Seq<char>, user_id: u64)
    ensures
        ({
            let text = queued_text(title, url, user_id as nat);
            let head = "Queued [**"@ + title + "**]("@ + url + ") [<@"@;
            let mention = text.subrange(head.len() as int, text.len() - 2);
            &&& text.len() >= head.len() + 2
            &&& text.subrange(0, head.len() as int) == head
            &&& all_digits(mention)
            &&& mention.len() >= 1
            &&& digits_value(mention) == user_id
            &&& text.subrange(text.len() - 2, text.len() as int) == ">]"@
        }),
{
    reveal_strlit(">]");
    lemma_decimal_digits(user_id as nat);
    let text = queued_text(title, url, user_id as nat);
    let head = "Queued [**"@ + title + "**]("@ + url + ") [<@"@;
    assert(text == head + decimal(user_id as nat) + ">]"@);
    assert(text.subrange(0, head.len() as int) =~= head);
    assert(text.subrange(head.len() as int, text.len() - 2) =~= decimal(user_id as nat));
    assert(text.subrange(text.len() - 2, text.len() as int) =~= ">]"@);
}

} // verus!
