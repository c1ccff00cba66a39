use vstd::prelude::*;
use vstd::string::*;
use crate::registry::WatchRegistry;
use crate::session::SessionStorage;
use crate::text::{same_text, vec_contains};

verus! {

/// How the bot logs in.
#[derive(Debug, Clone)]
pub enum LoginData {
    UsernamePassword(String, String),
}

/// The settings of the bot.
#[derive(Debug, Clone)]
pub struct BotConfig {
    pub login_data: LoginData,
    pub homeserver_url: String,
    pub session_storage: SessionStorage,
    pub ignore_own_messages: bool,
    pub autojoin: bool,
    pub accept_commands_from: Vec<String>,
}

impl BotConfig {
    pub fn new(
        login_data: LoginData,
        homeserver_url: String,
        session_storage: SessionStorage,
        ignore_own_messages: bool,
        autojoin: bool,
        accept_commands_from: Vec<String>,
    ) -> (r: Self)
        ensures
            r == (BotConfig {
                login_data,
                homeserver_url,
                session_storage,
                ignore_own_messages,
                autojoin,
                accept_commands_from,
            }),
    {
        BotConfig {
            login_data,
            homeserver_url,
            session_storage,
            ignore_own_messages,
            autojoin,
            accept_commands_from,
        }
    }
}

/// An empty allow list trusts everyone; any other trusts exactly the actors it lists.
pub open spec fn trusts(allow: Seq<Seq<char>>, actor: Seq<char>) -> bool {
    allow.len() == 0 || allow.contains(actor)
}

/// Whether `actor` may give commands and have its invitations honoured.
pub fn is_trusted(allow: &Vec<String>, actor: &str) -> (r: bool)
    ensures
        r == trusts(allow.deep_view(), actor@),
{
    allow.len() == 0 || vec_contains(allow, actor)
}

/// An empty allow list trusts every actor; a non-empty one trusts only the actors it lists.
pub proof fn lemma_allow_list(allow: Seq<Seq<char>>, actor: Seq<char>)
    ensures
        allow.len() == 0 ==> trusts(allow, actor),
        allow.len() > 0 ==> (trusts(allow, actor) <==> allow.contains(actor)),
{
}

/// The allow list decides alone: a command is carried out only for a trusted sender, and an
/// invitation that reaches the bot is accepted exactly when its sender is trusted.
pub proof fn lemma_trust_governs_commands_and_invites(
    cfg: BotConfig,
    actor: Seq<char>,
    room_joined: bool,
    own_user: Option<Seq<char>>,
    body: Seq<char>,
    me: Seq<char>,
)
    ensures
        message_command(cfg, room_joined, actor, own_user, body) is Some ==> trusts(
            cfg.accept_commands_from.deep_view(),
            actor,
        ),
        invite_decision(cfg, me, me, true, actor) == InviteDecision::Accept <==> trusts(
            cfg.accept_commands_from.deep_view(),
            actor,
        ),
        invite_decision(cfg, me, me, true, actor) == InviteDecision::Reject <==> !trusts(
            cfg.accept_commands_from.deep_view(),
            actor,
        ),
{
}

/// The commands that the bot answers in a channel.
#[derive(Debug, Clone, Copy, PartialEq, Eq, Structural)]
pub enum Command {
    Ping,
    Watch,
    Leave,
}

/// The command that a message body is, by exact match.
pub open spec fn command_of(body: Seq<char>) -> Option<Command> {
    if body == "!ping"@ {
        Some(Command::Ping)
    } else if body == "!watch"@ {
        Some(Command::Watch)
    } else if body == "!leave"@ {
        Some(Command::Leave)
    } else {
        None
    }
}

/// The text that the bot sends back for a command.
pub open spec fn reply_of(c: Command) -> Seq<char> {
    match c {
        Command::Ping => "pong"@,
        Command::Watch => "Watching..."@,
        Command::Leave => "Bye"@,
    }
}

/// The registry after a command given in channel `room`.
pub open spec fn registry_after(s: Set<Seq<char>>, c: Command, room: Seq<char>) -> Set<Seq<char>> {
    match c {
        Command::Ping => s,
        Command::Watch => s.insert(room),
        Command::Leave => s.remove(room),
    }
}

pub fn parse_command(body: &str) -> (r: Option<Command>)
    ensures
        r == command_of(body@),
{
    if same_text(body, "!ping") {
        Some(Command::Ping)
    } else if same_text(body, "!watch") {
        Some(Command::Watch)
    } else if same_text(body, "!leave") {
        Some(Command::Leave)
    } else {
        None
    }
}

impl Command {
    pub fn reply(&self) -> (r: String)
        ensures
            r@ == reply_of(*self),
    {
        match self {
            Command::Ping => String::from_str("pong"),
            Command::Watch => String::from_str("Watching..."),
            Command::Leave => String::from_str("Bye"),
        }
    }
}

/// The command that a text message asks for, or `None` when it is to be ignored: the
/// channel is not joined, the message is the bot's own and those are ignored, the sender is
/// not trusted, or the body is no command.
pub open spec fn message_command(
    cfg: BotConfig,
    room_joined: bool,
    sender: Seq<char>,
    own_user: Option<Seq<char>>,
    body: Seq<char>,
) -> Option<Command> {
    if !room_joined {
        None
    } else if cfg.ignore_own_messages && own_user == Some(sender) {
        None
    } else if !trusts(cfg.accept_commands_from.deep_view(), sender) {
        None
    } else {
        command_of(body)
    }
}

/// What to do with an invitation to a channel.
#[derive(Debug, Clone, Copy, PartialEq, Eq, Structural)]
pub enum InviteDecision {
    Ignore,
    Accept,
    Reject,
}

/// An invitation is handled only when the invitee is the bot and the channel still stands
/// invited; it is accepted when the inviter is trusted, else rejected. (With autojoin off no
/// invitation is handled at all.)
pub open spec fn invite_decision(
    cfg: BotConfig,
    invitee: Seq<char>,
    own_user: Seq<char>,
    room_invited: bool,
    inviter: Seq<char>,
) -> InviteDecision {
    if invitee != own_user || !room_invited {
        InviteDecision::Ignore
    } else if trusts(cfg.accept_commands_from.deep_view(), inviter) {
        InviteDecision::Accept
    } else {
        InviteDecision::Reject
    }
}

impl BotConfig {
    pub fn decide_message(
        &self,
        room_joined: bool,
        sender: &str,
        own_user: Option<&str>,
        body: &str,
    ) -> (r: Option<Command>)
        ensures
            r == message_command(
                *self,
                room_joined,
                sender@,
                match own_user {
                    Some(u) => Some(u@),
                    None => None,
                },
                body@,
            ),
    {
        if !room_joined {
            return None;
        }
        if self.ignore_own_messages {
            if let Some(me) = own_user {
                if same_text(sender, me) {
                    return None;
                }
            }
        }
        if !is_trusted(&self.accept_commands_from, sender) {
            return None;
        }
        parse_command(body)
    }

    pub fn decide_invite(
        &self,
        invitee: &str,
        own_user: &str,
        room_invited: bool,
        inviter: &str,
    ) -> (r: InviteDecision)
        ensures
            r == invite_decision(*self, invitee@, own_user@, room_invited, inviter@),
    {
        if !same_text(invitee, own_user) || !room_invited {
            InviteDecision::Ignore
        } else if is_trusted(&self.accept_commands_from, inviter) {
            InviteDecision::Accept
        } else {
            InviteDecision::Reject
        }
    }
}

impl WatchRegistry {
    /// Carries out what a command does to the registry, for channel `room`.
    pub fn apply(&mut self, c: Command, room: &str)
        requires
            old(self).wf(),
        ensures
            final(self).wf(),
            final(self)@ == registry_after(old(self)@, c, room@),
    {
        match c {
            Command::Ping => {},
            Command::Watch => {
                self.watch(room);
            },
            Command::Leave => {
                self.unwatch(room);
            },
        }
    }
}

/// The registry after each command of `events`, in order, each given in its channel.
pub open spec fn replay(start: Set<Seq<char>>, events: Seq<(Command, Seq<char>)>) -> Set<Seq<char>>
    decreases events.len(),
{
    if events.len() == 0 {
        start
    } else {
        registry_after(replay(start, events.drop_last()), events.last().0, events.last().1)
    }
}

/// `room` was watched at some point and not left after that.
pub open spec fn watched_and_not_left(events: Seq<(Command, Seq<char>)>, room: Seq<char>) -> bool {
    exists|i: int|
        0 <= i < events.len() && #[trigger] events[i] == (Command::Watch, room) && forall|j: int|
            i < j < events.len() ==> #[trigger] events[j] != (Command::Leave, room)
}

/// Starting from an empty registry, a channel is watched exactly when some `!watch` in it
/// is not followed by a `!leave` in it, whatever else comes in between.
pub proof fn lemma_registry_membership(events: Seq<(Command, Seq<char>)>, room: Seq<char>)
    ensures
        replay(Set::empty(), events).contains(room) <==> watched_and_not_left(events, room),
    decreases events.len(),
{
    if events.len() > 0 {
        let prefix = events.drop_last();
        let n = events.len() - 1;
        lemma_registry_membership(prefix, room);
        let e = events.last();
        assert(events[n] == e);
        if e == (Command::Watch, room) {
            assert(watched_and_not_left(events, room));
        } else if e == (Command::Leave, room) {
            if watched_and_not_left(events, room) {
                let i = choose|i: int|
                    0 <= i < events.len() && #[trigger] events[i] == (Command::Watch, room)
                        && forall|j: int|
                        i < j < events.len() ==> #[trigger] events[j] != (Command::Leave, room);
                assert(i != n);
                assert(events[n] != (Command::Leave, room));
            }
        } else {
            assert(replay(Set::empty(), events).contains(room) == replay(
                Set::empty(),
                prefix,
            ).contains(room));
            if watched_and_not_left(events, room) {
                let i = choose|i: int|
                    0 <= i < events.len() && #[trigger] events[i] == (Command::Watch, room)
                        && forall|j: int|
                        i < j < events.len() ==> #[trigger] events[j] != (Command::Leave, room);
                assert(i != n);
                assert(prefix[i] == events[i]);
                assert forall|j: int| i < j < prefix.len() implies #[trigger] prefix[j] != (
                    Command::Leave,
                    room,
                ) by {
                    assert(prefix[j] == events[j]);
                }
                assert(watched_and_not_left(prefix, room));
            }
            if watched_and_not_left(prefix, room) {
                let i = choose|i: int|
                    0 <= i < prefix.len() && #[trigger] prefix[i] == (Command::Watch, room)
                        && forall|j: int|
                        i < j < prefix.len() ==> #[trigger] prefix[j] != (Command::Leave, room);
                assert(events[i] == prefix[i]);
                assert forall|j: int| i < j < events.len() implies #[trigger] events[j] != (
                    Command::Leave,
                    room,
                ) by {
                    if j < n {
                        assert(prefix[j] == events[j]);
                    }
                }
                assert(watched_and_not_left(events, room));
            }
        }
    }
}

/// Giving `!watch` again in a channel that is already watched changes nothing.
pub proof fn lemma_watch_idempotent(s: Set<Seq<char>>, room: Seq<char>)
    ensures
        registry_after(registry_after(s, Command::Watch, room), Command::Watch, room)
            == registry_after(s, Command::Watch, room),
{
    assert(s.insert(room).insert(room) =~= s.insert(room));
}

} // verus!
