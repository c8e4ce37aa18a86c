use std::collections::HashMap;
use vstd::prelude::*;
use crate::error::VoiceChannelJoinError;

verus! {

broadcast use vstd::std_specs::hash::group_hash_axioms;

/// A live audio link between the bot and one voice channel of one guild.
#[derive(Debug, Clone, Copy, PartialEq, Eq, Structural)]
pub struct VoiceConnection {
    pub guild_id: u64,
    pub channel_id: u64,
}

/// What the voice engine answered when asked to connect.
#[derive(Debug, Clone, PartialEq, Eq)]
pub enum Dial {
    Connected,
    /// The engine refused; the text is its cause, for the log.
    Rejected(String),
}

/// What a successful join hands back: the guild's connection, and whether
/// the join made it or found it.
#[derive(Debug, Clone, Copy, PartialEq, Eq, Structural)]
pub enum Joined {
    /// The connection is new.
    Created(VoiceConnection),
    /// The guild was connected already: this is the connection it had.
    Reused(VoiceConnection),
}

impl Joined {
    pub open spec fn spec_connection(self) -> VoiceConnection {
        match self {
            Joined::Created(c) => c,
            Joined::Reused(c) => c,
        }
    }

    /// The number of track-error listeners to register on the connection:
    /// one where it is new, none where it was there before.
    pub open spec fn spec_listeners_due(self) -> nat {
        match self {
            Joined::Created(_) => 1,
            Joined::Reused(_) => 0,
        }
    }

    /// The guild's connection.
    pub fn connection(&self) -> (c: VoiceConnection)
        ensures
            c == self.spec_connection(),
    {
        match self {
            Joined::Created(c) => *c,
            Joined::Reused(c) => *c,
        }
    }

    /// The number of track-error listeners to register on the connection:
    /// exactly one on a new connection, no further one on a reused one.
    pub fn listeners_due(&self) -> (n: usize)
        ensures
            n == self.spec_listeners_due(),
    {
        match self {
            Joined::Created(_) => 1,
            Joined::Reused(_) => 0,
        }
    }
}

/// Who sits in which voice channel of one guild, as far as the bot sees it:
/// user id to the channel occupied, if any.
pub struct GuildVoiceStates {
    pub guild_id: u64,
    pub voice_states: HashMap<u64, Option<u64>>,
}

impl GuildVoiceStates {
    /// The channel that `user_id` occupies, if the bot can see one.
    pub open spec fn channel_of(&self, user_id: u64) -> Option<u64> {
        if self.voice_states@.contains_key(user_id) {
            self.voice_states@[user_id]
        } else {
            None
        }
    }
}

/// The channel that a join without an explicit target goes to.
pub open spec fn user_channel(guild: Option<&GuildVoiceStates>, user_id: u64) -> Option<u64> {
    match guild {
        Some(g) => g.channel_of(user_id),
        None => None,
    }
}

/// Looks up the voice channel that `user_id` occupies. Fails with
/// `UserNotInVoiceChannel` where the user occupies none that the bot sees,
/// and with `Other` where the guild itself is unknown.
pub fn try_get_user_voice_channel(guild: Option<&GuildVoiceStates>, user_id: u64) -> (r: Result<
    u64,
    VoiceChannelJoinError,
>)
    ensures
        match guild {
            None => r matches Err(VoiceChannelJoinError::Other(cause)) && cause@
                == "couldn't get guild"@,
            Some(g) => match g.channel_of(user_id) {
                Some(c) => r == Ok::<u64, VoiceChannelJoinError>(c),
                None => r == Err::<u64, VoiceChannelJoinError>(
                    VoiceChannelJoinError::UserNotInVoiceChannel,
                ),
            },
        },
{
    match guild {
        None => Err(VoiceChannelJoinError::Other("couldn't get guild".to_owned())),
        Some(g) => match g.voice_states.get(&user_id) {
            Some(Some(c)) => Ok(*c),
            _ => Err(VoiceChannelJoinError::UserNotInVoiceChannel),
        },
    }
}

/// The connection table after a successful join: an existing connection
/// stays as it is.
pub open spec fn joined(
    table: Map<u64, VoiceConnection>,
    guild_id: u64,
    channel_id: u64,
) -> Map<u64, VoiceConnection> {
    if table.contains_key(guild_id) {
        table
    } else {
        table.insert(guild_id, VoiceConnection { guild_id, channel_id })
    }
}

/// Every connection sits under its own guild id.
pub open spec fn connections_wf(table: Map<u64, VoiceConnection>) -> bool {
    forall|g: u64| #[trigger] table.contains_key(g) ==> table[g].guild_id == g
}

/// The live voice connection of each guild.
pub struct VoiceSessionRegistry {
    connections: HashMap<u64, VoiceConnection>,
}

impl View for VoiceSessionRegistry {
    type V = Map<u64, VoiceConnection>;

    closed spec fn view(&self) -> Map<u64, VoiceConnection> {
        self.connections@
    }
}

impl VoiceSessionRegistry {
    pub open spec fn wf(&self) -> bool {
        connections_wf(self@)
    }

    /// A registry without connections.
    pub fn new() -> (registry: VoiceSessionRegistry)
        ensures
            registry@ == Map::<u64, VoiceConnection>::empty(),
            registry.wf(),
    {
        VoiceSessionRegistry { connections: HashMap::new() }
    }

    /// The connection of `guild_id`, if there is one. Creates nothing.
    pub fn get(&self, guild_id: u64) -> (c: Option<VoiceConnection>)
        ensures
            c == (if self@.contains_key(guild_id) {
                Some(self@[guild_id])
            } else {
                None
            }),
    {
        match self.connections.get(&guild_id) {
            Some(c) => Some(*c),
            None => None,
        }
    }

    /// Joins `channel_id` in `guild_id`. An existing connection is handed
    /// back unchanged as `Reused`, whatever `dial` says: the engine need not
    /// have been asked. Otherwise `dial` is what the engine answered to the
    /// connect: on success the new connection is registered and handed back
    /// as `Created`, on refusal nothing is registered and the cause comes
    /// back as `Other`.
    pub fn join(&mut self, guild_id: u64, channel_id: u64, dial: Dial) -> (r: Result<
        Joined,
        VoiceChannelJoinError,
    >)
        requires
            old(self).wf(),
        ensures
            final(self).wf(),
            old(self)@.contains_key(guild_id) ==> final(self)@ == old(self)@ && r == Ok::<
                Joined,
                VoiceChannelJoinError,
            >(Joined::Reused(old(self)@[guild_id])),
            !old(self)@.contains_key(guild_id) ==> match dial {
                Dial::Connected => final(self)@ == joined(old(self)@, guild_id, channel_id) && r
                    == Ok::<Joined, VoiceChannelJoinError>(
                    Joined::Created(VoiceConnection { guild_id, channel_id }),
                ),
                Dial::Rejected(cause) => final(self)@ == old(self)@ && r
                    == Err::<Joined, VoiceChannelJoinError>(VoiceChannelJoinError::Other(cause)),
            },
    {
        match self.get(guild_id) {
            Some(c) => Ok(Joined::Reused(c)),
            None => match dial {
                Dial::Connected => {
                    let c = VoiceConnection { guild_id, channel_id };
                    self.connections.insert(guild_id, c);
                    Ok(Joined::Created(c))
                },
                Dial::Rejected(cause) => Err(VoiceChannelJoinError::Other(cause)),
            },
        }
    }

    /// Tears down the connection of `guild_id` if there is one, and says
    /// whether there was.
    pub fn leave(&mut self, guild_id: u64) -> (was_connected: bool)
        requires
            old(self).wf(),
        ensures
            final(self).wf(),
            final(self)@ == old(self)@.remove(guild_id),
            was_connected == old(self)@.contains_key(guild_id),
    {
        self.connections.remove(&guild_id).is_some()
    }
}

/// What a join of the invoking user's channel has to do next.
#[derive(Debug, Clone, Copy, PartialEq, Eq, Structural)]
pub enum JoinPlan {
    /// The guild is connected already: this connection is reused.
    Existing(VoiceConnection),
    /// The voice engine has to connect to this channel.
    Dial { guild_id: u64, channel_id: u64 },
}

/// Plans the join of the channel that `user_id` occupies in `guild_id`: an
/// existing connection is reused, else the user's channel is to be dialled.
/// Fails as `try_get_user_voice_channel` does.
pub fn try_join_user_voice_channel(
    registry: &VoiceSessionRegistry,
    guild_id: u64,
    guild: Option<&GuildVoiceStates>,
    user_id: u64,
) -> (r: Result<JoinPlan, VoiceChannelJoinError>)
    ensures
        match guild {
            None => r matches Err(VoiceChannelJoinError::Other(cause)) && cause@
                == "couldn't get guild"@,
            Some(g) => match g.channel_of(user_id) {
                None => r == Err::<JoinPlan, VoiceChannelJoinError>(
                    VoiceChannelJoinError::UserNotInVoiceChannel,
                ),
                Some(c) => r == Ok::<JoinPlan, VoiceChannelJoinError>(
                    if registry@.contains_key(guild_id) {
                        JoinPlan::Existing(registry@[guild_id])
                    } else {
                        JoinPlan::Dial { guild_id, channel_id: c }
                    },
                ),
            },
        },
{
    match try_get_user_voice_channel(guild, user_id) {
        Err(e) => Err(e),
        Ok(channel_id) => match registry.get(guild_id) {
            Some(c) => Ok(JoinPlan::Existing(c)),
            None => Ok(JoinPlan::Dial { guild_id, channel_id }),
        },
    }
}

/// How a track was doing when the voice engine reported it.
#[derive(Debug, Clone, Copy, PartialEq, Eq, Structural)]
pub enum PlayState {
    Playing,
    Paused,
    Stopped,
    Ended,
    Errored,
}

/// One track of an engine event: its id, split in two halves, and its state.
#[derive(Debug, Clone, Copy, PartialEq, Eq, Structural)]
pub struct TrackReport {
    pub uuid_high: u64,
    pub uuid_low: u64,
    pub state: PlayState,
}

/// What the voice engine hands to a listener.
pub enum EventContext {
    /// A track event, with the tracks it is about.
    Track(Vec<TrackReport>),
    /// Any other event.
    Other,
}

/// What a listener may ask of the engine after an event.
#[derive(Debug, Clone, Copy, PartialEq, Eq, Structural)]
pub enum Event {
    Cancel,
}

/// Listens for track errors. It only reports: it holds no session state
/// and asks nothing of the engine.
pub struct TrackErrorNotifier;

impl TrackErrorNotifier {
    /// The tracks of `ctx` that are to be written to the log, in order.
    pub open spec fn reported(ctx: &EventContext) -> Seq<TrackReport> {
        match ctx {
            EventContext::Track(list) => list@,
            EventContext::Other => Seq::empty(),
        }
    }

    /// Handles one engine event: never asks for a follow-up.
    pub fn act(&self, ctx: &EventContext) -> (r: Option<Event>)
        ensures
            r is None,
    {
        None
    }

    /// The number of log entries that `ctx` calls for.
    pub fn entries(&self, ctx: &EventContext) -> (n: usize)
        ensures
            n == Self::reported(ctx).len(),
    {
        match ctx {
            EventContext::Track(list) => list.len(),
            EventContext::Other => 0,
        }
    }

    /// The `i`-th track to be written to the log.
    pub fn entry(&self, ctx: &EventContext, i: usize) -> (t: TrackReport)
        requires
            i < Self::reported(ctx).len(),
        ensures
            t == Self::reported(ctx)[i as int],
    {
        match ctx {
            EventContext::Track(list) => list[i],
            EventContext::Other => TrackReport { uuid_high: 0, uuid_low: 0, state: PlayState::Errored },
        }
    }
}

} // verus!
