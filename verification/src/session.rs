use vstd::prelude::*;
use crate::database::{
    clamped, defaulted, table_wf, upserted, volume_or, GuildRow, MAX_STORED_VOLUME,
};
use crate::tracks::{regained, tracks_wf, TrackHandle};
use crate::voice::{connections_wf, joined, user_channel, GuildVoiceStates, VoiceConnection};

verus! {

/// The volume that a guild gets when it is first asked about.
pub const INITIAL_DEFAULT_VOLUME: i32 = 100;

/// Where a guild's session stands.
#[derive(Debug, Clone, Copy, PartialEq, Eq, Structural)]
pub enum Phase {
    Disconnected,
    ConnectedIdle,
    ConnectedPlaying,
}

/// What a command answers to the user. The program around the library
/// turns it into text.
#[derive(Debug, Clone, PartialEq, Eq)]
pub enum Reply {
    /// The given text is no URL.
    InvalidUrl,
    /// Neither the bot nor the invoking user is in a voice channel.
    NotInVoiceChannel,
    /// Playback of this URL has started.
    Playing { url: String },
    /// There is no voice connection to act on.
    NotConnected,
    /// There is a connection, but no track to stop.
    NothingPlaying,
    Stopping,
    /// Pausing is not on offer.
    PauseUnavailable,
    Joined,
    Goodbye,
    VolumeTooHigh { requested: u32, max_volume: u32 },
    VolumeSet { volume: u32 },
    VolumeIs { stored: i32 },
    Echo { message: String },
}

/// What the program around the library does after a command step.
#[derive(Debug, Clone, PartialEq, Eq)]
pub enum Step {
    /// The command is over: send the reply.
    Done(Reply),
    /// Ask the voice engine to connect, report the answer, and where the
    /// command was to play, issue it again.
    Dial { guild_id: u64, channel_id: u64 },
    /// The guild of the command is not known: the command fails.
    GuildUnknown,
}

/// The state of all guild sessions: connections, tracks, volume records,
/// and the configured maximum volume.
pub struct SessionView {
    pub connections: Map<u64, VoiceConnection>,
    pub tracks: Map<u64, TrackHandle>,
    pub volumes: Map<u64, GuildRow>,
    pub max_volume: u32,
}

impl SessionView {
    /// A track exists only where a connection exists for the same guild,
    /// every entry sits under its own guild id, and every stored volume is
    /// from 0 to the maximum, which a record can hold.
    pub open spec fn wf(self) -> bool {
        &&& self.max_volume <= MAX_STORED_VOLUME
        &&& forall|g: u64| #[trigger]
            self.tracks.contains_key(g) ==> self.connections.contains_key(g)
        &&& connections_wf(self.connections)
        &&& tracks_wf(self.tracks)
        &&& table_wf(self.volumes, self.max_volume)
    }

    /// The volume that a guild gets when it is first asked about: the
    /// initial default, or the maximum where that is lower.
    pub open spec fn default_volume(self) -> i32 {
        clamped(INITIAL_DEFAULT_VOLUME, self.max_volume)
    }

    pub open spec fn phase(self, guild_id: u64) -> Phase {
        if !self.connections.contains_key(guild_id) {
            Phase::Disconnected
        } else if self.tracks.contains_key(guild_id) {
            Phase::ConnectedPlaying
        } else {
            Phase::ConnectedIdle
        }
    }

    /// The channel that a join goes to: the explicit one, else the invoking
    /// user's. The outer `None` says that the guild is unknown, the inner
    /// one that the user is in no channel.
    pub open spec fn join_target(
        channel: Option<u64>,
        guild: Option<&GuildVoiceStates>,
        user_id: u64,
    ) -> Option<Option<u64>> {
        match channel {
            Some(c) => Some(Some(c)),
            None => match guild {
                None => None,
                Some(_) => Some(user_channel(guild, user_id)),
            },
        }
    }

    /// What a join has to do: nothing where the guild is connected.
    pub open spec fn join(
        self,
        guild_id: u64,
        channel: Option<u64>,
        guild: Option<&GuildVoiceStates>,
        user_id: u64,
    ) -> Step {
        if self.connections.contains_key(guild_id) {
            Step::Done(Reply::Joined)
        } else {
            match Self::join_target(channel, guild, user_id) {
                None => Step::GuildUnknown,
                Some(None) => Step::Done(Reply::NotInVoiceChannel),
                Some(Some(c)) => Step::Dial { guild_id, channel_id: c },
            }
        }
    }

    /// The state after the engine answered a connect: a success registers
    /// the connection unless the guild has one, a refusal changes nothing.
    pub open spec fn dialed(self, guild_id: u64, channel_id: u64, connected: bool) -> SessionView {
        if connected {
            SessionView { connections: joined(self.connections, guild_id, channel_id), ..self }
        } else {
            self
        }
    }

    /// The state after playback of `source` started in a connected guild.
    pub open spec fn started(self, guild_id: u64, source: String, now: i64) -> SessionView {
        SessionView {
            tracks: self.tracks.insert(
                guild_id,
                TrackHandle {
                    guild_id,
                    source,
                    volume: volume_or(self.volumes, guild_id, self.default_volume()) as i64,
                },
            ),
            volumes: defaulted(self.volumes, guild_id, self.default_volume(), now),
            ..self
        }
    }

    /// One step of the play command on the outcome of reading its URL.
    pub open spec fn play(
        self,
        guild_id: u64,
        parsed: Option<String>,
        guild: Option<&GuildVoiceStates>,
        user_id: u64,
        now: i64,
    ) -> (SessionView, Step) {
        match parsed {
            None => (self, Step::Done(Reply::InvalidUrl)),
            Some(url) => if self.connections.contains_key(guild_id) {
                (self.started(guild_id, url, now), Step::Done(Reply::Playing { url }))
            } else {
                (self, self.join(guild_id, None, guild, user_id))
            },
        }
    }

    pub open spec fn stop(self, guild_id: u64) -> (SessionView, Reply) {
        if !self.connections.contains_key(guild_id) {
            (self, Reply::NotConnected)
        } else if !self.tracks.contains_key(guild_id) {
            (self, Reply::NothingPlaying)
        } else {
            (SessionView { tracks: self.tracks.remove(guild_id), ..self }, Reply::Stopping)
        }
    }

    /// The state after the guild's connection is gone, with its track.
    pub open spec fn severed(self, guild_id: u64) -> SessionView {
        SessionView {
            tracks: self.tracks.remove(guild_id),
            connections: self.connections.remove(guild_id),
            ..self
        }
    }

    pub open spec fn disconnect(self, guild_id: u64) -> (SessionView, Reply) {
        if !self.connections.contains_key(guild_id) {
            (self, Reply::NotConnected)
        } else {
            (self.severed(guild_id), Reply::Goodbye)
        }
    }

    /// The state after the guild's volume was set: the gain of its track,
    /// if it has one, follows, and the value itself is stored either way. A
    /// value above the maximum changes nothing.
    pub open spec fn set_volume(self, guild_id: u64, volume: u32, now: i64) -> SessionView {
        if volume > self.max_volume {
            self
        } else {
            SessionView {
                tracks: regained(self.tracks, guild_id, volume as i64),
                volumes: upserted(self.volumes, guild_id, volume as i32, now),
                ..self
            }
        }
    }

    /// The volume command: a query where `value` is `None`, else a change,
    /// which is refused above the maximum.
    pub open spec fn volume(self, guild_id: u64, value: Option<u32>, now: i64) -> (
        SessionView,
        Reply,
    ) {
        match value {
            Some(v) => if v > self.max_volume {
                (self, Reply::VolumeTooHigh { requested: v, max_volume: self.max_volume })
            } else {
                (self.set_volume(guild_id, v, now), Reply::VolumeSet { volume: v })
            },
            None => (
                SessionView {
                    volumes: defaulted(self.volumes, guild_id, self.default_volume(), now),
                    ..self
                },
                Reply::VolumeIs {
                    stored: volume_or(self.volumes, guild_id, self.default_volume()),
                },
            ),
        }
    }
}

} // verus!
