use vstd::prelude::*;
use crate::database::{
    bounded_maximum, volume_get_or_insert_default, volume_insert_or_update, GuildRow,
    VolumeStore,
};
use crate::error::{SetVolumeError, VoiceChannelJoinError};
use crate::session::{Phase, Reply, SessionView, Step, INITIAL_DEFAULT_VOLUME};
use crate::tracks::{TrackController, TrackHandle};
use crate::voice::{
    try_get_user_voice_channel, Dial, GuildVoiceStates, Joined, VoiceConnection,
    VoiceSessionRegistry,
};

verus! {

/// The normal form of `text` as a URL, if it is an absolute URL.
pub uninterp spec fn url_normal_form(text: Seq<char>) -> Option<Seq<char>>;

/// Calls `url::Url::parse` and, where it succeeds, writes the URL out
/// again through its `Display`. Both depend on the text alone; the outcome
/// is given the name `url_normal_form`.
#[verifier::external_body]
fn parse_url(text: &str) -> (r: Option<String>)
    ensures
        match r {
            Some(url) => url_normal_form(text@) == Some(url@),
            None => url_normal_form(text@) is None,
        },
{
    match url::Url::parse(text) {
        Ok(url) => Some(url.to_string()),
        Err(_) => None,
    }
}

/// The sessions of all guilds: connections, tracks and volumes, with the
/// configured maximum volume.
pub struct Coordinator {
    registry: VoiceSessionRegistry,
    tracks: TrackController,
    volumes: VolumeStore,
}

impl View for Coordinator {
    type V = SessionView;

    closed spec fn view(&self) -> SessionView {
        SessionView {
            connections: self.registry@,
            tracks: self.tracks@,
            volumes: self.volumes@,
            max_volume: self.volumes.limit(),
        }
    }
}

impl Coordinator {
    pub open spec fn wf(&self) -> bool {
        self@.wf()
    }

    /// No guild is connected, nothing plays, no volume is stored. A
    /// maximum beyond what a volume record can hold is brought down to that.
    pub fn new(max_volume: u32) -> (state: Coordinator)
        ensures
            state.wf(),
            state@ == (SessionView {
                connections: Map::empty(),
                tracks: Map::empty(),
                volumes: Map::empty(),
                max_volume: bounded_maximum(max_volume),
            }),
    {
        Coordinator {
            registry: VoiceSessionRegistry::new(),
            tracks: TrackController::new(),
            volumes: VolumeStore::new(max_volume),
        }
    }

    /// Where the guild's session stands.
    pub fn phase(&self, guild_id: u64) -> (p: Phase)
        ensures
            p == self@.phase(guild_id),
    {
        if self.registry.get(guild_id).is_none() {
            Phase::Disconnected
        } else if self.tracks.get(guild_id).is_some() {
            Phase::ConnectedPlaying
        } else {
            Phase::ConnectedIdle
        }
    }

    /// The configured maximum volume.
    pub fn max_volume(&self) -> (m: u32)
        ensures
            m == self@.max_volume,
    {
        self.volumes.max_volume()
    }

    /// The guild's connection, if it has one.
    pub fn connection(&self, guild_id: u64) -> (c: Option<VoiceConnection>)
        ensures
            c == (if self@.connections.contains_key(guild_id) {
                Some(self@.connections[guild_id])
            } else {
                None
            }),
    {
        self.registry.get(guild_id)
    }

    /// The guild's track, if one is registered.
    pub fn track(&self, guild_id: u64) -> (t: Option<&TrackHandle>)
        ensures
            match t {
                Some(handle) => self@.tracks.contains_key(guild_id) && *handle
                    == self@.tracks[guild_id],
                None => !self@.tracks.contains_key(guild_id),
            },
    {
        self.tracks.get(guild_id)
    }

    /// The guild's volume record, if it has one.
    pub fn volume_record(&self, guild_id: u64) -> (row: Option<GuildRow>)
        ensures
            row == (if self@.volumes.contains_key(guild_id) {
                Some(self@.volumes[guild_id])
            } else {
                None
            }),
    {
        self.volumes.get(guild_id)
    }

    /// Takes in a volume record that was read from the database. One that
    /// is not well formed, or whose volume is not from 0 to the maximum, is
    /// left out.
    pub fn restore_volume(&mut self, row: GuildRow) -> (taken: bool)
        requires
            old(self).wf(),
        ensures
            final(self).wf(),
            taken == (row.wf() && row.within(old(self)@.max_volume)),
            final(self)@ == (SessionView {
                volumes: if taken {
                    old(self)@.volumes.insert(row.id, row)
                } else {
                    old(self)@.volumes
                },
                ..old(self)@
            }),
    {
        self.volumes.restore(row)
    }

    /// A write of the guild's record to disk failed: the record goes back
    /// to `before`, what it was when the command began, or is dropped where
    /// there was none. A `before` of another guild, or one that the
    /// sessions cannot hold, changes nothing.
    pub fn volume_write_failed(&mut self, guild_id: u64, before: Option<GuildRow>) -> (done: bool)
        requires
            old(self).wf(),
        ensures
            final(self).wf(),
            done == (before matches Some(row) ==> row.id == guild_id && row.wf() && row.within(
                old(self)@.max_volume,
            )),
            final(self)@ == (SessionView {
                volumes: if !done {
                    old(self)@.volumes
                } else {
                    match before {
                        Some(row) => old(self)@.volumes.insert(guild_id, row),
                        None => old(self)@.volumes.remove(guild_id),
                    }
                },
                ..old(self)@
            }),
    {
        self.volumes.revert(guild_id, before)
    }

    /// Sets the guild's volume to `volume` percent. A value above the
    /// maximum is refused and nothing changes. Else the gain of the guild's
    /// track follows at once and the value itself is stored, whether or not
    /// a track plays; `NoActiveTrack` says that there was none to adjust.
    pub fn set_volume(&mut self, guild_id: u64, volume: u32, now: i64) -> (r: Result<
        (),
        SetVolumeError,
    >)
        requires
            old(self).wf(),
        ensures
            final(self).wf(),
            final(self)@ == old(self)@.set_volume(guild_id, volume, now),
            r == (if volume > old(self)@.max_volume {
                Err::<(), SetVolumeError>(SetVolumeError::AboveMaximum)
            } else if !old(self)@.tracks.contains_key(guild_id) {
                Err::<(), SetVolumeError>(SetVolumeError::NoActiveTrack)
            } else {
                Ok::<(), SetVolumeError>(())
            }),
            volume <= old(self)@.max_volume ==> final(self)@.volumes.contains_key(guild_id)
                && final(self)@.volumes[guild_id].volume == volume,
    {
        if volume > self.volumes.max_volume() {
            return Err(SetVolumeError::AboveMaximum);
        }
        let applied = self.tracks.set_volume(guild_id, volume as i64);
        let stored = volume_insert_or_update(&mut self.volumes, guild_id, volume as i32, now);
        assert(stored is Ok);
        match applied {
            Ok(()) => Ok(()),
            Err(_) => Err(SetVolumeError::NoActiveTrack),
        }
    }

    /// The guild's connection was lost outside any command: the connection
    /// and the track are forgotten.
    pub fn severed(&mut self, guild_id: u64)
        requires
            old(self).wf(),
        ensures
            final(self).wf(),
            final(self)@ == old(self)@.severed(guild_id),
    {
        self.tracks.clear(guild_id);
        self.registry.leave(guild_id);
    }
}

/// The join command: says what joining takes. A connected guild keeps its
/// connection and the answer is success; else the target is the explicit
/// `channel` or the invoking user's channel, which is then to be dialled.
pub fn join(
    state: &Coordinator,
    guild_id: u64,
    channel: Option<u64>,
    guild: Option<&GuildVoiceStates>,
    user_id: u64,
) -> (step: Step)
    ensures
        step == state@.join(guild_id, channel, guild, user_id),
{
    if state.registry.get(guild_id).is_some() {
        return Step::Done(Reply::Joined);
    }
    match channel {
        Some(c) => Step::Dial { guild_id, channel_id: c },
        None => match try_get_user_voice_channel(guild, user_id) {
            Ok(c) => Step::Dial { guild_id, channel_id: c },
            Err(VoiceChannelJoinError::UserNotInVoiceChannel) => Step::Done(
                Reply::NotInVoiceChannel,
            ),
            Err(VoiceChannelJoinError::Other(_)) => Step::GuildUnknown,
        },
    }
}

/// Takes in the voice engine's answer to a connect that a `Step::Dial`
/// asked for. A success registers the connection and hands it back as
/// `Created`: one track-error listener is then due on it. Where the guild
/// got a connection meanwhile, that one is kept and handed back as
/// `Reused`, with no listener due. A refusal leaves the state as it was
/// and comes back as `Other` with the engine's cause.
pub fn dialed(state: &mut Coordinator, guild_id: u64, channel_id: u64, dial: Dial) -> (r: Result<
    Joined,
    VoiceChannelJoinError,
>)
    requires
        old(state).wf(),
    ensures
        final(state).wf(),
        final(state)@ == old(state)@.dialed(guild_id, channel_id, dial is Connected),
        r == (if old(state)@.connections.contains_key(guild_id) {
            Ok::<Joined, VoiceChannelJoinError>(
                Joined::Reused(old(state)@.connections[guild_id]),
            )
        } else if dial is Connected {
            Ok::<Joined, VoiceChannelJoinError>(
                Joined::Created(VoiceConnection { guild_id, channel_id }),
            )
        } else {
            Err::<Joined, VoiceChannelJoinError>(VoiceChannelJoinError::Other(dial->Rejected_0))
        }),
        r matches Ok(j) ==> final(state)@.connections.contains_key(guild_id) && j.spec_connection()
            == final(state)@.connections[guild_id],
{
    state.registry.join(guild_id, channel_id, dial)
}

/// One step of the play command, on the outcome of reading its URL:
/// `parsed` is the URL in normal form, or `None` where the text was none.
/// A text that is no URL is refused before anything else. In a connected
/// guild the track starts at the guild's volume, which is created as the
/// default where the guild has none, and replaces the guild's earlier
/// track. Else the join of the invoking user's channel comes first.
pub fn play_parsed(
    state: &mut Coordinator,
    guild_id: u64,
    parsed: Option<String>,
    guild: Option<&GuildVoiceStates>,
    user_id: u64,
    now: i64,
) -> (step: Step)
    requires
        old(state).wf(),
    ensures
        final(state).wf(),
        (final(state)@, step) == old(state)@.play(guild_id, parsed, guild, user_id, now),
{
    match parsed {
        None => Step::Done(Reply::InvalidUrl),
        Some(url) => {
            if state.registry.get(guild_id).is_some() {
                let volume = volume_get_or_insert_default(
                    &mut state.volumes,
                    guild_id,
                    INITIAL_DEFAULT_VOLUME,
                    now,
                );
                state.tracks.play(guild_id, url.clone(), volume as i64);
                Step::Done(Reply::Playing { url })
            } else {
                join(state, guild_id, None, guild, user_id)
            }
        },
    }
}

/// One step of the play command: reads `url` and goes on as `play_parsed`
/// does.
pub fn play(
    state: &mut Coordinator,
    guild_id: u64,
    url: &str,
    guild: Option<&GuildVoiceStates>,
    user_id: u64,
    now: i64,
) -> (step: Step)
    requires
        old(state).wf(),
    ensures
        final(state).wf(),
        url_normal_form(url@) is None ==> final(state)@ == old(state)@ && step == Step::Done(
            Reply::InvalidUrl,
        ),
        url_normal_form(url@) is Some ==> exists|parsed: String|
            parsed@ == url_normal_form(url@)->Some_0 && (final(state)@, step) == old(
                state,
            )@.play(guild_id, Some(parsed), guild, user_id, now),
{
    let parsed = parse_url(url);
    play_parsed(state, guild_id, parsed, guild, user_id, now)
}

/// The stop command: removes the guild's track. Without a connection or
/// without a track nothing changes and the reply says so.
pub fn stop(state: &mut Coordinator, guild_id: u64) -> (reply: Reply)
    requires
        old(state).wf(),
    ensures
        final(state).wf(),
        (final(state)@, reply) == old(state)@.stop(guild_id),
{
    if state.registry.get(guild_id).is_none() {
        Reply::NotConnected
    } else if state.tracks.stop(guild_id) {
        Reply::Stopping
    } else {
        assert(state.tracks@ =~= old(state).tracks@);
        Reply::NothingPlaying
    }
}

/// The pause command: not on offer; nothing changes.
pub fn pause(state: &Coordinator) -> (reply: Reply)
    ensures
        reply == Reply::PauseUnavailable,
{
    Reply::PauseUnavailable
}

/// The disconnect command: forgets the guild's track, then its connection.
/// Without a connection nothing changes and the reply says so.
pub fn disconnect(state: &mut Coordinator, guild_id: u64) -> (reply: Reply)
    requires
        old(state).wf(),
    ensures
        final(state).wf(),
        (final(state)@, reply) == old(state)@.disconnect(guild_id),
{
    if state.registry.get(guild_id).is_none() {
        Reply::NotConnected
    } else {
        state.tracks.clear(guild_id);
        state.registry.leave(guild_id);
        Reply::Goodbye
    }
}

/// The volume command. With a value it sets the guild's volume: a value
/// above the maximum is refused and nothing changes; else the gain of the
/// guild's track, if it has one, follows at once and the value itself is
/// stored either way. Without a value it reports the stored volume,
/// creating the default record where the guild has none.
pub fn volume(state: &mut Coordinator, guild_id: u64, value: Option<u32>, now: i64) -> (reply:
    Reply)
    requires
        old(state).wf(),
    ensures
        final(state).wf(),
        (final(state)@, reply) == old(state)@.volume(guild_id, value, now),
{
    match value {
        Some(v) => {
            match state.set_volume(guild_id, v, now) {
                Err(SetVolumeError::AboveMaximum) => Reply::VolumeTooHigh {
                    requested: v,
                    max_volume: state.max_volume(),
                },
                _ => Reply::VolumeSet { volume: v },
            }
        },
        None => {
            let stored = volume_get_or_insert_default(
                &mut state.volumes,
                guild_id,
                INITIAL_DEFAULT_VOLUME,
                now,
            );
            Reply::VolumeIs { stored }
        },
    }
}

/// The echo command: the message comes back as it is.
pub fn echo(message: String) -> (reply: Reply)
    ensures
        reply == (Reply::Echo { message }),
{
    Reply::Echo { message }
}

} // verus!
