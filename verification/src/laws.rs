use vstd::prelude::*;
use crate::database::{clamped, defaulted, volume_or, GuildRow};
use crate::session::{Phase, Reply, SessionView, Step};
use crate::voice::{joined, user_channel, GuildVoiceStates, VoiceConnection};

verus! {

/// A guild without a record gets the default volume on its first lookup,
/// and the record that a later lookup finds holds that volume. The default
/// is one that the store can hold: from 0 to its maximum.
pub proof fn lemma_first_lookup_stores_default(
    table: Map<u64, GuildRow>,
    max_volume: u32,
    guild_id: u64,
    default_volume: i32,
    now: i64,
    later: i64,
)
    requires
        !table.contains_key(guild_id),
        0 <= default_volume <= max_volume,
    ensures
        clamped(default_volume, max_volume) == default_volume,
        volume_or(table, guild_id, default_volume) == default_volume,
        defaulted(table, guild_id, default_volume, now).contains_key(guild_id),
        defaulted(table, guild_id, default_volume, now)[guild_id].volume == default_volume,
        defaulted(table, guild_id, default_volume, now)[guild_id].id == guild_id,
        volume_or(defaulted(table, guild_id, default_volume, now), guild_id, default_volume)
            == default_volume,
        defaulted(defaulted(table, guild_id, default_volume, now), guild_id, default_volume, later)
            == defaulted(table, guild_id, default_volume, now),
{
}

/// A volume above the maximum is refused: no record and no gain changes,
/// where an accepted one would have set both.
pub proof fn lemma_volume_above_maximum_is_refused(
    s: SessionView,
    guild_id: u64,
    value: u32,
    now: i64,
)
    requires
        value > s.max_volume,
    ensures
        s.volume(guild_id, Some(value), now).0 == s,
        s.volume(guild_id, Some(value), now).1 == (Reply::VolumeTooHigh {
            requested: value,
            max_volume: s.max_volume,
        }),
        s.volume(guild_id, Some(s.max_volume), now).0 == s.set_volume(guild_id, s.max_volume, now),
{
}

/// Joining twice in a row gives the same connection both times: the second
/// join finds the connection of the first and changes nothing, whatever
/// channel it names.
pub proof fn lemma_join_is_idempotent(
    table: Map<u64, VoiceConnection>,
    guild_id: u64,
    channel_id: u64,
    again: u64,
)
    ensures
        joined(table, guild_id, channel_id).contains_key(guild_id),
        joined(joined(table, guild_id, channel_id), guild_id, again) == joined(
            table,
            guild_id,
            channel_id,
        ),
        joined(joined(table, guild_id, channel_id), guild_id, again)[guild_id] == joined(
            table,
            guild_id,
            channel_id,
        )[guild_id],
{
}

/// At the level of commands: once a guild is connected, a join asks for no
/// dial and a reported dial leaves the sessions as they are.
pub proof fn lemma_join_reuses_connection(
    s: SessionView,
    guild_id: u64,
    channel: Option<u64>,
    guild: Option<&GuildVoiceStates>,
    user_id: u64,
    channel_id: u64,
    connected: bool,
)
    requires
        s.connections.contains_key(guild_id),
    ensures
        s.join(guild_id, channel, guild, user_id) == Step::Done(Reply::Joined),
        s.dialed(guild_id, channel_id, connected) == s,
{
}

/// Playing and then stopping leaves a connected guild idle, with no track
/// registered and its connection untouched.
pub proof fn lemma_play_then_stop_is_idle(
    s: SessionView,
    guild_id: u64,
    url: String,
    guild: Option<&GuildVoiceStates>,
    user_id: u64,
    now: i64,
)
    requires
        s.wf(),
        s.connections.contains_key(guild_id),
    ensures
        ({
            let played = s.play(guild_id, Some(url), guild, user_id, now);
            let stopped = played.0.stop(guild_id);
            &&& played.1 == Step::Done(Reply::Playing { url })
            &&& played.0.phase(guild_id) == Phase::ConnectedPlaying
            &&& stopped.1 == Reply::Stopping
            &&& stopped.0.phase(guild_id) == Phase::ConnectedIdle
            &&& !stopped.0.tracks.contains_key(guild_id)
            &&& stopped.0.connections == s.connections
            &&& stopped.0.wf()
        }),
{
}

/// Disconnecting a playing guild forgets its track and its connection. A
/// play that follows without a join starts nothing: it goes back to the
/// invoking user's channel, which is dialled or found missing.
pub proof fn lemma_disconnect_then_play_resolves_channel(
    s: SessionView,
    guild_id: u64,
    url: String,
    guild: &GuildVoiceStates,
    user_id: u64,
    now: i64,
)
    requires
        s.wf(),
        s.phase(guild_id) == Phase::ConnectedPlaying,
    ensures
        ({
            let left = s.disconnect(guild_id);
            let played = left.0.play(guild_id, Some(url), Some(guild), user_id, now);
            &&& left.1 == Reply::Goodbye
            &&& left.0.phase(guild_id) == Phase::Disconnected
            &&& !left.0.tracks.contains_key(guild_id)
            &&& !left.0.connections.contains_key(guild_id)
            &&& left.0.wf()
            &&& played.0 == left.0
            &&& played.1 == (match user_channel(Some(guild), user_id) {
                Some(c) => Step::Dial { guild_id, channel_id: c },
                None => Step::Done(Reply::NotInVoiceChannel),
            })
        }),
{
}

/// An accepted volume is stored as it is given: after the change the
/// guild's record holds that very number, which is from 0 to the maximum,
/// and the gain of the guild's track, if it has one, is that number too.
pub proof fn lemma_accepted_volume_is_stored(s: SessionView, guild_id: u64, value: u32, now: i64)
    requires
        s.wf(),
        value <= s.max_volume,
    ensures
        ({
            let after = s.volume(guild_id, Some(value), now);
            &&& after.1 == Reply::VolumeSet { volume: value }
            &&& after.0.wf()
            &&& after.0.volumes.contains_key(guild_id)
            &&& after.0.volumes[guild_id].volume == value
            &&& 0 <= after.0.volumes[guild_id].volume <= s.max_volume
            &&& after.0.tracks.contains_key(guild_id) == s.tracks.contains_key(guild_id)
            &&& s.tracks.contains_key(guild_id) ==> after.0.tracks[guild_id].volume == value
                && after.0.tracks[guild_id].source == s.tracks[guild_id].source
            &&& after.0.connections == s.connections
        }),
{
}

/// Every stored volume is from 0 to the maximum, before and after any
/// volume command, query or change.
pub proof fn lemma_stored_volumes_stay_in_range(
    s: SessionView,
    guild_id: u64,
    value: Option<u32>,
    now: i64,
    other: u64,
)
    requires
        s.wf(),
        s.volume(guild_id, value, now).0.volumes.contains_key(other),
    ensures
        0 <= s.volume(guild_id, value, now).0.volumes[other].volume <= s.max_volume,
{
    let after = s.volume(guild_id, value, now).0;
    assert(after.wf());
    assert(after.volumes[other].within(after.max_volume));
}

/// Volume changes for two different guilds do not touch each other: each
/// leaves the other guild's record, track and connection alone, the two
/// give the same sessions in either order, and where both are accepted each
/// guild's record ends up with its own value.
pub proof fn lemma_volume_changes_are_independent(
    s: SessionView,
    g1: u64,
    v1: u32,
    t1: i64,
    g2: u64,
    v2: u32,
    t2: i64,
)
    requires
        s.wf(),
        g1 != g2,
    ensures
        ({
            let one = s.volume(g1, Some(v1), t1).0;
            &&& one.volumes.contains_key(g2) == s.volumes.contains_key(g2)
            &&& s.volumes.contains_key(g2) ==> one.volumes[g2] == s.volumes[g2]
            &&& one.tracks.contains_key(g2) == s.tracks.contains_key(g2)
            &&& s.tracks.contains_key(g2) ==> one.tracks[g2] == s.tracks[g2]
            &&& one.connections == s.connections
            &&& one.volume(g2, Some(v2), t2).1 == s.volume(g2, Some(v2), t2).1
        }),
        s.volume(g1, Some(v1), t1).0.volume(g2, Some(v2), t2).0 == s.volume(g2, Some(v2), t2).0.volume(
            g1,
            Some(v1),
            t1,
        ).0,
        v1 <= s.max_volume && v2 <= s.max_volume ==> ({
            let both = s.volume(g1, Some(v1), t1).0.volume(g2, Some(v2), t2).0;
            &&& both.volumes.contains_key(g1) && both.volumes[g1].volume == v1
            &&& both.volumes.contains_key(g2) && both.volumes[g2].volume == v2
        }),
{
    let a = s.volume(g1, Some(v1), t1).0.volume(g2, Some(v2), t2).0;
    let b = s.volume(g2, Some(v2), t2).0.volume(g1, Some(v1), t1).0;
    assert(a.tracks =~= b.tracks);
    assert(a.volumes =~= b.volumes);
}

/// Every command keeps the sessions well formed: a track exists only
/// where a connection does, and each record's update time is not before
/// its creation time.
pub proof fn lemma_commands_keep_sessions_well_formed(
    s: SessionView,
    guild_id: u64,
    channel_id: u64,
    connected: bool,
    parsed: Option<String>,
    guild: Option<&GuildVoiceStates>,
    user_id: u64,
    value: Option<u32>,
    now: i64,
)
    requires
        s.wf(),
    ensures
        s.dialed(guild_id, channel_id, connected).wf(),
        s.play(guild_id, parsed, guild, user_id, now).0.wf(),
        s.stop(guild_id).0.wf(),
        s.disconnect(guild_id).0.wf(),
        s.severed(guild_id).wf(),
        s.volume(guild_id, value, now).0.wf(),
{
}

} // verus!
