use std::collections::HashMap;
use vstd::prelude::*;
use crate::error::NoActiveTrack;

verus! {

broadcast use vstd::std_specs::hash::group_hash_axioms;

/// The control handle of the one track that streams in a guild: the source
/// that it plays and the gain, in percent, that it plays at.
#[derive(Debug, Clone, PartialEq, Eq)]
pub struct TrackHandle {
    pub guild_id: u64,
    pub source: String,
    pub volume: i64,
}

/// Every handle sits under its own guild id.
pub open spec fn tracks_wf(table: Map<u64, TrackHandle>) -> bool {
    forall|g: u64| #[trigger] table.contains_key(g) ==> table[g].guild_id == g
}

/// The track table after a gain change for `guild_id`.
pub open spec fn regained(table: Map<u64, TrackHandle>, guild_id: u64, volume: i64) -> Map<
    u64,
    TrackHandle,
> {
    if table.contains_key(guild_id) {
        table.insert(guild_id, TrackHandle { volume, ..table[guild_id] })
    } else {
        table
    }
}

/// The single active track of each guild.
pub struct TrackController {
    tracks: HashMap<u64, TrackHandle>,
}

impl View for TrackController {
    type V = Map<u64, TrackHandle>;

    closed spec fn view(&self) -> Map<u64, TrackHandle> {
        self.tracks@
    }
}

impl TrackController {
    pub open spec fn wf(&self) -> bool {
        tracks_wf(self@)
    }

    /// A controller without tracks.
    pub fn new() -> (controller: TrackController)
        ensures
            controller@ == Map::<u64, TrackHandle>::empty(),
            controller.wf(),
    {
        TrackController { tracks: HashMap::new() }
    }

    /// The handle of `guild_id`, if a track is registered.
    pub fn get(&self, guild_id: u64) -> (t: Option<&TrackHandle>)
        ensures
            match t {
                Some(handle) => self@.contains_key(guild_id) && *handle == self@[guild_id],
                None => !self@.contains_key(guild_id),
            },
    {
        self.tracks.get(&guild_id)
    }

    /// Registers a new track for `guild_id` that plays `source` at
    /// `initial_volume` percent. It takes the place of the guild's earlier
    /// track, if there was one.
    pub fn play(&mut self, guild_id: u64, source: String, initial_volume: i64)
        requires
            old(self).wf(),
        ensures
            final(self).wf(),
            final(self)@ == old(self)@.insert(
                guild_id,
                TrackHandle { guild_id, source, volume: initial_volume },
            ),
    {
        self.tracks.insert(guild_id, TrackHandle { guild_id, source, volume: initial_volume });
    }

    /// Stops and removes the track of `guild_id`, and says whether there
    /// was one.
    pub fn stop(&mut self, guild_id: u64) -> (was_playing: bool)
        requires
            old(self).wf(),
        ensures
            final(self).wf(),
            final(self)@ == old(self)@.remove(guild_id),
            was_playing == old(self)@.contains_key(guild_id),
    {
        self.tracks.remove(&guild_id).is_some()
    }

    /// Sets the gain of the guild's track to `volume` percent. Without a
    /// track nothing changes and `NoActiveTrack` comes back.
    pub fn set_volume(&mut self, guild_id: u64, volume: i64) -> (r: Result<(), NoActiveTrack>)
        requires
            old(self).wf(),
        ensures
            final(self).wf(),
            final(self)@ == regained(old(self)@, guild_id, volume),
            r is Ok <==> old(self)@.contains_key(guild_id),
    {
        match self.tracks.remove(&guild_id) {
            Some(held) => {
                self.tracks.insert(
                    guild_id,
                    TrackHandle { guild_id: held.guild_id, source: held.source, volume },
                );
                assert(self.tracks@ =~= regained(old(self)@, guild_id, volume));
                Ok(())
            },
            None => {
                assert(self.tracks@ =~= old(self)@);
                Err(NoActiveTrack)
            },
        }
    }

    /// Forgets the track of `guild_id` without stopping it.
    pub fn clear(&mut self, guild_id: u64)
        requires
            old(self).wf(),
        ensures
            final(self).wf(),
            final(self)@ == old(self)@.remove(guild_id),
    {
        self.tracks.remove(&guild_id);
    }
}

} // verus!
