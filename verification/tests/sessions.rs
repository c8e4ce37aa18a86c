use std::collections::HashMap;

use discomfort_fm::commands::{
    dialed, disconnect, echo, join, pause, play, play_parsed, stop, volume, Coordinator,
};
use discomfort_fm::database::{
    volume_get_or_insert_default, volume_insert_or_update, GuildRow, VolumeStore,
};
use discomfort_fm::error::{
    on_error, Failure, Handling, NoActiveTrack, SetVolumeError, VoiceChannelJoinError,
    VolumeOutOfRange,
};
use discomfort_fm::session::{Phase, Reply, Step, INITIAL_DEFAULT_VOLUME};
use discomfort_fm::tracks::{TrackController, TrackHandle};
use discomfort_fm::voice::{
    try_get_user_voice_channel, try_join_user_voice_channel, Dial, Event, EventContext,
    GuildVoiceStates, JoinPlan, Joined, PlayState, TrackErrorNotifier, TrackReport, VoiceConnection,
    VoiceSessionRegistry,
};

fn guild_with(guild_id: u64, user_id: u64, channel: Option<u64>) -> GuildVoiceStates {
    let mut voice_states = HashMap::new();
    voice_states.insert(user_id, channel);
    GuildVoiceStates { guild_id, voice_states }
}

fn track(guild_id: u64, source: &str, volume: i64) -> TrackHandle {
    TrackHandle { guild_id, source: source.to_string(), volume }
}

fn connected(guild_id: u64, channel_id: u64) -> Coordinator {
    let mut state = Coordinator::new(100);
    let r = dialed(&mut state, guild_id, channel_id, Dial::Connected);
    assert_eq!(r, Ok(Joined::Created(VoiceConnection { guild_id, channel_id })));
    state
}

#[test]
fn first_lookup_creates_default_record() {
    let mut store = VolumeStore::new(100);
    assert_eq!(store.get(42), None);
    assert_eq!(volume_get_or_insert_default(&mut store, 42, 100, 1_000), 100);
    assert_eq!(
        store.get(42),
        Some(GuildRow { id: 42, volume: 100, created_at: 1_000, updated_at: Some(1_000) })
    );
    // a second lookup with another default keeps the record
    assert_eq!(volume_get_or_insert_default(&mut store, 42, 30, 2_000), 100);
    assert_eq!(store.get(42).unwrap().created_at, 1_000);
}

#[test]
fn upsert_creates_then_updates() {
    let mut store = VolumeStore::new(100);
    assert_eq!(volume_insert_or_update(&mut store, 7, 55, 10), Ok(()));
    assert_eq!(
        store.get(7),
        Some(GuildRow { id: 7, volume: 55, created_at: 10, updated_at: Some(10) })
    );
    assert_eq!(volume_insert_or_update(&mut store, 7, 20, 30), Ok(()));
    assert_eq!(
        store.get(7),
        Some(GuildRow { id: 7, volume: 20, created_at: 10, updated_at: Some(30) })
    );
    assert_eq!(volume_get_or_insert_default(&mut store, 7, 100, 40), 20);
}

#[test]
fn upsert_with_clock_gone_back_keeps_update_after_creation() {
    let mut store = VolumeStore::new(100);
    assert_eq!(volume_insert_or_update(&mut store, 7, 55, 100), Ok(()));
    assert_eq!(volume_insert_or_update(&mut store, 7, 60, 50), Ok(()));
    let row = store.get(7).unwrap();
    assert_eq!(row.volume, 60);
    assert_eq!(row.created_at, 100);
    assert_eq!(row.updated_at, Some(100));
}

#[test]
fn restore_takes_well_formed_rows_only() {
    let mut store = VolumeStore::new(100);
    assert!(store.restore(GuildRow { id: 1, volume: 5, created_at: 10, updated_at: None }));
    assert!(!store.restore(GuildRow { id: 2, volume: 5, created_at: 10, updated_at: Some(9) }));
    assert!(!store.restore(GuildRow { id: 3, volume: -1, created_at: 10, updated_at: None }));
    assert!(!store.restore(GuildRow { id: 4, volume: 101, created_at: 10, updated_at: None }));
    assert!(store.restore(GuildRow { id: 5, volume: 100, created_at: 10, updated_at: None }));
    assert!(store.restore(GuildRow { id: 6, volume: 0, created_at: 10, updated_at: Some(10) }));
    assert_eq!(store.get(1).unwrap().volume, 5);
    assert_eq!(store.get(2), None);
    assert_eq!(store.get(3), None);
    assert_eq!(store.get(4), None);
    assert_eq!(store.get(5).unwrap().volume, 100);
}

#[test]
fn upsert_refuses_volumes_out_of_range() {
    let mut store = VolumeStore::new(100);
    assert_eq!(volume_insert_or_update(&mut store, 7, -1, 10), Err(VolumeOutOfRange));
    assert_eq!(volume_insert_or_update(&mut store, 7, 101, 10), Err(VolumeOutOfRange));
    assert_eq!(store.get(7), None);
    assert_eq!(volume_insert_or_update(&mut store, 7, 100, 10), Ok(()));
    assert_eq!(volume_insert_or_update(&mut store, 7, 0, 11), Ok(()));
    assert_eq!(volume_insert_or_update(&mut store, 7, 101, 12), Err(VolumeOutOfRange));
    assert_eq!(
        store.get(7),
        Some(GuildRow { id: 7, volume: 0, created_at: 10, updated_at: Some(11) })
    );
}

#[test]
fn default_is_held_to_the_range() {
    let mut store = VolumeStore::new(50);
    assert_eq!(store.max_volume(), 50);
    assert_eq!(volume_get_or_insert_default(&mut store, 1, 100, 5), 50);
    assert_eq!(store.get(1).unwrap().volume, 50);
    assert_eq!(volume_get_or_insert_default(&mut store, 2, -3, 5), 0);
    assert_eq!(volume_get_or_insert_default(&mut store, 3, 50, 5), 50);
    assert_eq!(volume_get_or_insert_default(&mut store, 4, 20, 5), 20);
    let mut state = Coordinator::new(50);
    assert_eq!(volume(&mut state, 9, None, 1), Reply::VolumeIs { stored: 50 });
    assert_eq!(state.volume_record(9).unwrap().volume, 50);
}

#[test]
fn revert_puts_the_record_back() {
    let mut state = Coordinator::new(100);
    let before = state.volume_record(5);
    assert_eq!(volume(&mut state, 5, Some(30), 9), Reply::VolumeSet { volume: 30 });
    assert!(state.volume_write_failed(5, before));
    assert_eq!(state.volume_record(5), None);
    volume(&mut state, 5, Some(30), 9);
    let before = state.volume_record(5);
    volume(&mut state, 5, Some(60), 12);
    assert_eq!(state.volume_record(5).unwrap().volume, 60);
    assert!(state.volume_write_failed(5, before));
    assert_eq!(
        state.volume_record(5),
        Some(GuildRow { id: 5, volume: 30, created_at: 9, updated_at: Some(9) })
    );
    // a record of another guild, or one out of range, is not taken
    assert!(!state.volume_write_failed(6, before));
    let bad = GuildRow { id: 5, volume: 300, created_at: 9, updated_at: None };
    assert!(!state.volume_write_failed(5, Some(bad)));
    assert_eq!(state.volume_record(5).unwrap().volume, 30);
    assert_eq!(state.volume_record(6), None);
}

#[test]
fn volume_above_maximum_is_rejected() {
    let mut state = connected(42, 7);
    assert_eq!(volume(&mut state, 42, None, 1), Reply::VolumeIs { stored: 100 });
    assert_eq!(
        play_parsed(&mut state, 42, Some("http://stream/".to_string()), None, 1, 2),
        Step::Done(Reply::Playing { url: "http://stream/".to_string() })
    );
    let before_row = state.volume_record(42);
    let before_track = state.track(42).cloned();
    assert_eq!(
        volume(&mut state, 42, Some(150), 3),
        Reply::VolumeTooHigh { requested: 150, max_volume: 100 }
    );
    assert_eq!(state.volume_record(42), before_row);
    assert_eq!(state.track(42).cloned(), before_track);
    assert_eq!(before_track, Some(track(42, "http://stream/", 100)));
    assert_eq!(state.volume_record(42).unwrap().volume, 100);
    // the maximum itself is accepted
    assert_eq!(volume(&mut state, 42, Some(100), 4), Reply::VolumeSet { volume: 100 });
}

#[test]
fn volume_set_applies_gain_and_persists() {
    let mut state = connected(42, 7);
    play_parsed(&mut state, 42, Some("http://stream/".to_string()), None, 1, 2);
    assert_eq!(state.track(42), Some(&track(42, "http://stream/", 100)));
    assert_eq!(volume(&mut state, 42, Some(35), 9), Reply::VolumeSet { volume: 35 });
    assert_eq!(state.track(42), Some(&track(42, "http://stream/", 35)));
    assert_eq!(
        state.volume_record(42),
        Some(GuildRow { id: 42, volume: 35, created_at: 2, updated_at: Some(9) })
    );
    assert_eq!(volume(&mut state, 42, None, 10), Reply::VolumeIs { stored: 35 });
}

#[test]
fn volume_set_without_track_still_persists() {
    let mut state = Coordinator::new(100);
    assert_eq!(volume(&mut state, 5, Some(0), 9), Reply::VolumeSet { volume: 0 });
    assert_eq!(state.track(5), None);
    assert_eq!(state.volume_record(5).unwrap().volume, 0);
}

#[test]
fn maximum_is_held_to_what_a_record_holds() {
    let mut state = Coordinator::new(u32::MAX);
    assert_eq!(state.max_volume(), 2_147_483_647);
    assert_eq!(
        volume(&mut state, 5, Some(3_000_000_000), 9),
        Reply::VolumeTooHigh { requested: 3_000_000_000, max_volume: 2_147_483_647 }
    );
    assert_eq!(state.volume_record(5), None);
    assert_eq!(
        volume(&mut state, 5, Some(4_294_967_295), 9),
        Reply::VolumeTooHigh { requested: 4_294_967_295, max_volume: 2_147_483_647 }
    );
    assert_eq!(
        volume(&mut state, 5, Some(2_147_483_648), 9),
        Reply::VolumeTooHigh { requested: 2_147_483_648, max_volume: 2_147_483_647 }
    );
    assert_eq!(state.volume_record(5), None);
    assert_eq!(
        volume(&mut state, 5, Some(2_147_483_647), 9),
        Reply::VolumeSet { volume: 2_147_483_647 }
    );
    assert_eq!(state.volume_record(5).unwrap().volume, i32::MAX);
    assert_eq!(Coordinator::new(2_147_483_647).max_volume(), 2_147_483_647);
    assert_eq!(Coordinator::new(2_147_483_648).max_volume(), 2_147_483_647);
    assert_eq!(Coordinator::new(0).max_volume(), 0);
}

#[test]
fn accepted_volume_is_stored_as_given() {
    for v in [0u32, 1, 50, 99, 100] {
        let mut state = connected(42, 7);
        play_parsed(&mut state, 42, Some("http://a/".to_string()), None, 1, 2);
        assert_eq!(volume(&mut state, 42, Some(v), 3), Reply::VolumeSet { volume: v });
        assert_eq!(state.volume_record(42).unwrap().volume, v as i32);
        assert_eq!(state.track(42).unwrap().volume, v as i64);
        assert_eq!(state.track(42).unwrap().source, "http://a/");
        let mut idle = Coordinator::new(100);
        assert_eq!(volume(&mut idle, 42, Some(v), 3), Reply::VolumeSet { volume: v });
        assert_eq!(idle.volume_record(42).unwrap().volume, v as i32);
        assert_eq!(idle.track(42), None);
    }
}

#[test]
fn join_twice_returns_same_connection() {
    let mut registry = VoiceSessionRegistry::new();
    let first = registry.join(42, 7, Dial::Connected);
    let second = registry.join(42, 8, Dial::Connected);
    let connection = VoiceConnection { guild_id: 42, channel_id: 7 };
    assert_eq!(first, Ok(Joined::Created(connection)));
    assert_eq!(second, Ok(Joined::Reused(connection)));
    assert_eq!(first.as_ref().unwrap().connection(), second.as_ref().unwrap().connection());
    assert_eq!(registry.get(42), Some(VoiceConnection { guild_id: 42, channel_id: 7 }));
    // an existing connection is handed back even where a dial is reported as refused
    assert_eq!(registry.join(42, 7, Dial::Rejected("late".to_string())), second);
}

#[test]
fn join_failure_registers_nothing() {
    let mut registry = VoiceSessionRegistry::new();
    let r = registry.join(42, 7, Dial::Rejected("timed out".to_string()));
    assert_eq!(r, Err(VoiceChannelJoinError::Other("timed out".to_string())));
    assert_eq!(registry.get(42), None);
    let mut state = Coordinator::new(100);
    let r = dialed(&mut state, 42, 7, Dial::Rejected("timed out".to_string()));
    assert_eq!(r, Err(VoiceChannelJoinError::Other("timed out".to_string())));
    assert_eq!(state.connection(42), None);
}

#[test]
fn leave_is_noop_when_absent() {
    let mut registry = VoiceSessionRegistry::new();
    assert!(!registry.leave(1));
    registry.join(1, 2, Dial::Connected).unwrap();
    assert!(registry.leave(1));
    assert_eq!(registry.get(1), None);
}

#[test]
fn join_command_while_connected_is_success() {
    let state = connected(42, 7);
    assert_eq!(join(&state, 42, Some(9), None, 1), Step::Done(Reply::Joined));
    assert_eq!(join(&state, 42, None, None, 1), Step::Done(Reply::Joined));
    assert_eq!(state.connection(42), Some(VoiceConnection { guild_id: 42, channel_id: 7 }));
}

#[test]
fn join_command_resolves_target() {
    let state = Coordinator::new(100);
    let guild = guild_with(42, 1, Some(7));
    assert_eq!(
        join(&state, 42, Some(9), Some(&guild), 1),
        Step::Dial { guild_id: 42, channel_id: 9 }
    );
    assert_eq!(
        join(&state, 42, None, Some(&guild), 1),
        Step::Dial { guild_id: 42, channel_id: 7 }
    );
    assert_eq!(join(&state, 42, None, Some(&guild), 2), Step::Done(Reply::NotInVoiceChannel));
    let idle = guild_with(42, 1, None);
    assert_eq!(join(&state, 42, None, Some(&idle), 1), Step::Done(Reply::NotInVoiceChannel));
    assert_eq!(join(&state, 42, None, None, 1), Step::GuildUnknown);
}

#[test]
fn join_play_stop_disconnect_in_turn() {
    let mut state = Coordinator::new(100);
    let guild = guild_with(42, 1, Some(7));
    // join, then play
    assert_eq!(
        join(&state, 42, None, Some(&guild), 1),
        Step::Dial { guild_id: 42, channel_id: 7 }
    );
    assert!(dialed(&mut state, 42, 7, Dial::Connected).is_ok());
    assert_eq!(
        play(&mut state, 42, "http://stream", Some(&guild), 1, 5),
        Step::Done(Reply::Playing { url: "http://stream/".to_string() })
    );
    assert!(state.connection(42).is_some());
    assert_eq!(state.track(42), Some(&track(42, "http://stream/", 100)));
    assert_eq!(state.volume_record(42).unwrap().volume, INITIAL_DEFAULT_VOLUME);
    // stop
    assert_eq!(stop(&mut state, 42), Reply::Stopping);
    assert_eq!(state.track(42), None);
    assert_eq!(state.connection(42), Some(VoiceConnection { guild_id: 42, channel_id: 7 }));
    // disconnect
    assert_eq!(disconnect(&mut state, 42), Reply::Goodbye);
    assert_eq!(state.track(42), None);
    assert_eq!(state.connection(42), None);
}

#[test]
fn play_without_channel_stays_disconnected() {
    let mut state = Coordinator::new(100);
    let guild = guild_with(99, 2, Some(7));
    assert_eq!(
        play(&mut state, 99, "http://stream", Some(&guild), 1, 5),
        Step::Done(Reply::NotInVoiceChannel)
    );
    assert_eq!(state.connection(99), None);
    assert_eq!(state.track(99), None);
    assert_eq!(state.volume_record(99), None);
}

#[test]
fn play_with_invalid_url_changes_nothing() {
    let mut state = connected(42, 7);
    assert_eq!(play(&mut state, 42, "not a url", None, 1, 5), Step::Done(Reply::InvalidUrl));
    assert_eq!(play(&mut state, 42, "", None, 1, 5), Step::Done(Reply::InvalidUrl));
    assert_eq!(state.track(42), None);
    assert_eq!(state.volume_record(42), None);
    // the URL is looked at before the connection
    let mut fresh = Coordinator::new(100);
    assert_eq!(play(&mut fresh, 1, "::", None, 1, 5), Step::Done(Reply::InvalidUrl));
}

#[test]
fn play_writes_url_in_normal_form() {
    let mut state = connected(42, 7);
    assert_eq!(
        play(&mut state, 42, "HTTP://Example.COM/live stream", None, 1, 5),
        Step::Done(Reply::Playing { url: "http://example.com/live%20stream".to_string() })
    );
}

#[test]
fn play_uses_stored_volume_and_replaces_track() {
    let mut state = connected(42, 7);
    assert_eq!(volume(&mut state, 42, Some(40), 1), Reply::VolumeSet { volume: 40 });
    play_parsed(&mut state, 42, Some("http://a/".to_string()), None, 1, 2);
    assert_eq!(state.track(42), Some(&track(42, "http://a/", 40)));
    volume(&mut state, 42, Some(60), 3);
    play_parsed(&mut state, 42, Some("http://b/".to_string()), None, 1, 4);
    assert_eq!(state.track(42), Some(&track(42, "http://b/", 60)));
}

#[test]
fn play_after_disconnect_resolves_channel_again() {
    let mut state = connected(42, 7);
    play_parsed(&mut state, 42, Some("http://a/".to_string()), None, 1, 2);
    assert_eq!(disconnect(&mut state, 42), Reply::Goodbye);
    let guild = guild_with(42, 1, Some(8));
    assert_eq!(
        play(&mut state, 42, "http://stream", Some(&guild), 1, 5),
        Step::Dial { guild_id: 42, channel_id: 8 }
    );
    assert_eq!(state.track(42), None);
    assert_eq!(play(&mut state, 42, "http://stream", None, 1, 5), Step::GuildUnknown);
}

#[test]
fn stop_without_connection_or_track_is_noop() {
    let mut state = Coordinator::new(100);
    assert_eq!(stop(&mut state, 42), Reply::NotConnected);
    let mut state = connected(42, 7);
    assert_eq!(stop(&mut state, 42), Reply::NothingPlaying);
    assert!(state.connection(42).is_some());
}

#[test]
fn disconnect_without_connection_is_noop() {
    let mut state = Coordinator::new(100);
    assert_eq!(disconnect(&mut state, 42), Reply::NotConnected);
}

#[test]
fn severed_connection_drops_track() {
    let mut state = connected(42, 7);
    play_parsed(&mut state, 42, Some("http://a/".to_string()), None, 1, 2);
    state.severed(42);
    assert_eq!(state.connection(42), None);
    assert_eq!(state.track(42), None);
    assert_eq!(state.volume_record(42).unwrap().volume, 100);
}

#[test]
fn volume_changes_of_two_guilds_are_independent() {
    let mut a = connected(1, 10);
    dialed(&mut a, 2, 20, Dial::Connected).unwrap();
    play_parsed(&mut a, 1, Some("http://a/".to_string()), None, 1, 1);
    play_parsed(&mut a, 2, Some("http://b/".to_string()), None, 1, 1);
    let mut b = connected(1, 10);
    dialed(&mut b, 2, 20, Dial::Connected).unwrap();
    play_parsed(&mut b, 1, Some("http://a/".to_string()), None, 1, 1);
    play_parsed(&mut b, 2, Some("http://b/".to_string()), None, 1, 1);
    volume(&mut a, 1, Some(30), 5);
    volume(&mut a, 2, Some(70), 6);
    volume(&mut b, 2, Some(70), 6);
    volume(&mut b, 1, Some(30), 5);
    for g in [1u64, 2u64] {
        assert_eq!(a.volume_record(g), b.volume_record(g));
        assert_eq!(a.track(g), b.track(g));
        assert_eq!(a.connection(g), b.connection(g));
    }
    assert_eq!(a.track(1).unwrap().volume, 30);
    assert_eq!(a.track(2).unwrap().volume, 70);
    assert_eq!(a.volume_record(1).unwrap().volume, 30);
    assert_eq!(a.volume_record(2).unwrap().volume, 70);
}

#[test]
fn pause_and_echo_reply_only() {
    let state = Coordinator::new(100);
    assert_eq!(pause(&state), Reply::PauseUnavailable);
    assert_eq!(echo("hi".to_string()), Reply::Echo { message: "hi".to_string() });
    assert_eq!(state.max_volume(), 100);
}

#[test]
fn user_channel_lookup() {
    let guild = guild_with(42, 1, Some(7));
    assert_eq!(try_get_user_voice_channel(Some(&guild), 1), Ok(7));
    assert_eq!(
        try_get_user_voice_channel(Some(&guild), 2),
        Err(VoiceChannelJoinError::UserNotInVoiceChannel)
    );
    assert!(matches!(
        try_get_user_voice_channel(None, 1),
        Err(VoiceChannelJoinError::Other(_))
    ));
}

#[test]
fn join_plan_of_user_channel() {
    let mut registry = VoiceSessionRegistry::new();
    let guild = guild_with(42, 1, Some(7));
    assert_eq!(
        try_join_user_voice_channel(&registry, 42, Some(&guild), 1),
        Ok(JoinPlan::Dial { guild_id: 42, channel_id: 7 })
    );
    registry.join(42, 3, Dial::Connected).unwrap();
    assert_eq!(
        try_join_user_voice_channel(&registry, 42, Some(&guild), 1),
        Ok(JoinPlan::Existing(VoiceConnection { guild_id: 42, channel_id: 3 }))
    );
    assert_eq!(
        try_join_user_voice_channel(&registry, 42, Some(&guild), 2),
        Err(VoiceChannelJoinError::UserNotInVoiceChannel)
    );
}

#[test]
fn track_controller_operations() {
    let mut tracks = TrackController::new();
    assert_eq!(tracks.set_volume(1, 50), Err(NoActiveTrack));
    assert!(!tracks.stop(1));
    tracks.play(1, "http://a/".to_string(), 80);
    assert_eq!(tracks.get(1), Some(&track(1, "http://a/", 80)));
    tracks.play(1, "http://b/".to_string(), 90);
    assert_eq!(tracks.get(1), Some(&track(1, "http://b/", 90)));
    assert_eq!(tracks.set_volume(1, 50), Ok(()));
    assert_eq!(tracks.get(1), Some(&track(1, "http://b/", 50)));
    tracks.clear(1);
    assert_eq!(tracks.get(1), None);
    tracks.play(2, "http://c/".to_string(), 10);
    assert!(tracks.stop(2));
    assert_eq!(tracks.get(2), None);
}

#[test]
fn notifier_reports_and_asks_nothing() {
    let notifier = TrackErrorNotifier;
    let report = TrackReport { uuid_high: 1, uuid_low: 2, state: PlayState::Errored };
    let ctx = EventContext::Track(vec![report, report]);
    let none: Option<Event> = None;
    assert_eq!(notifier.act(&ctx), none);
    assert_eq!(notifier.entries(&ctx), 2);
    assert_eq!(notifier.entry(&ctx, 1), report);
    assert_eq!(notifier.act(&EventContext::Other), none);
    assert_eq!(notifier.entries(&EventContext::Other), 0);
}

#[test]
fn set_volume_reports_missing_track_and_stores_anyway() {
    let mut state = connected(42, 7);
    assert_eq!(state.set_volume(42, 25, 3), Err(SetVolumeError::NoActiveTrack));
    assert_eq!(
        state.volume_record(42),
        Some(GuildRow { id: 42, volume: 25, created_at: 3, updated_at: Some(3) })
    );
    play_parsed(&mut state, 42, Some("http://a/".to_string()), None, 1, 4);
    assert_eq!(state.set_volume(42, 75, 5), Ok(()));
    assert_eq!(state.track(42), Some(&track(42, "http://a/", 75)));
    assert_eq!(state.volume_record(42).unwrap().volume, 75);
    assert_eq!(state.volume_record(42).unwrap().updated_at, Some(5));
    assert_eq!(state.set_volume(42, 101, 6), Err(SetVolumeError::AboveMaximum));
    assert_eq!(state.track(42), Some(&track(42, "http://a/", 75)));
    assert_eq!(state.volume_record(42).unwrap().volume, 75);
    assert_eq!(state.volume_record(42).unwrap().updated_at, Some(5));
}

#[test]
fn one_listener_is_due_on_a_new_connection_only() {
    let mut state = Coordinator::new(100);
    let first = dialed(&mut state, 42, 7, Dial::Connected).unwrap();
    assert_eq!(first, Joined::Created(VoiceConnection { guild_id: 42, channel_id: 7 }));
    assert_eq!(first.listeners_due(), 1);
    let second = dialed(&mut state, 42, 8, Dial::Connected).unwrap();
    assert_eq!(second, Joined::Reused(VoiceConnection { guild_id: 42, channel_id: 7 }));
    assert_eq!(second.listeners_due(), 0);
    assert_eq!(second.connection(), first.connection());
    // after a disconnect the next connection is new again
    disconnect(&mut state, 42);
    let third = dialed(&mut state, 42, 8, Dial::Connected).unwrap();
    assert_eq!(third, Joined::Created(VoiceConnection { guild_id: 42, channel_id: 8 }));
    assert_eq!(third.listeners_due(), 1);
    assert!(dialed(&mut state, 43, 1, Dial::Rejected("no".to_string())).is_err());
}

#[test]
fn phases_follow_the_commands() {
    let mut state = Coordinator::new(100);
    assert_eq!(state.phase(42), Phase::Disconnected);
    dialed(&mut state, 42, 7, Dial::Connected).unwrap();
    assert_eq!(state.phase(42), Phase::ConnectedIdle);
    assert_eq!(state.phase(43), Phase::Disconnected);
    play_parsed(&mut state, 42, Some("http://a/".to_string()), None, 1, 4);
    assert_eq!(state.phase(42), Phase::ConnectedPlaying);
    stop(&mut state, 42);
    assert_eq!(state.phase(42), Phase::ConnectedIdle);
    play_parsed(&mut state, 42, Some("http://a/".to_string()), None, 1, 4);
    disconnect(&mut state, 42);
    assert_eq!(state.phase(42), Phase::Disconnected);
}

#[test]
fn only_a_failed_setup_aborts() {
    assert_eq!(on_error(Failure::Setup), Handling::Abort);
    assert_eq!(on_error(Failure::Command), Handling::Apologise);
    assert_eq!(on_error(Failure::Framework), Handling::Delegate);
}
