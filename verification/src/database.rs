use std::collections::HashMap;
use vstd::prelude::*;
use crate::decimal::{decimal_u64_of, parse_u64};
use crate::error::VolumeOutOfRange;

verus! {

broadcast use vstd::std_specs::hash::group_hash_axioms;

/// Milliseconds since the Unix epoch, if `text` is a timestamp that
/// `chrono` reads as a `DateTime<Utc>`.
pub uninterp spec fn timestamp_millis_of(text: Seq<char>) -> Option<i64>;

/// Calls `<chrono::DateTime<chrono::Utc> as FromStr>::from_str` and, where it
/// succeeds, `DateTime::timestamp_millis`. The parse depends on the text
/// alone, so its outcome is given the name `timestamp_millis_of`.
#[verifier::external_body]
fn parse_timestamp(text: &str) -> (r: Option<i64>)
    ensures
        r == timestamp_millis_of(text@),
{
    match text.parse::<chrono::DateTime<chrono::Utc>>() {
        Ok(t) => Some(t.timestamp_millis()),
        Err(_) => None,
    }
}

/// A typed row that is built from its textual form.
pub trait FromRawRow: Sized {
    type RawRow;

    /// Whether `raw_row` can be read as a typed row.
    spec fn readable(raw_row: &Self::RawRow) -> bool;

    /// The typed row that a readable `raw_row` stands for.
    spec fn row_of(raw_row: &Self::RawRow) -> Self;

    fn from_raw_row(raw_row: Self::RawRow) -> (row: Self)
        requires
            Self::readable(&raw_row),
        ensures
            row == Self::row_of(&raw_row),
    ;
}

/// A guild's row as the database hands it out: every column but the volume
/// is text.
#[derive(Debug, Clone)]
pub struct GuildRowRaw {
    pub id: String,
    pub volume: i32,
    pub created_at: String,
    pub updated_at: Option<String>,
}

/// A guild's volume record. Timestamps are milliseconds since the Unix
/// epoch.
#[derive(Debug, Clone, Copy, PartialEq, Eq, Structural)]
pub struct GuildRow {
    pub id: u64,
    pub volume: i32,
    pub created_at: i64,
    pub updated_at: Option<i64>,
}

impl GuildRow {
    /// The record was not updated before it was created.
    pub open spec fn wf(self) -> bool {
        self.updated_at matches Some(t) ==> t >= self.created_at
    }

    /// The volume is an amount from 0 to `max_volume`.
    pub open spec fn within(self, max_volume: u32) -> bool {
        0 <= self.volume <= max_volume
    }

    /// What `raw` reads as, column by column; `None` where a column cannot
    /// be read or the id is zero.
    pub open spec fn read(raw: &GuildRowRaw) -> Option<GuildRow> {
        Self::assemble(
            decimal_u64_of(raw.id@),
            raw.volume,
            timestamp_millis_of(raw.created_at@),
            match raw.updated_at {
                None => Some(None),
                Some(text) => match timestamp_millis_of(text@) {
                    None => None,
                    Some(t) => Some(Some(t)),
                },
            },
        )
    }

    /// Builds the row from columns that were already read.
    pub fn from_columns(
        id: Option<u64>,
        volume: i32,
        created_at: Option<i64>,
        updated_at: Option<Option<i64>>,
    ) -> (row: Option<GuildRow>)
        ensures
            row == Self::assemble(id, volume, created_at, updated_at),
    {
        match (id, created_at, updated_at) {
            (Some(id), Some(created_at), Some(updated_at)) => {
                if id == 0 {
                    None
                } else {
                    Some(GuildRow { id, volume, created_at, updated_at })
                }
            },
            _ => None,
        }
    }

    /// The row that the read columns make: none where one of them could not
    /// be read (an outer `None`) or where the id is zero.
    pub open spec fn assemble(
        id: Option<u64>,
        volume: i32,
        created_at: Option<i64>,
        updated_at: Option<Option<i64>>,
    ) -> Option<GuildRow> {
        if id is Some && id != Some(0u64) && created_at is Some && updated_at is Some {
            Some(
                GuildRow {
                    id: id->Some_0,
                    volume,
                    created_at: created_at->Some_0,
                    updated_at: updated_at->Some_0,
                },
            )
        } else {
            None
        }
    }

    /// Reads `raw_row`, or says that one of its columns is unreadable.
    pub fn try_from_raw_row(raw_row: GuildRowRaw) -> (row: Option<GuildRow>)
        ensures
            row == Self::read(&raw_row),
    {
        if Self::columns(&raw_row).is_some() {
            Some(GuildRow::from_raw_row(raw_row))
        } else {
            None
        }
    }

    /// Reads the columns of `raw_row` one by one.
    fn columns(raw_row: &GuildRowRaw) -> (row: Option<GuildRow>)
        ensures
            row == Self::read(raw_row),
    {
        let id = parse_u64(raw_row.id.as_str());
        let created_at = parse_timestamp(raw_row.created_at.as_str());
        let updated_at = match &raw_row.updated_at {
            None => Some(None),
            Some(text) => match parse_timestamp(text.as_str()) {
                None => None,
                Some(t) => Some(Some(t)),
            },
        };
        Self::from_columns(id, raw_row.volume, created_at, updated_at)
    }
}

impl FromRawRow for GuildRow {
    type RawRow = GuildRowRaw;

    open spec fn readable(raw_row: &GuildRowRaw) -> bool {
        GuildRow::read(raw_row) is Some
    }

    open spec fn row_of(raw_row: &GuildRowRaw) -> GuildRow {
        GuildRow::read(raw_row)->Some_0
    }

    fn from_raw_row(raw_row: GuildRowRaw) -> (row: GuildRow) {
        let row = GuildRow::columns(&raw_row);
        row.unwrap()
    }
}

/// The record that a first write for `guild_id` at `now` creates.
pub open spec fn created_row(guild_id: u64, volume: i32, now: i64) -> GuildRow {
    GuildRow { id: guild_id, volume, created_at: now, updated_at: Some(now) }
}

/// `row` after a write of `volume` at `now`. The update time never falls
/// behind the creation time, also where the clock went back.
pub open spec fn updated_row(row: GuildRow, volume: i32, now: i64) -> GuildRow {
    GuildRow {
        volume,
        updated_at: Some(if now >= row.created_at { now } else { row.created_at }),
        ..row
    }
}

/// The table after an upsert of `volume` for `guild_id` at `now`.
pub open spec fn upserted(
    table: Map<u64, GuildRow>,
    guild_id: u64,
    volume: i32,
    now: i64,
) -> Map<u64, GuildRow> {
    if table.contains_key(guild_id) {
        table.insert(guild_id, updated_row(table[guild_id], volume, now))
    } else {
        table.insert(guild_id, created_row(guild_id, volume, now))
    }
}

/// The table after a lookup that creates a missing record with
/// `default_volume`.
pub open spec fn defaulted(
    table: Map<u64, GuildRow>,
    guild_id: u64,
    default_volume: i32,
    now: i64,
) -> Map<u64, GuildRow> {
    if table.contains_key(guild_id) {
        table
    } else {
        table.insert(guild_id, created_row(guild_id, default_volume, now))
    }
}

/// The stored volume of `guild_id`, or `default_volume` where it has none.
pub open spec fn volume_or(table: Map<u64, GuildRow>, guild_id: u64, default_volume: i32) -> i32 {
    if table.contains_key(guild_id) {
        table[guild_id].volume
    } else {
        default_volume
    }
}

/// The largest volume that a record can hold.
pub const MAX_STORED_VOLUME: u32 = 0x7fff_ffff;

/// The maximum that a store works with: the configured one, held to what a
/// record can hold.
pub open spec fn bounded_maximum(max_volume: u32) -> u32 {
    if max_volume > MAX_STORED_VOLUME {
        MAX_STORED_VOLUME
    } else {
        max_volume
    }
}

/// `volume` brought into the range from 0 to `max_volume`.
pub open spec fn clamped(volume: i32, max_volume: u32) -> i32 {
    if volume < 0 {
        0
    } else if volume > max_volume {
        max_volume as i32
    } else {
        volume
    }
}

/// Every record sits under its own guild id, was not updated before it was
/// created, and holds a volume from 0 to `max_volume`.
pub open spec fn table_wf(table: Map<u64, GuildRow>, max_volume: u32) -> bool {
    forall|g: u64| #[trigger]
        table.contains_key(g) ==> table[g].id == g && table[g].wf() && table[g].within(max_volume)
}

/// The per-guild volume records, with the maximum that a volume may have.
pub struct VolumeStore {
    rows: HashMap<u64, GuildRow>,
    max_volume: u32,
}

impl View for VolumeStore {
    type V = Map<u64, GuildRow>;

    closed spec fn view(&self) -> Map<u64, GuildRow> {
        self.rows@
    }
}

impl VolumeStore {
    /// The maximum that a stored volume may have.
    pub closed spec fn limit(&self) -> u32 {
        self.max_volume
    }

    /// One record per guild, each under its own id, well formed and within
    /// the maximum, which is itself a volume that a record can hold.
    pub open spec fn wf(&self) -> bool {
        self.limit() <= MAX_STORED_VOLUME && table_wf(self@, self.limit())
    }

    /// A store without records. A maximum beyond what a record can hold is
    /// brought down to that.
    pub fn new(max_volume: u32) -> (store: VolumeStore)
        ensures
            store@ == Map::<u64, GuildRow>::empty(),
            store.limit() == bounded_maximum(max_volume),
            store.wf(),
    {
        let max_volume = if max_volume > MAX_STORED_VOLUME {
            MAX_STORED_VOLUME
        } else {
            max_volume
        };
        VolumeStore { rows: HashMap::new(), max_volume }
    }

    /// The maximum that a stored volume may have.
    pub fn max_volume(&self) -> (m: u32)
        ensures
            m == self.limit(),
    {
        self.max_volume
    }

    /// The record of `guild_id`, if there is one. Creates nothing.
    pub fn get(&self, guild_id: u64) -> (row: Option<GuildRow>)
        ensures
            row == (if self@.contains_key(guild_id) {
                Some(self@[guild_id])
            } else {
                None
            }),
    {
        match self.rows.get(&guild_id) {
            Some(row) => Some(*row),
            None => None,
        }
    }

    /// Whether the store can hold `row`: it is well formed and its volume is
    /// within the maximum.
    pub fn admits(&self, row: &GuildRow) -> (fits: bool)
        ensures
            fits == (row.wf() && row.within(self.limit())),
    {
        let in_order = match row.updated_at {
            Some(t) => t >= row.created_at,
            None => true,
        };
        in_order && row.volume >= 0 && row.volume as i64 <= self.max_volume as i64
    }

    /// Takes in a record that was read from the database, replacing the
    /// one held for its guild. A record that the store cannot hold is left
    /// out.
    pub fn restore(&mut self, row: GuildRow) -> (taken: bool)
        requires
            old(self).wf(),
        ensures
            final(self).wf(),
            final(self).limit() == old(self).limit(),
            taken == (row.wf() && row.within(old(self).limit())),
            final(self)@ == (if taken {
                old(self)@.insert(row.id, row)
            } else {
                old(self)@
            }),
    {
        let fits = self.admits(&row);
        if fits {
            self.rows.insert(row.id, row);
        }
        fits
    }

    /// Puts the record of `guild_id` back to what it was before a write
    /// that could not be kept on disk: `before`, or no record. A `before`
    /// that belongs to another guild or that the store cannot hold changes
    /// nothing.
    pub fn revert(&mut self, guild_id: u64, before: Option<GuildRow>) -> (done: bool)
        requires
            old(self).wf(),
        ensures
            final(self).wf(),
            final(self).limit() == old(self).limit(),
            done == (before matches Some(row) ==> row.id == guild_id && row.wf() && row.within(
                old(self).limit(),
            )),
            final(self)@ == (if !done {
                old(self)@
            } else {
                match before {
                    Some(row) => old(self)@.insert(guild_id, row),
                    None => old(self)@.remove(guild_id),
                }
            }),
    {
        match before {
            None => {
                self.rows.remove(&guild_id);
                true
            },
            Some(row) => {
                if row.id == guild_id && self.admits(&row) {
                    self.rows.insert(guild_id, row);
                    true
                } else {
                    false
                }
            },
        }
    }
}

/// Writes `volume` for `guild_id`: creates the record where there is none,
/// else replaces the volume and the update time. The last write wins. A
/// volume below 0 or above the store's maximum is refused and nothing
/// changes.
pub fn volume_insert_or_update(store: &mut VolumeStore, guild_id: u64, volume: i32, now: i64) -> (r:
    Result<(), VolumeOutOfRange>)
    requires
        old(store).wf(),
    ensures
        final(store).wf(),
        final(store).limit() == old(store).limit(),
        r is Ok <==> 0 <= volume <= old(store).limit(),
        final(store)@ == (if 0 <= volume <= old(store).limit() {
            upserted(old(store)@, guild_id, volume, now)
        } else {
            old(store)@
        }),
{
    if volume < 0 || volume as i64 > store.max_volume as i64 {
        return Err(VolumeOutOfRange);
    }
    let row = match store.rows.get(&guild_id) {
        Some(held) => GuildRow {
            id: held.id,
            volume,
            created_at: held.created_at,
            updated_at: Some(if now >= held.created_at { now } else { held.created_at }),
        },
        None => GuildRow { id: guild_id, volume, created_at: now, updated_at: Some(now) },
    };
    store.rows.insert(guild_id, row);
    Ok(())
}

/// The stored volume of `guild_id`. Where the guild has no record yet, one
/// is created with `default_volume`, which is then returned. A default
/// outside the range from 0 to the store's maximum is first brought into
/// it.
pub fn volume_get_or_insert_default(
    store: &mut VolumeStore,
    guild_id: u64,
    default_volume: i32,
    now: i64,
) -> (volume: i32)
    requires
        old(store).wf(),
    ensures
        final(store).wf(),
        final(store).limit() == old(store).limit(),
        final(store)@ == defaulted(
            old(store)@,
            guild_id,
            clamped(default_volume, old(store).limit()),
            now,
        ),
        volume == volume_or(old(store)@, guild_id, clamped(default_volume, old(store).limit())),
        final(store)@.contains_key(guild_id),
        final(store)@[guild_id].volume == volume,
        0 <= volume <= old(store).limit(),
{
    let held = store.get(guild_id);
    match held {
        Some(row) => row.volume,
        None => {
            let volume: i32 = if default_volume < 0 {
                0
            } else if default_volume as i64 > store.max_volume as i64 {
                store.max_volume as i32
            } else {
                default_volume
            };
            store.rows.insert(
                guild_id,
                GuildRow { id: guild_id, volume, created_at: now, updated_at: Some(now) },
            );
            volume
        },
    }
}

} // verus!
