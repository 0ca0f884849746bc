//! The cleanup bot's configuration: global settings and the per-channel
//! retention policies that the slash commands edit.
//!
//! Reading and writing `config.toml` is the caller's part: after each method
//! that changes the configuration, the caller saves it.

use std::collections::HashMap;

use vstd::prelude::*;
use vstd::std_specs::hash::spec_hash_map_iter;
use vstd::std_specs::iter::IteratorSpec;

verus! {

broadcast use vstd::std_specs::hash::group_hash_axioms;

/// The upload folder used when the configuration names none.
pub fn default_upload_folder() -> (s: String)
    ensures
        s@ == "/discord-backups"@,
{
    String::from_str("/discord-backups")
}

/// Cloud storage backend selection and any auth params it needs.
/// Settings that apply regardless of backend (e.g. `upload_folder`) live on
/// [`CloudBackupConfig`] instead.
pub enum CloudStorageBackendConfig {
    OneDrive { client_id: String },
    ProtonDrive,
}

/// Where attachments are backed up.
pub struct CloudBackupConfig {
    pub upload_folder: String,
    pub backend: CloudStorageBackendConfig,
}

/// The settings of one channel whose cleanup is enabled.
pub struct ChannelConfig {
    pub name: String,
    /// Override for the global retention policy, in days; never zero.
    pub policy_days: Option<u32>,
    /// Pagination cursor: oldest message ID seen, next run fetches BEFORE this
    pub pagination_cursor: Option<u64>,
}

/// The global retention policy.
pub struct RetentionConfig {
    /// Days a message is kept when its channel sets no policy; never zero.
    pub default_policy_days: u32,
}

/// Settings of the background worker that uploads backups.
pub struct BackupWorkerConfig {
    pub check_interval_seconds: u64,
    pub max_retries: u32,
}

/// The interval of the backup worker when the configuration names none.
pub fn default_check_interval() -> (r: u64)
    ensures
        r == 60,
{
    60
}

/// The retry limit of the backup worker when the configuration names none.
pub fn default_max_retries() -> (r: u32)
    ensures
        r == 5,
{
    5
}

impl Default for BackupWorkerConfig {
    fn default() -> (r: Self)
        ensures
            r.check_interval_seconds == 60,
            r.max_retries == 5,
    {
        Self { check_interval_seconds: default_check_interval(), max_retries: default_max_retries() }
    }
}

/// Where attachments are downloaded before upload, and the upload worker.
pub struct MediaBackupConfig {
    pub download_dir: String,
    pub worker: BackupWorkerConfig,
}

impl Default for MediaBackupConfig {
    fn default() -> (r: Self)
        ensures
            r.download_dir@ == "./media_backups"@,
            r.worker.check_interval_seconds == 60,
            r.worker.max_retries == 5,
    {
        Self { download_dir: String::from_str("./media_backups"), worker: BackupWorkerConfig::default() }
    }
}

/// The retention, in days, that applies to a channel with `policy_days`
/// when the global default is `default_days`.
pub open spec fn resolved_days(policy_days: Option<u32>, default_days: u32) -> u32 {
    match policy_days {
        Some(d) => d,
        None => default_days,
    }
}

impl ChannelConfig {
    /// Whether the channel's own retention policy, if any, is never zero.
    pub open spec fn wf(self) -> bool {
        self.policy_days matches Some(d) ==> d > 0
    }

    /// The channel's retention: its own policy, else the global default.
    pub fn resolve_policy_days(&self, config: &Config) -> (r: u32)
        ensures
            r == resolved_days(self.policy_days, config.retention.default_policy_days),
    {
        match self.policy_days {
            Some(d) => d,
            None => config.retention.default_policy_days,
        }
    }
}

/// The whole configuration.
pub struct Config {
    pub schedule_interval_seconds: u32,
    pub retention: RetentionConfig,
    pub media_backup: MediaBackupConfig,
    pub cloud_backup: Option<CloudBackupConfig>,
    /// The enabled channels, by channel id.
    pub channels: HashMap<u64, ChannelConfig>,
}

/// `config` with its pagination cursor replaced by `cursor`.
pub open spec fn with_cursor(config: ChannelConfig, cursor: Option<u64>) -> ChannelConfig {
    ChannelConfig { name: config.name, policy_days: config.policy_days, pagination_cursor: cursor }
}

/// The pagination cursor of channel `id` in `channels`; none when the
/// channel is not enabled.
pub open spec fn cursor_of(channels: Map<u64, ChannelConfig>, id: u64) -> Option<u64> {
    if channels.contains_key(id) {
        channels[id].pagination_cursor
    } else {
        None
    }
}

/// The channels after enabling `id` with `config` under the global default
/// `default_days`: a stricter policy than before clears the cursor.
pub open spec fn channels_after_add(
    channels: Map<u64, ChannelConfig>,
    default_days: u32,
    id: u64,
    config: ChannelConfig,
) -> Map<u64, ChannelConfig> {
    let new_days = resolved_days(config.policy_days, default_days);
    channels.insert(
        id,
        if channels.contains_key(id) && new_days < resolved_days(
            channels[id].policy_days,
            default_days,
        ) {
            with_cursor(config, None)
        } else {
            config
        },
    )
}

/// The channels after setting the cursor of `id` to `cursor`: unchanged when
/// `id` is not enabled.
pub open spec fn channels_after_set_cursor(
    channels: Map<u64, ChannelConfig>,
    id: u64,
    cursor: Option<u64>,
) -> Map<u64, ChannelConfig> {
    if channels.contains_key(id) {
        channels.insert(id, with_cursor(channels[id], cursor))
    } else {
        channels
    }
}

/// Whether every channel's own policy is not zero.
pub open spec fn channels_wf(channels: Map<u64, ChannelConfig>) -> bool {
    forall|id: u64| #[trigger] channels.contains_key(id) ==> channels[id].wf()
}

/// Reading a cursor gives back what was written: after setting the cursor
/// of an enabled channel, that cursor is read; setting the cursor of a
/// channel that is not enabled changes nothing, and none is read.
pub proof fn lemma_cursor_read_after_write(
    channels: Map<u64, ChannelConfig>,
    id: u64,
    cursor: Option<u64>,
)
    ensures
        channels.contains_key(id) ==> cursor_of(
            channels_after_set_cursor(channels, id, cursor),
            id,
        ) == cursor,
        !channels.contains_key(id) ==> cursor_of(
            channels_after_set_cursor(channels, id, cursor),
            id,
        ) is None,
        forall|other: u64|
            other != id ==> #[trigger] cursor_of(
                channels_after_set_cursor(channels, id, cursor),
                other,
            ) == cursor_of(channels, other),
{
}

/// When a channel's policy becomes stricter (fewer days), its cursor is
/// cleared and the next run starts again from the newest messages;
/// otherwise the channel keeps the cursor of the new settings.
pub proof fn lemma_stricter_policy_clears_cursor(
    channels: Map<u64, ChannelConfig>,
    default_days: u32,
    id: u64,
    config: ChannelConfig,
)
    ensures
        ({
            let after = channels_after_add(channels, default_days, id, config);
            let stricter = channels.contains_key(id) && resolved_days(
                config.policy_days,
                default_days,
            ) < resolved_days(channels[id].policy_days, default_days);
            &&& after.contains_key(id)
            &&& after[id].policy_days == config.policy_days
            &&& after[id].name == config.name
            &&& stricter ==> cursor_of(after, id) is None
            &&& !stricter ==> cursor_of(after, id) == config.pagination_cursor
        }),
{
}

/// A disabled channel has no settings and no cursor left.
pub proof fn lemma_removed_channel_is_gone(channels: Map<u64, ChannelConfig>, id: u64)
    ensures
        !channels.remove(id).contains_key(id),
        cursor_of(channels.remove(id), id) is None,
{
}

/// Retention policies stay positive: adding a channel whose own policy is
/// not zero, setting a cursor, or removing a channel keeps every policy
/// positive, and then every enabled channel's retention is at least one day.
pub proof fn lemma_policies_stay_positive(
    channels: Map<u64, ChannelConfig>,
    default_days: u32,
    id: u64,
    config: ChannelConfig,
    cursor: Option<u64>,
)
    requires
        channels_wf(channels),
        default_days > 0,
        config.wf(),
    ensures
        channels_wf(channels_after_add(channels, default_days, id, config)),
        channels_wf(channels_after_set_cursor(channels, id, cursor)),
        channels_wf(channels.remove(id)),
        forall|c: u64| #[trigger]
            channels.contains_key(c) ==> resolved_days(channels[c].policy_days, default_days)
                > 0,
{
}

impl Config {
    /// The enabled channels, by channel id.
    pub open spec fn channel_map(self) -> Map<u64, ChannelConfig> {
        self.channels@
    }

    /// The schedule interval and every retention policy are never zero.
    pub open spec fn wf(self) -> bool {
        &&& self.schedule_interval_seconds > 0
        &&& self.retention.default_policy_days > 0
        &&& forall|id: u64| #[trigger]
            self.channel_map().contains_key(id) ==> self.channel_map()[id].wf()
    }

    /// The retention that applies to enabled channel `id`.
    pub open spec fn channel_days(self, id: u64) -> u32 {
        resolved_days(self.channel_map()[id].policy_days, self.retention.default_policy_days)
    }

    /// Assembles a configuration from its parts.
    pub fn new(
        schedule_interval_seconds: u32,
        retention: RetentionConfig,
        media_backup: MediaBackupConfig,
        cloud_backup: Option<CloudBackupConfig>,
        channels: HashMap<u64, ChannelConfig>,
    ) -> (r: Self)
        ensures
            r.schedule_interval_seconds == schedule_interval_seconds,
            r.retention == retention,
            r.media_backup == media_backup,
            r.cloud_backup == cloud_backup,
            r.channel_map() == channels@,
    {
        Config { schedule_interval_seconds, retention, media_backup, cloud_backup, channels }
    }

    /// The enabled channels and their settings.
    pub fn channels(&self) -> (r: &HashMap<u64, ChannelConfig>)
        ensures
            r@ == self.channel_map(),
    {
        &self.channels
    }

    /// Enables cleanup in `channel_id` with `config`, or replaces its settings,
    /// and returns the retention that now applies. When the new policy keeps
    /// messages for fewer days than the old one, the pagination cursor is
    /// cleared so that the next run starts again from the newest messages.
    pub fn add_channel_config(&mut self, channel_id: u64, config: ChannelConfig) -> (r: u32)
        ensures
            r == resolved_days(config.policy_days, old(self).retention.default_policy_days),
            final(self).schedule_interval_seconds == old(self).schedule_interval_seconds,
            final(self).retention == old(self).retention,
            final(self).media_backup == old(self).media_backup,
            final(self).cloud_backup == old(self).cloud_backup,
            final(self).channel_map() == channels_after_add(
                old(self).channel_map(),
                old(self).retention.default_policy_days,
                channel_id,
                config,
            ),
    {
        let new_days = match config.policy_days {
            Some(d) => d,
            None => self.retention.default_policy_days,
        };
        let stricter = match self.channels.get(&channel_id) {
            Some(existing) => new_days < existing.resolve_policy_days(self),
            None => false,
        };
        if stricter {
            let mut config = config;
            config.pagination_cursor = None;
            self.channels.insert(channel_id, config);
        } else {
            self.channels.insert(channel_id, config);
        }
        new_days
    }

    /// The pagination cursor of `channel_id`, if it is enabled and has one.
    pub fn get_pagination_cursor(&self, channel_id: u64) -> (r: Option<u64>)
        ensures
            r == cursor_of(self.channel_map(), channel_id),
    {
        match self.channels.get(&channel_id) {
            Some(c) => c.pagination_cursor,
            None => None,
        }
    }

    /// Sets the pagination cursor of `channel_id` when it is enabled, and
    /// tells whether it was (only then is there anything to save).
    pub fn set_pagination_cursor(&mut self, channel_id: u64, cursor: Option<u64>) -> (changed: bool)
        ensures
            changed == old(self).channel_map().contains_key(channel_id),
            final(self).schedule_interval_seconds == old(self).schedule_interval_seconds,
            final(self).retention == old(self).retention,
            final(self).media_backup == old(self).media_backup,
            final(self).cloud_backup == old(self).cloud_backup,
            final(self).channel_map() == channels_after_set_cursor(
                old(self).channel_map(),
                channel_id,
                cursor,
            ),
    {
        match self.channels.remove(&channel_id) {
            Some(mut c) => {
                c.pagination_cursor = cursor;
                self.channels.insert(channel_id, c);
                true
            },
            None => false,
        }
    }

    /// Disables cleanup in `channel_id`.
    pub fn remove_channel(&mut self, channel_id: u64)
        ensures
            final(self).schedule_interval_seconds == old(self).schedule_interval_seconds,
            final(self).retention == old(self).retention,
            final(self).media_backup == old(self).media_backup,
            final(self).cloud_backup == old(self).cloud_backup,
            final(self).channel_map() == old(self).channel_map().remove(channel_id),
    {
        self.channels.remove(&channel_id);
    }

    /// Returns a list of all enabled channels with their resolved retention
    /// policies, each channel once, in no particular order.
    pub fn enabled_channels(&self) -> (r: Vec<(u64, u32)>)
        ensures
            r@.len() == self.channel_map().dom().len(),
            forall|i: int|
                0 <= i < r@.len() ==> self.channel_map().contains_key(#[trigger] r@[i].0)
                    && r@[i].1 == self.channel_days(r@[i].0),
            forall|id: u64| #[trigger]
                self.channel_map().contains_key(id) ==> exists|i: int|
                    0 <= i < r@.len() && r@[i].0 == id,
            forall|i: int, j: int| 0 <= i < j < r@.len() ==> r@[i].0 != r@[j].0,
    {
        let mut out: Vec<(u64, u32)> = Vec::new();
        let ghost pairs = spec_hash_map_iter(&self.channels).remaining();
        for (id, c) in it: self.channels.iter()
            invariant
                it.seq() == pairs,
                out@.len() == it.index(),
                forall|i: int|
                    0 <= i < it.index() ==> #[trigger] out@[i] == (
                        *it.seq()[i].0,
                        resolved_days(it.seq()[i].1.policy_days, self.retention.default_policy_days),
                    ),
        {
            out.push((*id, c.resolve_policy_days(self)));
        }
        proof {
            let m = self.channels@;
            assert forall|id: u64| #[trigger] m.contains_key(id) implies exists|i: int|
                0 <= i < out@.len() && out@[i].0 == id by {
                assert(pairs.contains((&id, &m[id])));
                let i = choose|i: int| 0 <= i < pairs.len() && pairs[i] == (&id, &m[id]);
                assert(out@[i].0 == id);
            }
            assert forall|i: int, j: int| 0 <= i < j < out@.len() implies out@[i].0 != out@[j].0 by {
                if out@[i].0 == out@[j].0 {
                    assert(m.contains_key(*pairs[i].0) && m[*pairs[i].0] == *pairs[i].1);
                    assert(m.contains_key(*pairs[j].0) && m[*pairs[j].0] == *pairs[j].1);
                    assert(pairs[i] == pairs[j]);
                }
            }
        }
        out
    }
}

} // verus!
