//! The pure side of the backup collaborator: its configuration (read from
//! the environment by the caller and assembled here), the naming of backup
//! objects, and the decisions its recurring task takes — how often to run
//! and which old backups to prune. The storage I/O itself lives outside the
//! library.

use vstd::prelude::*;
use vstd::string::StringExecFns;
use crate::strutil::{i64_parsable, i64_value, parse_i64, parse_u64, all_digits, dec_value};

verus! {

/// How the backup task is configured: where snapshots go, how long they are
/// kept, how often they are taken, and how hard they are compressed.
#[derive(Debug)]
pub struct BackupConfig {
    pub bucket_name: String,
    pub prefix: String,
    pub region: String,
    pub retention_days: i64,
    pub backup_interval_hours: u64,
    pub compression_level: i32,
}

/// What one backup run measured, for diagnostics.
#[derive(Debug)]
pub struct BackupMetrics {
    pub original_size: usize,
    pub compressed_size: usize,
    pub compression_time_ms: u128,
    pub upload_time_ms: u128,
}

/// Which configuration value was required but absent.
#[derive(Clone, Copy, Debug, PartialEq, Eq, Structural)]
pub enum ConfigError {
    MissingBucket,
    MissingRegion,
}

/// The bytes of a string value, for stating what the parsers read from it.
pub open spec fn str_bytes(s: Seq<char>) -> Seq<u8> {
    vstd::utf8::encode_utf8(s)
}

/// The signed value a configuration string denotes, or `default` when the
/// string is absent or not a plain decimal of magnitude at most `i64::MAX`.
pub open spec fn i64_or_default(o: Option<String>, default: int) -> int {
    match o {
        Option::Some(s) => if i64_parsable(str_bytes(s@)) {
            i64_value(str_bytes(s@))
        } else {
            default
        },
        Option::None => default,
    }
}

/// The unsigned value a configuration string denotes, or `default` when the
/// string is absent or not a plain decimal that fits in a `u64`.
pub open spec fn u64_or_default(o: Option<String>, default: int) -> int {
    match o {
        Option::Some(s) => if str_bytes(s@).len() > 0 && all_digits(str_bytes(s@)) && dec_value(
            str_bytes(s@),
        ) <= u64::MAX {
            dec_value(str_bytes(s@))
        } else {
            default
        },
        Option::None => default,
    }
}

/// As [`i64_or_default`], but additionally falling back to `default` when
/// the value does not fit in an `i32`.
pub open spec fn i32_or_default(o: Option<String>, default: int) -> int {
    let v = i64_or_default(o, default);
    if i32::MIN <= v <= i32::MAX {
        v
    } else {
        default
    }
}

fn parse_i64_or(o: Option<String>, default: i64) -> (r: i64)
    ensures
        r == i64_or_default(o, default as int),
{
    match o {
        Option::Some(s) => match parse_i64(s.as_str()) {
            Option::Some(v) => v,
            Option::None => default,
        },
        Option::None => default,
    }
}

fn parse_u64_or(o: Option<String>, default: u64) -> (r: u64)
    ensures
        r == u64_or_default(o, default as int),
{
    match o {
        Option::Some(s) => match parse_u64(s.as_str()) {
            Option::Some(v) => v,
            Option::None => default,
        },
        Option::None => default,
    }
}

fn parse_i32_or(o: Option<String>, default: i32) -> (r: i32)
    ensures
        r == i32_or_default(o, default as int),
{
    let v: i64 = parse_i64_or(o, default as i64);
    if v >= i32::MIN as i64 && v <= i32::MAX as i64 {
        v as i32
    } else {
        default
    }
}

impl BackupConfig {
    /// Assembles the configuration from raw environment values, read by the
    /// caller: the bucket and region are required; the prefix defaults to
    /// "message-backups"; retention defaults to 30 days, the interval to 24
    /// hours and the compression level to 3 whenever the value is absent or
    /// not a plain decimal in range.
    pub fn from_values(
        bucket_name: Option<String>,
        prefix: Option<String>,
        region: Option<String>,
        retention_days: Option<String>,
        backup_interval_hours: Option<String>,
        compression_level: Option<String>,
    ) -> (r: Result<BackupConfig, ConfigError>)
        ensures
            r is Ok <==> bucket_name is Some && region is Some,
            r == Err::<BackupConfig, ConfigError>(ConfigError::MissingBucket) <==> bucket_name
                is None,
            r == Err::<BackupConfig, ConfigError>(ConfigError::MissingRegion) <==> bucket_name
                is Some && region is None,
            r is Ok ==> {
                let c = r.unwrap();
                &&& c.bucket_name == bucket_name.unwrap()
                &&& c.region == region.unwrap()
                &&& (prefix is Some ==> c.prefix == prefix.unwrap())
                &&& (prefix is None ==> c.prefix@ == "message-backups"@)
                &&& c.retention_days == i64_or_default(retention_days, 30)
                &&& c.backup_interval_hours == u64_or_default(backup_interval_hours, 24)
                &&& c.compression_level == i32_or_default(compression_level, 3)
            },
    {
        let bucket = match bucket_name {
            Option::Some(b) => b,
            Option::None => {
                return Err(ConfigError::MissingBucket);
            },
        };
        let region = match region {
            Option::Some(rg) => rg,
            Option::None => {
                return Err(ConfigError::MissingRegion);
            },
        };
        let prefix = match prefix {
            Option::Some(p) => p,
            Option::None => "message-backups".to_owned(),
        };
        Ok(
            BackupConfig {
                bucket_name: bucket,
                prefix,
                region,
                retention_days: parse_i64_or(retention_days, 30),
                backup_interval_hours: parse_u64_or(backup_interval_hours, 24),
                compression_level: parse_i32_or(compression_level, 3),
            },
        )
    }
}

/// The backup cadence in seconds: the configured hours times 3600, refused
/// when that would not fit in a `u64`.
pub fn backup_interval_secs(hours: u64) -> (r: Option<u64>)
    ensures
        r is Some <==> hours * 3600 <= u64::MAX,
        r is Some ==> r.unwrap() == hours * 3600,
{
    if hours > u64::MAX / 3600 {
        Option::None
    } else {
        Option::Some(hours * 3600)
    }
}

/// The object key under which a snapshot taken at `timestamp` is stored:
/// `prefix`, a slash, `backup_`, the timestamp, and the `.json.zst` suffix.
pub fn backup_object_key(prefix: &str, timestamp: &str) -> (r: String)
    ensures
        r@ == prefix@ + "/backup_"@ + timestamp@ + ".json.zst"@,
{
    let mut k: String = prefix.to_owned();
    k.append("/backup_");
    k.append(timestamp);
    k.append(".json.zst");
    k
}

/// Whether a stored backup is old enough to prune: it was last modified
/// strictly before `now` minus the retention window (`retention_days` of
/// 86400000 milliseconds each).
pub fn should_prune_backup(last_modified_millis: i64, now_millis: i64, retention_days: i64) -> (r:
    bool)
    ensures
        r == (last_modified_millis < now_millis - retention_days * 86400000),
{
    (last_modified_millis as i128) < (now_millis as i128) - (retention_days as i128) * 86400000
}

} // verus!
