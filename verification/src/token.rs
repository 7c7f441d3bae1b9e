//! The wire vocabulary: closed enumerations, each variant bound to the one
//! token that stands for it on the wire, in both directions.
use crate::text::same_text;
use vstd::prelude::*;

verus! {

/// A cluster-wide flag that can be set or unset on the storage daemons.
#[derive(Debug, Clone, Copy, PartialEq, Eq, Structural)]
pub enum OsdOption {
    Full,
    Pause,
    NoUp,
    NoDown,
    NoOut,
    NoIn,
    NoBackfill,
    NoRebalance,
    NoRecover,
    NoScrub,
    NoDeepScrub,
    NoTierAgent,
    SortBitwise,
    RecoveryDeletes,
    RequireJewelOsds,
    RequireKrakenOsds,
}

impl OsdOption {
    /// The token that stands for this value on the wire.
    pub open spec fn token(self) -> Seq<char> {
        match self {
            OsdOption::Full => "full"@,
            OsdOption::Pause => "pause"@,
            OsdOption::NoUp => "noup"@,
            OsdOption::NoDown => "nodown"@,
            OsdOption::NoOut => "noout"@,
            OsdOption::NoIn => "noin"@,
            OsdOption::NoBackfill => "nobackfill"@,
            OsdOption::NoRebalance => "norebalance"@,
            OsdOption::NoRecover => "norecover"@,
            OsdOption::NoScrub => "noscrub"@,
            OsdOption::NoDeepScrub => "nodeep-scrub"@,
            OsdOption::NoTierAgent => "notieragent"@,
            OsdOption::SortBitwise => "sortbitwise"@,
            OsdOption::RecoveryDeletes => "recovery_deletes"@,
            OsdOption::RequireJewelOsds => "require_jewel_osds"@,
            OsdOption::RequireKrakenOsds => "require_kraken_osds"@,
        }
    }

    /// The value that `token` stands for, if it stands for one. Tokens are
    /// matched exactly: case, hyphens and underscores all count.
    pub open spec fn of_token(token: Seq<char>) -> Option<OsdOption> {
        if exists|v: OsdOption| v.token() == token {
            Some(choose|v: OsdOption| v.token() == token)
        } else {
            None
        }
    }

    /// No two values share a token.
    pub proof fn lemma_token_injective(a: OsdOption, b: OsdOption)
        requires
            a.token() == b.token(),
        ensures
            a == b,
    {
        reveal_strlit("full");
        reveal_strlit("pause");
        reveal_strlit("noup");
        reveal_strlit("nodown");
        reveal_strlit("noout");
        reveal_strlit("noin");
        reveal_strlit("nobackfill");
        reveal_strlit("norebalance");
        reveal_strlit("norecover");
        reveal_strlit("noscrub");
        reveal_strlit("nodeep-scrub");
        reveal_strlit("notieragent");
        reveal_strlit("sortbitwise");
        reveal_strlit("recovery_deletes");
        reveal_strlit("require_jewel_osds");
        reveal_strlit("require_kraken_osds");
        assert("full"@.len() == 4 && "full"@[2] == 'l');
        assert("pause"@.len() == 5 && "pause"@[0] == 'p');
        assert("noup"@.len() == 4 && "noup"@[2] == 'u');
        assert("nodown"@.len() == 6);
        assert("noout"@.len() == 5 && "noout"@[0] == 'n');
        assert("noin"@.len() == 4 && "noin"@[2] == 'i');
        assert("nobackfill"@.len() == 10);
        assert("norebalance"@.len() == 11 && "norebalance"@[3] == 'e');
        assert("norecover"@.len() == 9);
        assert("noscrub"@.len() == 7);
        assert("nodeep-scrub"@.len() == 12);
        assert("notieragent"@.len() == 11 && "notieragent"@[3] == 'i');
        assert("sortbitwise"@.len() == 11 && "sortbitwise"@[3] == 't');
        assert("recovery_deletes"@.len() == 16);
        assert("require_jewel_osds"@.len() == 18);
        assert("require_kraken_osds"@.len() == 19);
    }

    /// Reading back the token of a value gives that value.
    pub proof fn lemma_token_round_trip(v: OsdOption)
        ensures
            OsdOption::of_token(v.token()) == Some(v),
    {
        let found = choose|w: OsdOption| w.token() == v.token();
        OsdOption::lemma_token_injective(found, v);
    }

    /// A token that stands for a value is the token of that value.
    pub proof fn lemma_of_token_exact(token: Seq<char>)
        ensures
            match OsdOption::of_token(token) {
                Some(v) => v.token() == token,
                None => forall|v: OsdOption| v.token() != token,
            },
    {
    }

    /// The token that stands for this value on the wire.
    pub fn as_ref(&self) -> (r: &'static str)
        ensures
            r@ == self.token(),
    {
        match self {
            OsdOption::Full => "full",
            OsdOption::Pause => "pause",
            OsdOption::NoUp => "noup",
            OsdOption::NoDown => "nodown",
            OsdOption::NoOut => "noout",
            OsdOption::NoIn => "noin",
            OsdOption::NoBackfill => "nobackfill",
            OsdOption::NoRebalance => "norebalance",
            OsdOption::NoRecover => "norecover",
            OsdOption::NoScrub => "noscrub",
            OsdOption::NoDeepScrub => "nodeep-scrub",
            OsdOption::NoTierAgent => "notieragent",
            OsdOption::SortBitwise => "sortbitwise",
            OsdOption::RecoveryDeletes => "recovery_deletes",
            OsdOption::RequireJewelOsds => "require_jewel_osds",
            OsdOption::RequireKrakenOsds => "require_kraken_osds",
        }
    }

    /// The token as an owned text: what is shown is what is sent.
    pub fn to_string(&self) -> (r: String)
        ensures
            r@ == self.token(),
    {
        self.as_ref().to_owned()
    }

    /// Reads a token back.
    pub fn from_token(token: &str) -> (r: Option<OsdOption>)
        ensures
            r == OsdOption::of_token(token@),
    {
        let r = if same_text(token, "full") {
            Some(OsdOption::Full)
        } else if same_text(token, "pause") {
            Some(OsdOption::Pause)
        } else if same_text(token, "noup") {
            Some(OsdOption::NoUp)
        } else if same_text(token, "nodown") {
            Some(OsdOption::NoDown)
        } else if same_text(token, "noout") {
            Some(OsdOption::NoOut)
        } else if same_text(token, "noin") {
            Some(OsdOption::NoIn)
        } else if same_text(token, "nobackfill") {
            Some(OsdOption::NoBackfill)
        } else if same_text(token, "norebalance") {
            Some(OsdOption::NoRebalance)
        } else if same_text(token, "norecover") {
            Some(OsdOption::NoRecover)
        } else if same_text(token, "noscrub") {
            Some(OsdOption::NoScrub)
        } else if same_text(token, "nodeep-scrub") {
            Some(OsdOption::NoDeepScrub)
        } else if same_text(token, "notieragent") {
            Some(OsdOption::NoTierAgent)
        } else if same_text(token, "sortbitwise") {
            Some(OsdOption::SortBitwise)
        } else if same_text(token, "recovery_deletes") {
            Some(OsdOption::RecoveryDeletes)
        } else if same_text(token, "require_jewel_osds") {
            Some(OsdOption::RequireJewelOsds)
        } else if same_text(token, "require_kraken_osds") {
            Some(OsdOption::RequireKrakenOsds)
        } else {
            None
        };
        proof {
            match r {
                Some(v) => {
                    OsdOption::lemma_token_round_trip(v);
                },
                None => {},
            }
        }
        r
    }
}

/// A tunable of a storage pool.
#[derive(Debug, Clone, Copy, PartialEq, Eq, Structural)]
pub enum PoolOption {
    Size,
    MinSize,
    CrashReplayInterval,
    PgNum,
    PgpNum,
    CrushRule,
    HashPsPool,
    NoDelete,
    NoPgChange,
    NoSizeChange,
    WriteFadviceDontNeed,
    NoScrub,
    NoDeepScrub,
    HitSetType,
    HitSetPeriod,
    HitSetCount,
    HitSetFpp,
    UseGmtHitset,
    TargetMaxBytes,
    TargetMaxObjects,
    CacheTargetDirtyRatio,
    CacheTargetDirtyHighRatio,
    CacheTargetFullRatio,
    CacheMinFlushAge,
    CacheMinEvictAge,
    Auid,
    MinReadRecencyForPromote,
    MinWriteRecencyForPromte,
    FastRead,
    HitSetGradeDecayRate,
    HitSetSearchLastN,
    ScrubMinInterval,
    ScrubMaxInterval,
    DeepScrubInterval,
    RecoveryPriority,
    RecoveryOpPriority,
    ScrubPriority,
    CompressionMode,
    CompressionAlgorithm,
    CompressionRequiredRatio,
    CompressionMaxBlobSize,
    CompressionMinBlobSize,
    CsumType,
    CsumMinBlock,
    CsumMaxBlock,
    AllocEcOverwrites,
}

impl PoolOption {
    /// The token that stands for this value on the wire.
    pub open spec fn token(self) -> Seq<char> {
        match self {
            PoolOption::Size => "size"@,
            PoolOption::MinSize => "min_size"@,
            PoolOption::CrashReplayInterval => "crash_replay_interval"@,
            PoolOption::PgNum => "pg_num"@,
            PoolOption::PgpNum => "pgp_num"@,
            PoolOption::CrushRule => "crush_rule"@,
            PoolOption::HashPsPool => "hashpspool"@,
            PoolOption::NoDelete => "nodelete"@,
            PoolOption::NoPgChange => "nopgchange"@,
            PoolOption::NoSizeChange => "nosizechange"@,
            PoolOption::WriteFadviceDontNeed => "write_fadvice_dontneed"@,
            PoolOption::NoScrub => "noscrub"@,
            PoolOption::NoDeepScrub => "nodeep-scrub"@,
            PoolOption::HitSetType => "hit_set_type"@,
            PoolOption::HitSetPeriod => "hit_set_period"@,
            PoolOption::HitSetCount => "hit_set_count"@,
            PoolOption::HitSetFpp => "hit_set_fpp"@,
            PoolOption::UseGmtHitset => "use_gmt_hitset"@,
            PoolOption::TargetMaxBytes => "target_max_bytes"@,
            PoolOption::TargetMaxObjects => "target_max_objects"@,
            PoolOption::CacheTargetDirtyRatio => "cache_target_dirty_ratio"@,
            PoolOption::CacheTargetDirtyHighRatio => "cache_target_dirty_high_ratio"@,
            PoolOption::CacheTargetFullRatio => "cache_target_full_ratio"@,
            PoolOption::CacheMinFlushAge => "cache_min_flush_age"@,
            PoolOption::CacheMinEvictAge => "cachem_min_evict_age"@,
            PoolOption::Auid => "auid"@,
            PoolOption::MinReadRecencyForPromote => "min_read_recency_for_promote"@,
            PoolOption::MinWriteRecencyForPromte => "min_write_recency_for_promote"@,
            PoolOption::FastRead => "fast_read"@,
            PoolOption::HitSetGradeDecayRate => "hit_set_decay_rate"@,
            PoolOption::HitSetSearchLastN => "hit_set_search_last_n"@,
            PoolOption::ScrubMinInterval => "scrub_min_interval"@,
            PoolOption::ScrubMaxInterval => "scrub_max_interval"@,
            PoolOption::DeepScrubInterval => "deep_scrub_interval"@,
            PoolOption::RecoveryPriority => "recovery_priority"@,
            PoolOption::RecoveryOpPriority => "recovery_op_priority"@,
            PoolOption::ScrubPriority => "scrub_priority"@,
            PoolOption::CompressionMode => "compression_mode"@,
            PoolOption::CompressionAlgorithm => "compression_algorithm"@,
            PoolOption::CompressionRequiredRatio => "compression_required_ratio"@,
            PoolOption::CompressionMaxBlobSize => "compression_max_blob_size"@,
            PoolOption::CompressionMinBlobSize => "compression_min_blob_size"@,
            PoolOption::CsumType => "csum_type"@,
            PoolOption::CsumMinBlock => "csum_min_block"@,
            PoolOption::CsumMaxBlock => "csum_max_block"@,
            PoolOption::AllocEcOverwrites => "allow_ec_overwrites"@,
        }
    }

    /// The value that `token` stands for, if it stands for one. Tokens are
    /// matched exactly: case, hyphens and underscores all count.
    pub open spec fn of_token(token: Seq<char>) -> Option<PoolOption> {
        if exists|v: PoolOption| v.token() == token {
            Some(choose|v: PoolOption| v.token() == token)
        } else {
            None
        }
    }

    /// No two values share a token.
    pub proof fn lemma_token_injective(a: PoolOption, b: PoolOption)
        requires
            a.token() == b.token(),
        ensures
            a == b,
    {
        reveal_strlit("size");
        reveal_strlit("min_size");
        reveal_strlit("crash_replay_interval");
        reveal_strlit("pg_num");
        reveal_strlit("pgp_num");
        reveal_strlit("crush_rule");
        reveal_strlit("hashpspool");
        reveal_strlit("nodelete");
        reveal_strlit("nopgchange");
        reveal_strlit("nosizechange");
        reveal_strlit("write_fadvice_dontneed");
        reveal_strlit("noscrub");
        reveal_strlit("nodeep-scrub");
        reveal_strlit("hit_set_type");
        reveal_strlit("hit_set_period");
        reveal_strlit("hit_set_count");
        reveal_strlit("hit_set_fpp");
        reveal_strlit("use_gmt_hitset");
        reveal_strlit("target_max_bytes");
        reveal_strlit("target_max_objects");
        reveal_strlit("cache_target_dirty_ratio");
        reveal_strlit("cache_target_dirty_high_ratio");
        reveal_strlit("cache_target_full_ratio");
        reveal_strlit("cache_min_flush_age");
        reveal_strlit("cachem_min_evict_age");
        reveal_strlit("auid");
        reveal_strlit("min_read_recency_for_promote");
        reveal_strlit("min_write_recency_for_promote");
        reveal_strlit("fast_read");
        reveal_strlit("hit_set_decay_rate");
        reveal_strlit("hit_set_search_last_n");
        reveal_strlit("scrub_min_interval");
        reveal_strlit("scrub_max_interval");
        reveal_strlit("deep_scrub_interval");
        reveal_strlit("recovery_priority");
        reveal_strlit("recovery_op_priority");
        reveal_strlit("scrub_priority");
        reveal_strlit("compression_mode");
        reveal_strlit("compression_algorithm");
        reveal_strlit("compression_required_ratio");
        reveal_strlit("compression_max_blob_size");
        reveal_strlit("compression_min_blob_size");
        reveal_strlit("csum_type");
        reveal_strlit("csum_min_block");
        reveal_strlit("csum_max_block");
        reveal_strlit("allow_ec_overwrites");
        assert("size"@.len() == 4 && "size"@[0] == 's');
        assert("min_size"@.len() == 8 && "min_size"@[0] == 'm');
        assert("crash_replay_interval"@.len() == 21 && "crash_replay_interval"@[1] == 'r');
        assert("pg_num"@.len() == 6);
        assert("pgp_num"@.len() == 7 && "pgp_num"@[0] == 'p');
        assert("crush_rule"@.len() == 10 && "crush_rule"@[0] == 'c');
        assert("hashpspool"@.len() == 10 && "hashpspool"@[0] == 'h');
        assert("nodelete"@.len() == 8 && "nodelete"@[0] == 'n');
        assert("nopgchange"@.len() == 10 && "nopgchange"@[0] == 'n');
        assert("nosizechange"@.len() == 12 && "nosizechange"@[2] == 's');
        assert("write_fadvice_dontneed"@.len() == 22);
        assert("noscrub"@.len() == 7 && "noscrub"@[0] == 'n');
        assert("nodeep-scrub"@.len() == 12 && "nodeep-scrub"@[2] == 'd');
        assert("hit_set_type"@.len() == 12 && "hit_set_type"@[2] == 't');
        assert("hit_set_period"@.len() == 14 && "hit_set_period"@[0] == 'h' && "hit_set_period"@[6] == 't');
        assert("hit_set_count"@.len() == 13);
        assert("hit_set_fpp"@.len() == 11);
        assert("use_gmt_hitset"@.len() == 14 && "use_gmt_hitset"@[0] == 'u' && "use_gmt_hitset"@[6] == 't');
        assert("target_max_bytes"@.len() == 16 && "target_max_bytes"@[0] == 't');
        assert("target_max_objects"@.len() == 18 && "target_max_objects"@[7] == 'm');
        assert("cache_target_dirty_ratio"@.len() == 24);
        assert("cache_target_dirty_high_ratio"@.len() == 29 && "cache_target_dirty_high_ratio"@[0] == 'c');
        assert("cache_target_full_ratio"@.len() == 23);
        assert("cache_min_flush_age"@.len() == 19 && "cache_min_flush_age"@[0] == 'c');
        assert("cachem_min_evict_age"@.len() == 20 && "cachem_min_evict_age"@[0] == 'c');
        assert("auid"@.len() == 4 && "auid"@[0] == 'a');
        assert("min_read_recency_for_promote"@.len() == 28);
        assert("min_write_recency_for_promote"@.len() == 29 && "min_write_recency_for_promote"@[0] == 'm');
        assert("fast_read"@.len() == 9 && "fast_read"@[0] == 'f');
        assert("hit_set_decay_rate"@.len() == 18 && "hit_set_decay_rate"@[7] == '_');
        assert("hit_set_search_last_n"@.len() == 21 && "hit_set_search_last_n"@[1] == 'i');
        assert("scrub_min_interval"@.len() == 18 && "scrub_min_interval"@[7] == 'i');
        assert("scrub_max_interval"@.len() == 18 && "scrub_max_interval"@[7] == 'a');
        assert("deep_scrub_interval"@.len() == 19 && "deep_scrub_interval"@[0] == 'd');
        assert("recovery_priority"@.len() == 17);
        assert("recovery_op_priority"@.len() == 20 && "recovery_op_priority"@[0] == 'r');
        assert("scrub_priority"@.len() == 14 && "scrub_priority"@[0] == 's' && "scrub_priority"@[6] == 'p');
        assert("compression_mode"@.len() == 16 && "compression_mode"@[0] == 'c');
        assert("compression_algorithm"@.len() == 21 && "compression_algorithm"@[1] == 'o');
        assert("compression_required_ratio"@.len() == 26);
        assert("compression_max_blob_size"@.len() == 25 && "compression_max_blob_size"@[13] == 'a');
        assert("compression_min_blob_size"@.len() == 25 && "compression_min_blob_size"@[13] == 'i');
        assert("csum_type"@.len() == 9 && "csum_type"@[0] == 'c');
        assert("csum_min_block"@.len() == 14 && "csum_min_block"@[0] == 'c' && "csum_min_block"@[6] == 'i');
        assert("csum_max_block"@.len() == 14 && "csum_max_block"@[0] == 'c' && "csum_max_block"@[6] == 'a');
        assert("allow_ec_overwrites"@.len() == 19 && "allow_ec_overwrites"@[0] == 'a');
    }

    /// Reading back the token of a value gives that value.
    pub proof fn lemma_token_round_trip(v: PoolOption)
        ensures
            PoolOption::of_token(v.token()) == Some(v),
    {
        let found = choose|w: PoolOption| w.token() == v.token();
        PoolOption::lemma_token_injective(found, v);
    }

    /// A token that stands for a value is the token of that value.
    pub proof fn lemma_of_token_exact(token: Seq<char>)
        ensures
            match PoolOption::of_token(token) {
                Some(v) => v.token() == token,
                None => forall|v: PoolOption| v.token() != token,
            },
    {
    }

    /// The token that stands for this value on the wire.
    pub fn as_ref(&self) -> (r: &'static str)
        ensures
            r@ == self.token(),
    {
        match self {
            PoolOption::Size => "size",
            PoolOption::MinSize => "min_size",
            PoolOption::CrashReplayInterval => "crash_replay_interval",
            PoolOption::PgNum => "pg_num",
            PoolOption::PgpNum => "pgp_num",
            PoolOption::CrushRule => "crush_rule",
            PoolOption::HashPsPool => "hashpspool",
            PoolOption::NoDelete => "nodelete",
            PoolOption::NoPgChange => "nopgchange",
            PoolOption::NoSizeChange => "nosizechange",
            PoolOption::WriteFadviceDontNeed => "write_fadvice_dontneed",
            PoolOption::NoScrub => "noscrub",
            PoolOption::NoDeepScrub => "nodeep-scrub",
            PoolOption::HitSetType => "hit_set_type",
            PoolOption::HitSetPeriod => "hit_set_period",
            PoolOption::HitSetCount => "hit_set_count",
            PoolOption::HitSetFpp => "hit_set_fpp",
            PoolOption::UseGmtHitset => "use_gmt_hitset",
            PoolOption::TargetMaxBytes => "target_max_bytes",
            PoolOption::TargetMaxObjects => "target_max_objects",
            PoolOption::CacheTargetDirtyRatio => "cache_target_dirty_ratio",
            PoolOption::CacheTargetDirtyHighRatio => "cache_target_dirty_high_ratio",
            PoolOption::CacheTargetFullRatio => "cache_target_full_ratio",
            PoolOption::CacheMinFlushAge => "cache_min_flush_age",
            PoolOption::CacheMinEvictAge => "cachem_min_evict_age",
            PoolOption::Auid => "auid",
            PoolOption::MinReadRecencyForPromote => "min_read_recency_for_promote",
            PoolOption::MinWriteRecencyForPromte => "min_write_recency_for_promote",
            PoolOption::FastRead => "fast_read",
            PoolOption::HitSetGradeDecayRate => "hit_set_decay_rate",
            PoolOption::HitSetSearchLastN => "hit_set_search_last_n",
            PoolOption::ScrubMinInterval => "scrub_min_interval",
            PoolOption::ScrubMaxInterval => "scrub_max_interval",
            PoolOption::DeepScrubInterval => "deep_scrub_interval",
            PoolOption::RecoveryPriority => "recovery_priority",
            PoolOption::RecoveryOpPriority => "recovery_op_priority",
            PoolOption::ScrubPriority => "scrub_priority",
            PoolOption::CompressionMode => "compression_mode",
            PoolOption::CompressionAlgorithm => "compression_algorithm",
            PoolOption::CompressionRequiredRatio => "compression_required_ratio",
            PoolOption::CompressionMaxBlobSize => "compression_max_blob_size",
            PoolOption::CompressionMinBlobSize => "compression_min_blob_size",
            PoolOption::CsumType => "csum_type",
            PoolOption::CsumMinBlock => "csum_min_block",
            PoolOption::CsumMaxBlock => "csum_max_block",
            PoolOption::AllocEcOverwrites => "allow_ec_overwrites",
        }
    }

    /// The token as an owned text: what is shown is what is sent.
    pub fn to_string(&self) -> (r: String)
        ensures
            r@ == self.token(),
    {
        self.as_ref().to_owned()
    }

    /// Reads a token back.
    pub fn from_token(token: &str) -> (r: Option<PoolOption>)
        ensures
            r == PoolOption::of_token(token@),
    {
        let r = if same_text(token, "size") {
            Some(PoolOption::Size)
        } else if same_text(token, "min_size") {
            Some(PoolOption::MinSize)
        } else if same_text(token, "crash_replay_interval") {
            Some(PoolOption::CrashReplayInterval)
        } else if same_text(token, "pg_num") {
            Some(PoolOption::PgNum)
        } else if same_text(token, "pgp_num") {
            Some(PoolOption::PgpNum)
        } else if same_text(token, "crush_rule") {
            Some(PoolOption::CrushRule)
        } else if same_text(token, "hashpspool") {
            Some(PoolOption::HashPsPool)
        } else if same_text(token, "nodelete") {
            Some(PoolOption::NoDelete)
        } else if same_text(token, "nopgchange") {
            Some(PoolOption::NoPgChange)
        } else if same_text(token, "nosizechange") {
            Some(PoolOption::NoSizeChange)
        } else if same_text(token, "write_fadvice_dontneed") {
            Some(PoolOption::WriteFadviceDontNeed)
        } else if same_text(token, "noscrub") {
            Some(PoolOption::NoScrub)
        } else if same_text(token, "nodeep-scrub") {
            Some(PoolOption::NoDeepScrub)
        } else if same_text(token, "hit_set_type") {
            Some(PoolOption::HitSetType)
        } else if same_text(token, "hit_set_period") {
            Some(PoolOption::HitSetPeriod)
        } else if same_text(token, "hit_set_count") {
            Some(PoolOption::HitSetCount)
        } else if same_text(token, "hit_set_fpp") {
            Some(PoolOption::HitSetFpp)
        } else if same_text(token, "use_gmt_hitset") {
            Some(PoolOption::UseGmtHitset)
        } else if same_text(token, "target_max_bytes") {
            Some(PoolOption::TargetMaxBytes)
        } else if same_text(token, "target_max_objects") {
            Some(PoolOption::TargetMaxObjects)
        } else if same_text(token, "cache_target_dirty_ratio") {
            Some(PoolOption::CacheTargetDirtyRatio)
        } else if same_text(token, "cache_target_dirty_high_ratio") {
            Some(PoolOption::CacheTargetDirtyHighRatio)
        } else if same_text(token, "cache_target_full_ratio") {
            Some(PoolOption::CacheTargetFullRatio)
        } else if same_text(token, "cache_min_flush_age") {
            Some(PoolOption::CacheMinFlushAge)
        } else if same_text(token, "cachem_min_evict_age") {
            Some(PoolOption::CacheMinEvictAge)
        } else if same_text(token, "auid") {
            Some(PoolOption::Auid)
        } else if same_text(token, "min_read_recency_for_promote") {
            Some(PoolOption::MinReadRecencyForPromote)
        } else if same_text(token, "min_write_recency_for_promote") {
            Some(PoolOption::MinWriteRecencyForPromte)
        } else if same_text(token, "fast_read") {
            Some(PoolOption::FastRead)
        } else if same_text(token, "hit_set_decay_rate") {
            Some(PoolOption::HitSetGradeDecayRate)
        } else if same_text(token, "hit_set_search_last_n") {
            Some(PoolOption::HitSetSearchLastN)
        } else if same_text(token, "scrub_min_interval") {
            Some(PoolOption::ScrubMinInterval)
        } else if same_text(token, "scrub_max_interval") {
            Some(PoolOption::ScrubMaxInterval)
        } else if same_text(token, "deep_scrub_interval") {
            Some(PoolOption::DeepScrubInterval)
        } else if same_text(token, "recovery_priority") {
            Some(PoolOption::RecoveryPriority)
        } else if same_text(token, "recovery_op_priority") {
            Some(PoolOption::RecoveryOpPriority)
        } else if same_text(token, "scrub_priority") {
            Some(PoolOption::ScrubPriority)
        } else if same_text(token, "compression_mode") {
            Some(PoolOption::CompressionMode)
        } else if same_text(token, "compression_algorithm") {
            Some(PoolOption::CompressionAlgorithm)
        } else if same_text(token, "compression_required_ratio") {
            Some(PoolOption::CompressionRequiredRatio)
        } else if same_text(token, "compression_max_blob_size") {
            Some(PoolOption::CompressionMaxBlobSize)
        } else if same_text(token, "compression_min_blob_size") {
            Some(PoolOption::CompressionMinBlobSize)
        } else if same_text(token, "csum_type") {
            Some(PoolOption::CsumType)
        } else if same_text(token, "csum_min_block") {
            Some(PoolOption::CsumMinBlock)
        } else if same_text(token, "csum_max_block") {
            Some(PoolOption::CsumMaxBlock)
        } else if same_text(token, "allow_ec_overwrites") {
            Some(PoolOption::AllocEcOverwrites)
        } else {
            None
        };
        proof {
            match r {
                Some(v) => {
                    PoolOption::lemma_token_round_trip(v);
                },
                None => {},
            }
        }
        r
    }
}

/// The overall condition that a health report gives.
#[derive(Debug, Clone, Copy, PartialEq, Eq, Structural)]
pub enum HealthStatus {
    Error,
    Warn,
    Okay,
}

impl HealthStatus {
    /// The token that stands for this value on the wire.
    pub open spec fn token(self) -> Seq<char> {
        match self {
            HealthStatus::Error => "HEALTH_ERR"@,
            HealthStatus::Warn => "HEALTH_WARN"@,
            HealthStatus::Okay => "HEALTH_OK"@,
        }
    }

    /// The value that `token` stands for, if it stands for one. Tokens are
    /// matched exactly: case, hyphens and underscores all count.
    pub open spec fn of_token(token: Seq<char>) -> Option<HealthStatus> {
        if exists|v: HealthStatus| v.token() == token {
            Some(choose|v: HealthStatus| v.token() == token)
        } else {
            None
        }
    }

    /// No two values share a token.
    pub proof fn lemma_token_injective(a: HealthStatus, b: HealthStatus)
        requires
            a.token() == b.token(),
        ensures
            a == b,
    {
        reveal_strlit("HEALTH_ERR");
        reveal_strlit("HEALTH_WARN");
        reveal_strlit("HEALTH_OK");
        assert("HEALTH_ERR"@.len() == 10);
        assert("HEALTH_WARN"@.len() == 11);
        assert("HEALTH_OK"@.len() == 9);
    }

    /// Reading back the token of a value gives that value.
    pub proof fn lemma_token_round_trip(v: HealthStatus)
        ensures
            HealthStatus::of_token(v.token()) == Some(v),
    {
        let found = choose|w: HealthStatus| w.token() == v.token();
        HealthStatus::lemma_token_injective(found, v);
    }

    /// A token that stands for a value is the token of that value.
    pub proof fn lemma_of_token_exact(token: Seq<char>)
        ensures
            match HealthStatus::of_token(token) {
                Some(v) => v.token() == token,
                None => forall|v: HealthStatus| v.token() != token,
            },
    {
    }

    /// The token that stands for this value on the wire.
    pub fn as_ref(&self) -> (r: &'static str)
        ensures
            r@ == self.token(),
    {
        match self {
            HealthStatus::Error => "HEALTH_ERR",
            HealthStatus::Warn => "HEALTH_WARN",
            HealthStatus::Okay => "HEALTH_OK",
        }
    }

    /// The token as an owned text: what is shown is what is sent.
    pub fn to_string(&self) -> (r: String)
        ensures
            r@ == self.token(),
    {
        self.as_ref().to_owned()
    }

    /// Reads a token back.
    pub fn from_token(token: &str) -> (r: Option<HealthStatus>)
        ensures
            r == HealthStatus::of_token(token@),
    {
        let r = if same_text(token, "HEALTH_ERR") {
            Some(HealthStatus::Error)
        } else if same_text(token, "HEALTH_WARN") {
            Some(HealthStatus::Warn)
        } else if same_text(token, "HEALTH_OK") {
            Some(HealthStatus::Okay)
        } else {
            None
        };
        proof {
            match r {
                Some(v) => {
                    HealthStatus::lemma_token_round_trip(v);
                },
                None => {},
            }
        }
        r
    }
}

/// Whether a round of time checks among the monitors has ended.
#[derive(Debug, Clone, Copy, PartialEq, Eq, Structural)]
pub enum RoundStatus {
    Finished,
    OnGoing,
}

impl RoundStatus {
    /// The token that stands for this value on the wire.
    pub open spec fn token(self) -> Seq<char> {
        match self {
            RoundStatus::Finished => "finished"@,
            RoundStatus::OnGoing => "on-going"@,
        }
    }

    /// The value that `token` stands for, if it stands for one. Tokens are
    /// matched exactly: case, hyphens and underscores all count.
    pub open spec fn of_token(token: Seq<char>) -> Option<RoundStatus> {
        if exists|v: RoundStatus| v.token() == token {
            Some(choose|v: RoundStatus| v.token() == token)
        } else {
            None
        }
    }

    /// No two values share a token.
    pub proof fn lemma_token_injective(a: RoundStatus, b: RoundStatus)
        requires
            a.token() == b.token(),
        ensures
            a == b,
    {
        reveal_strlit("finished");
        reveal_strlit("on-going");
        assert("finished"@.len() == 8 && "finished"@[0] == 'f');
        assert("on-going"@.len() == 8 && "on-going"@[0] == 'o');
    }

    /// Reading back the token of a value gives that value.
    pub proof fn lemma_token_round_trip(v: RoundStatus)
        ensures
            RoundStatus::of_token(v.token()) == Some(v),
    {
        let found = choose|w: RoundStatus| w.token() == v.token();
        RoundStatus::lemma_token_injective(found, v);
    }

    /// A token that stands for a value is the token of that value.
    pub proof fn lemma_of_token_exact(token: Seq<char>)
        ensures
            match RoundStatus::of_token(token) {
                Some(v) => v.token() == token,
                None => forall|v: RoundStatus| v.token() != token,
            },
    {
    }

    /// The token that stands for this value on the wire.
    pub fn as_ref(&self) -> (r: &'static str)
        ensures
            r@ == self.token(),
    {
        match self {
            RoundStatus::Finished => "finished",
            RoundStatus::OnGoing => "on-going",
        }
    }

    /// The token as an owned text: what is shown is what is sent.
    pub fn to_string(&self) -> (r: String)
        ensures
            r@ == self.token(),
    {
        self.as_ref().to_owned()
    }

    /// Reads a token back.
    pub fn from_token(token: &str) -> (r: Option<RoundStatus>)
        ensures
            r == RoundStatus::of_token(token@),
    {
        let r = if same_text(token, "finished") {
            Some(RoundStatus::Finished)
        } else if same_text(token, "on-going") {
            Some(RoundStatus::OnGoing)
        } else {
            None
        };
        proof {
            match r {
                Some(v) => {
                    RoundStatus::lemma_token_round_trip(v);
                },
                None => {},
            }
        }
        r
    }
}

/// What a monitor is doing in the quorum.
#[derive(Debug, Clone, Copy, PartialEq, Eq, Structural)]
pub enum MonState {
    Probing,
    Synchronizing,
    Electing,
    Leader,
    Peon,
    Shutdown,
}

impl MonState {
    /// The token that stands for this value on the wire.
    pub open spec fn token(self) -> Seq<char> {
        match self {
            MonState::Probing => "probing"@,
            MonState::Synchronizing => "synchronizing"@,
            MonState::Electing => "electing"@,
            MonState::Leader => "leader"@,
            MonState::Peon => "peon"@,
            MonState::Shutdown => "shutdown"@,
        }
    }

    /// The value that `token` stands for, if it stands for one. Tokens are
    /// matched exactly: case, hyphens and underscores all count.
    pub open spec fn of_token(token: Seq<char>) -> Option<MonState> {
        if exists|v: MonState| v.token() == token {
            Some(choose|v: MonState| v.token() == token)
        } else {
            None
        }
    }

    /// No two values share a token.
    pub proof fn lemma_token_injective(a: MonState, b: MonState)
        requires
            a.token() == b.token(),
        ensures
            a == b,
    {
        reveal_strlit("probing");
        reveal_strlit("synchronizing");
        reveal_strlit("electing");
        reveal_strlit("leader");
        reveal_strlit("peon");
        reveal_strlit("shutdown");
        assert("probing"@.len() == 7);
        assert("synchronizing"@.len() == 13);
        assert("electing"@.len() == 8 && "electing"@[0] == 'e');
        assert("leader"@.len() == 6);
        assert("peon"@.len() == 4);
        assert("shutdown"@.len() == 8 && "shutdown"@[0] == 's');
    }

    /// Reading back the token of a value gives that value.
    pub proof fn lemma_token_round_trip(v: MonState)
        ensures
            MonState::of_token(v.token()) == Some(v),
    {
        let found = choose|w: MonState| w.token() == v.token();
        MonState::lemma_token_injective(found, v);
    }

    /// A token that stands for a value is the token of that value.
    pub proof fn lemma_of_token_exact(token: Seq<char>)
        ensures
            match MonState::of_token(token) {
                Some(v) => v.token() == token,
                None => forall|v: MonState| v.token() != token,
            },
    {
    }

    /// The token that stands for this value on the wire.
    pub fn as_ref(&self) -> (r: &'static str)
        ensures
            r@ == self.token(),
    {
        match self {
            MonState::Probing => "probing",
            MonState::Synchronizing => "synchronizing",
            MonState::Electing => "electing",
            MonState::Leader => "leader",
            MonState::Peon => "peon",
            MonState::Shutdown => "shutdown",
        }
    }

    /// The token as an owned text: what is shown is what is sent.
    pub fn to_string(&self) -> (r: String)
        ensures
            r@ == self.token(),
    {
        self.as_ref().to_owned()
    }

    /// Reads a token back.
    pub fn from_token(token: &str) -> (r: Option<MonState>)
        ensures
            r == MonState::of_token(token@),
    {
        let r = if same_text(token, "probing") {
            Some(MonState::Probing)
        } else if same_text(token, "synchronizing") {
            Some(MonState::Synchronizing)
        } else if same_text(token, "electing") {
            Some(MonState::Electing)
        } else if same_text(token, "leader") {
            Some(MonState::Leader)
        } else if same_text(token, "peon") {
            Some(MonState::Peon)
        } else if same_text(token, "shutdown") {
            Some(MonState::Shutdown)
        } else {
            None
        };
        proof {
            match r {
                Some(v) => {
                    MonState::lemma_token_round_trip(v);
                },
                None => {},
            }
        }
        r
    }
}

} // verus!
