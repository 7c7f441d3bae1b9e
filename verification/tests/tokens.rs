use ceph_cmd::token::{HealthStatus, MonState, OsdOption, PoolOption, RoundStatus};

fn all_osd_options() -> Vec<(OsdOption, &'static str)> {
    vec![
        (OsdOption::Full, "full"),
        (OsdOption::Pause, "pause"),
        (OsdOption::NoUp, "noup"),
        (OsdOption::NoDown, "nodown"),
        (OsdOption::NoOut, "noout"),
        (OsdOption::NoIn, "noin"),
        (OsdOption::NoBackfill, "nobackfill"),
        (OsdOption::NoRebalance, "norebalance"),
        (OsdOption::NoRecover, "norecover"),
        (OsdOption::NoScrub, "noscrub"),
        (OsdOption::NoDeepScrub, "nodeep-scrub"),
        (OsdOption::NoTierAgent, "notieragent"),
        (OsdOption::SortBitwise, "sortbitwise"),
        (OsdOption::RecoveryDeletes, "recovery_deletes"),
        (OsdOption::RequireJewelOsds, "require_jewel_osds"),
        (OsdOption::RequireKrakenOsds, "require_kraken_osds"),
    ]
}

#[test]
fn osd_option_tokens_round_trip() {
    let all = all_osd_options();
    assert_eq!(all.len(), 16);
    for (value, token) in all.iter() {
        assert_eq!(value.as_ref(), *token);
        assert_eq!(value.to_string(), token.to_string());
        assert_eq!(OsdOption::from_token(value.as_ref()), Some(*value));
        assert_eq!(OsdOption::from_token(token), Some(*value));
    }
}

#[test]
fn osd_option_tokens_are_distinct() {
    let all = all_osd_options();
    for (i, (_, a)) in all.iter().enumerate() {
        for (j, (_, b)) in all.iter().enumerate() {
            assert_eq!(i == j, a == b);
        }
    }
}

fn all_pool_options() -> Vec<(PoolOption, &'static str)> {
    vec![
        (PoolOption::Size, "size"),
        (PoolOption::MinSize, "min_size"),
        (PoolOption::CrashReplayInterval, "crash_replay_interval"),
        (PoolOption::PgNum, "pg_num"),
        (PoolOption::PgpNum, "pgp_num"),
        (PoolOption::CrushRule, "crush_rule"),
        (PoolOption::HashPsPool, "hashpspool"),
        (PoolOption::NoDelete, "nodelete"),
        (PoolOption::NoPgChange, "nopgchange"),
        (PoolOption::NoSizeChange, "nosizechange"),
        (PoolOption::WriteFadviceDontNeed, "write_fadvice_dontneed"),
        (PoolOption::NoScrub, "noscrub"),
        (PoolOption::NoDeepScrub, "nodeep-scrub"),
        (PoolOption::HitSetType, "hit_set_type"),
        (PoolOption::HitSetPeriod, "hit_set_period"),
        (PoolOption::HitSetCount, "hit_set_count"),
        (PoolOption::HitSetFpp, "hit_set_fpp"),
        (PoolOption::UseGmtHitset, "use_gmt_hitset"),
        (PoolOption::TargetMaxBytes, "target_max_bytes"),
        (PoolOption::TargetMaxObjects, "target_max_objects"),
        (PoolOption::CacheTargetDirtyRatio, "cache_target_dirty_ratio"),
        (PoolOption::CacheTargetDirtyHighRatio, "cache_target_dirty_high_ratio"),
        (PoolOption::CacheTargetFullRatio, "cache_target_full_ratio"),
        (PoolOption::CacheMinFlushAge, "cache_min_flush_age"),
        (PoolOption::CacheMinEvictAge, "cachem_min_evict_age"),
        (PoolOption::Auid, "auid"),
        (PoolOption::MinReadRecencyForPromote, "min_read_recency_for_promote"),
        (PoolOption::MinWriteRecencyForPromte, "min_write_recency_for_promote"),
        (PoolOption::FastRead, "fast_read"),
        (PoolOption::HitSetGradeDecayRate, "hit_set_decay_rate"),
        (PoolOption::HitSetSearchLastN, "hit_set_search_last_n"),
        (PoolOption::ScrubMinInterval, "scrub_min_interval"),
        (PoolOption::ScrubMaxInterval, "scrub_max_interval"),
        (PoolOption::DeepScrubInterval, "deep_scrub_interval"),
        (PoolOption::RecoveryPriority, "recovery_priority"),
        (PoolOption::RecoveryOpPriority, "recovery_op_priority"),
        (PoolOption::ScrubPriority, "scrub_priority"),
        (PoolOption::CompressionMode, "compression_mode"),
        (PoolOption::CompressionAlgorithm, "compression_algorithm"),
        (PoolOption::CompressionRequiredRatio, "compression_required_ratio"),
        (PoolOption::CompressionMaxBlobSize, "compression_max_blob_size"),
        (PoolOption::CompressionMinBlobSize, "compression_min_blob_size"),
        (PoolOption::CsumType, "csum_type"),
        (PoolOption::CsumMinBlock, "csum_min_block"),
        (PoolOption::CsumMaxBlock, "csum_max_block"),
        (PoolOption::AllocEcOverwrites, "allow_ec_overwrites"),
    ]
}

#[test]
fn pool_option_tokens_round_trip() {
    let all = all_pool_options();
    assert_eq!(all.len(), 46);
    for (value, token) in all.iter() {
        assert_eq!(value.as_ref(), *token);
        assert_eq!(value.to_string(), token.to_string());
        assert_eq!(PoolOption::from_token(value.as_ref()), Some(*value));
        assert_eq!(PoolOption::from_token(token), Some(*value));
    }
}

#[test]
fn pool_option_tokens_are_distinct() {
    let all = all_pool_options();
    for (i, (_, a)) in all.iter().enumerate() {
        for (j, (_, b)) in all.iter().enumerate() {
            assert_eq!(i == j, a == b);
        }
    }
}

fn all_health_statuss() -> Vec<(HealthStatus, &'static str)> {
    vec![
        (HealthStatus::Error, "HEALTH_ERR"),
        (HealthStatus::Warn, "HEALTH_WARN"),
        (HealthStatus::Okay, "HEALTH_OK"),
    ]
}

#[test]
fn health_status_tokens_round_trip() {
    let all = all_health_statuss();
    assert_eq!(all.len(), 3);
    for (value, token) in all.iter() {
        assert_eq!(value.as_ref(), *token);
        assert_eq!(value.to_string(), token.to_string());
        assert_eq!(HealthStatus::from_token(value.as_ref()), Some(*value));
        assert_eq!(HealthStatus::from_token(token), Some(*value));
    }
}

#[test]
fn health_status_tokens_are_distinct() {
    let all = all_health_statuss();
    for (i, (_, a)) in all.iter().enumerate() {
        for (j, (_, b)) in all.iter().enumerate() {
            assert_eq!(i == j, a == b);
        }
    }
}

fn all_round_statuss() -> Vec<(RoundStatus, &'static str)> {
    vec![
        (RoundStatus::Finished, "finished"),
        (RoundStatus::OnGoing, "on-going"),
    ]
}

#[test]
fn round_status_tokens_round_trip() {
    let all = all_round_statuss();
    assert_eq!(all.len(), 2);
    for (value, token) in all.iter() {
        assert_eq!(value.as_ref(), *token);
        assert_eq!(value.to_string(), token.to_string());
        assert_eq!(RoundStatus::from_token(value.as_ref()), Some(*value));
        assert_eq!(RoundStatus::from_token(token), Some(*value));
    }
}

#[test]
fn round_status_tokens_are_distinct() {
    let all = all_round_statuss();
    for (i, (_, a)) in all.iter().enumerate() {
        for (j, (_, b)) in all.iter().enumerate() {
            assert_eq!(i == j, a == b);
        }
    }
}

fn all_mon_states() -> Vec<(MonState, &'static str)> {
    vec![
        (MonState::Probing, "probing"),
        (MonState::Synchronizing, "synchronizing"),
        (MonState::Electing, "electing"),
        (MonState::Leader, "leader"),
        (MonState::Peon, "peon"),
        (MonState::Shutdown, "shutdown"),
    ]
}

#[test]
fn mon_state_tokens_round_trip() {
    let all = all_mon_states();
    assert_eq!(all.len(), 6);
    for (value, token) in all.iter() {
        assert_eq!(value.as_ref(), *token);
        assert_eq!(value.to_string(), token.to_string());
        assert_eq!(MonState::from_token(value.as_ref()), Some(*value));
        assert_eq!(MonState::from_token(token), Some(*value));
    }
}

#[test]
fn mon_state_tokens_are_distinct() {
    let all = all_mon_states();
    for (i, (_, a)) in all.iter().enumerate() {
        for (j, (_, b)) in all.iter().enumerate() {
            assert_eq!(i == j, a == b);
        }
    }
}

#[test]
fn tokens_are_matched_exactly() {
    assert_eq!(OsdOption::from_token("nodeep-scrub"), Some(OsdOption::NoDeepScrub));
    assert_eq!(OsdOption::from_token("nodeep_scrub"), None);
    assert_eq!(OsdOption::from_token("NODEEP-SCRUB"), None);
    assert_eq!(OsdOption::from_token("nodeep-scrub "), None);
    assert_eq!(OsdOption::from_token(""), None);
    assert_eq!(PoolOption::from_token("nodeep-scrub"), Some(PoolOption::NoDeepScrub));
    assert_eq!(PoolOption::from_token("nodeep_scrub"), None);
    assert_eq!(PoolOption::from_token("min-size"), None);
    assert_eq!(PoolOption::from_token("Size"), None);
    assert_eq!(RoundStatus::from_token("on-going"), Some(RoundStatus::OnGoing));
    assert_eq!(RoundStatus::from_token("on_going"), None);
    assert_eq!(RoundStatus::from_token("ongoing"), None);
    assert_eq!(HealthStatus::from_token("HEALTH_OK"), Some(HealthStatus::Okay));
    assert_eq!(HealthStatus::from_token("health_ok"), None);
    assert_eq!(HealthStatus::from_token("HEALTH-OK"), None);
    assert_eq!(MonState::from_token("leader"), Some(MonState::Leader));
    assert_eq!(MonState::from_token("Leader"), None);
}

#[test]
fn tokens_are_spelled_as_the_cluster_spells_them() {
    assert_eq!(OsdOption::NoDeepScrub.as_ref(), "nodeep-scrub");
    assert_eq!(OsdOption::RequireJewelOsds.to_string(), "require_jewel_osds");
    assert_eq!(PoolOption::CacheMinEvictAge.as_ref(), "cachem_min_evict_age");
    assert_eq!(PoolOption::HitSetGradeDecayRate.as_ref(), "hit_set_decay_rate");
    assert_eq!(PoolOption::MinWriteRecencyForPromte.as_ref(), "min_write_recency_for_promote");
    assert_eq!(PoolOption::AllocEcOverwrites.as_ref(), "allow_ec_overwrites");
    assert_eq!(HealthStatus::Error.to_string(), "HEALTH_ERR");
    assert_eq!(HealthStatus::Warn.to_string(), "HEALTH_WARN");
    assert_eq!(RoundStatus::Finished.to_string(), "finished");
    assert_eq!(MonState::Synchronizing.as_ref(), "synchronizing");
}
