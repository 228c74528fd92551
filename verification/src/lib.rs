mod engine;
mod identity;
mod netns;
mod paths;
mod seed;
mod sys;

pub use engine::{
    attrs_fixed, attrs_from_stat, attrs_match_stat, attrs_possible, clamp_read_len,
    lemma_static_always_resolves, lemma_write_read_round_trip, spec_read_at, spec_write_at,
    truncate_plan, Attrs, FileMapperFs, Mapper, OpenedHandle, StaticMapper, TruncatePlan,
    ATTR_TTL_SECS, OPEN_FALLBACK_MODE, READ_LEN_MAX, ROOT_INO,
};
pub use identity::UidGidPid;
pub use netns::{
    lemma_malformed_content_fails, lemma_resolution_deterministic, net_token, parse_netns_id,
    should_seed, spec_colon_from, spec_link_path, spec_netns_id, spec_resolve, spec_strip_brackets,
    spec_target_path, NetnsMapper, SanityReport,
};
pub use paths::{
    apply_extension, join_path, opt_bytes_view, spec_apply_ext, spec_dec, spec_join, spec_last_dot,
    u32_to_dec,
};
pub use seed::copy_file;
pub use sys::{StatInfo, EIO, ENOENT};
