//! The integer settings of the optimizer and their C encoding.
//!
//! Over the C interface every count is an `i32`, an absent limit is `-1`, an
//! absent seed is `0`, and the shrink-decay strategy is a code (`0` time
//! based, `1` failure based).  These functions convert between that
//! encoding and the optimizer's settings.
use vstd::prelude::*;

verus! {

/// The separator's counts as they cross the C interface.
#[derive(Clone, Copy, Debug, PartialEq, Eq, Structural)]
pub struct CSeparatorConfig {
    pub iter_no_imprv_limit: i32,
    pub strike_limit: i32,
    pub n_workers: i32,
    pub n_container_samples: i32,
    pub n_focussed_samples: i32,
    pub n_coord_descents: i32,
}

/// The separator's counts as the optimizer uses them.
#[derive(Clone, Copy, Debug, PartialEq, Eq, Structural)]
pub struct SeparatorSettings {
    pub iter_no_imprv_limit: usize,
    pub strike_limit: usize,
    pub n_workers: usize,
    pub n_container_samples: usize,
    pub n_focussed_samples: usize,
    pub n_coord_descents: usize,
}

/// How the compression phase shrinks its step.
#[derive(Clone, Copy, Debug, PartialEq, Eq, Structural)]
pub enum ShrinkDecayKind {
    /// The step shrinks with the time that has passed.
    TimeBased,
    /// The step shrinks after each failure, by a ratio given beside it.
    FailureBased,
}

/// The integer part of the C configuration of a run.
#[derive(Clone, Copy, Debug, PartialEq, Eq, Structural)]
pub struct CConfigIntegers {
    /// `0` means: a random seed.
    pub rng_seed: u64,
    /// A negative value means: no limit.
    pub max_conseq_failed_attempts: i32,
    pub exploration_separator: CSeparatorConfig,
    /// `1` means failure based; anything else time based.
    pub shrink_decay_strategy: i32,
    pub compression_separator: CSeparatorConfig,
}

/// The integer part of the optimizer's configuration of a run.
#[derive(Clone, Copy, Debug, PartialEq, Eq, Structural)]
pub struct ConfigIntegers {
    pub rng_seed: Option<usize>,
    pub max_conseq_failed_attempts: Option<usize>,
    pub exploration_separator: SeparatorSettings,
    pub shrink_decay: ShrinkDecayKind,
    pub compression_separator: SeparatorSettings,
}

/// Reads the separator's counts; each `i32` becomes a `usize` as by `as`.
pub fn separator_from_c(c: &CSeparatorConfig) -> (s: SeparatorSettings)
    ensures
        s == spec_separator_from_c(*c),
        s.iter_no_imprv_limit == c.iter_no_imprv_limit as usize,
        s.strike_limit == c.strike_limit as usize,
        s.n_workers == c.n_workers as usize,
        s.n_container_samples == c.n_container_samples as usize,
        s.n_focussed_samples == c.n_focussed_samples as usize,
        s.n_coord_descents == c.n_coord_descents as usize,
{
    SeparatorSettings {
        iter_no_imprv_limit: c.iter_no_imprv_limit as usize,
        strike_limit: c.strike_limit as usize,
        n_workers: c.n_workers as usize,
        n_container_samples: c.n_container_samples as usize,
        n_focussed_samples: c.n_focussed_samples as usize,
        n_coord_descents: c.n_coord_descents as usize,
    }
}

/// Writes the separator's counts; each `usize` becomes an `i32` as by `as`.
pub fn separator_to_c(s: &SeparatorSettings) -> (c: CSeparatorConfig)
    ensures
        c == spec_separator_to_c(*s),
        c.iter_no_imprv_limit == s.iter_no_imprv_limit as i32,
        c.strike_limit == s.strike_limit as i32,
        c.n_workers == s.n_workers as i32,
        c.n_container_samples == s.n_container_samples as i32,
        c.n_focussed_samples == s.n_focussed_samples as i32,
        c.n_coord_descents == s.n_coord_descents as i32,
{
    CSeparatorConfig {
        iter_no_imprv_limit: s.iter_no_imprv_limit as i32,
        strike_limit: s.strike_limit as i32,
        n_workers: s.n_workers as i32,
        n_container_samples: s.n_container_samples as i32,
        n_focussed_samples: s.n_focussed_samples as i32,
        n_coord_descents: s.n_coord_descents as i32,
    }
}

pub open spec fn spec_limit_from_c(v: i32) -> Option<usize> {
    if v >= 0 {
        Some(v as usize)
    } else {
        None
    }
}

pub open spec fn spec_limit_to_c(limit: Option<usize>) -> i32 {
    match limit {
        Some(n) => n as i32,
        None => -1i32,
    }
}

pub open spec fn spec_decay_from_c(code: i32) -> ShrinkDecayKind {
    if code == 1 {
        ShrinkDecayKind::FailureBased
    } else {
        ShrinkDecayKind::TimeBased
    }
}

pub open spec fn spec_decay_to_c(kind: ShrinkDecayKind) -> i32 {
    match kind {
        ShrinkDecayKind::TimeBased => 0i32,
        ShrinkDecayKind::FailureBased => 1i32,
    }
}

pub open spec fn spec_seed_from_c(seed: u64) -> Option<usize> {
    if seed != 0 {
        Some(seed as usize)
    } else {
        None
    }
}

/// The settings that a C configuration stands for.
pub open spec fn spec_build_config(c: CConfigIntegers) -> ConfigIntegers {
    ConfigIntegers {
        rng_seed: spec_seed_from_c(c.rng_seed),
        max_conseq_failed_attempts: spec_limit_from_c(c.max_conseq_failed_attempts),
        exploration_separator: spec_separator_from_c(c.exploration_separator),
        shrink_decay: spec_decay_from_c(c.shrink_decay_strategy),
        compression_separator: spec_separator_from_c(c.compression_separator),
    }
}

/// The C encoding of settings; the seed is written as `0`.
pub open spec fn spec_config_to_c(cfg: ConfigIntegers) -> CConfigIntegers {
    CConfigIntegers {
        rng_seed: 0,
        max_conseq_failed_attempts: spec_limit_to_c(cfg.max_conseq_failed_attempts),
        exploration_separator: spec_separator_to_c(cfg.exploration_separator),
        shrink_decay_strategy: spec_decay_to_c(cfg.shrink_decay),
        compression_separator: spec_separator_to_c(cfg.compression_separator),
    }
}

/// Reads an optional limit: a negative value is no limit.
pub fn limit_from_c(v: i32) -> (limit: Option<usize>)
    ensures
        limit == spec_limit_from_c(v),
        v >= 0 ==> limit == Some(v as usize),
        v < 0 ==> limit is None,
{
    if v >= 0 {
        Some(v as usize)
    } else {
        None
    }
}

/// Writes an optional limit: no limit is `-1`.
pub fn limit_to_c(limit: Option<usize>) -> (v: i32)
    ensures
        v == spec_limit_to_c(limit),
        limit matches Some(n) ==> v == n as i32,
        limit is None ==> v == -1,
{
    match limit {
        Some(n) => n as i32,
        None => -1,
    }
}

/// Reads the shrink-decay code: `1` is failure based, anything else time based.
pub fn decay_from_c(code: i32) -> (kind: ShrinkDecayKind)
    ensures
        kind == spec_decay_from_c(code),
        code == 1 ==> kind == ShrinkDecayKind::FailureBased,
        code != 1 ==> kind == ShrinkDecayKind::TimeBased,
{
    if code == 1 {
        ShrinkDecayKind::FailureBased
    } else {
        ShrinkDecayKind::TimeBased
    }
}

/// Writes the shrink-decay code: `0` time based, `1` failure based.
pub fn decay_to_c(kind: ShrinkDecayKind) -> (code: i32)
    ensures
        code == spec_decay_to_c(kind),
        kind == ShrinkDecayKind::TimeBased ==> code == 0,
        kind == ShrinkDecayKind::FailureBased ==> code == 1,
{
    match kind {
        ShrinkDecayKind::TimeBased => 0,
        ShrinkDecayKind::FailureBased => 1,
    }
}

/// Reads a seed: `0` is no seed (a random one is drawn), anything else is
/// that seed.
pub fn seed_from_c(seed: u64) -> (s: Option<usize>)
    ensures
        s == spec_seed_from_c(seed),
        seed != 0 ==> s == Some(seed as usize),
        seed == 0 ==> s is None,
{
    if seed != 0 {
        Some(seed as usize)
    } else {
        None
    }
}

/// Reads a C boolean: any non-zero value is true.
pub fn flag_from_c(v: i32) -> (b: bool)
    ensures
        b == (v != 0),
{
    v != 0
}

/// Builds a run's integer settings from their C encoding.
pub fn build_config(c: &CConfigIntegers) -> (cfg: ConfigIntegers)
    ensures
        cfg == spec_build_config(*c),
        c.rng_seed != 0 ==> cfg.rng_seed == Some(c.rng_seed as usize),
        c.rng_seed == 0 ==> cfg.rng_seed is None,
        c.max_conseq_failed_attempts >= 0 ==> cfg.max_conseq_failed_attempts == Some(
            c.max_conseq_failed_attempts as usize,
        ),
        c.max_conseq_failed_attempts < 0 ==> cfg.max_conseq_failed_attempts is None,
        (cfg.shrink_decay == ShrinkDecayKind::FailureBased) == (c.shrink_decay_strategy == 1),
        cfg.exploration_separator.n_workers == c.exploration_separator.n_workers as usize,
        cfg.compression_separator.n_workers == c.compression_separator.n_workers as usize,
{
    ConfigIntegers {
        rng_seed: seed_from_c(c.rng_seed),
        max_conseq_failed_attempts: limit_from_c(c.max_conseq_failed_attempts),
        exploration_separator: separator_from_c(&c.exploration_separator),
        shrink_decay: decay_from_c(c.shrink_decay_strategy),
        compression_separator: separator_from_c(&c.compression_separator),
    }
}

/// Encodes a run's integer settings (the default configuration, as the C
/// interface hands it out).  The seed is always written as `0`: a random
/// seed.
pub fn config_to_c(cfg: &ConfigIntegers) -> (c: CConfigIntegers)
    ensures
        c == spec_config_to_c(*cfg),
        c.rng_seed == 0,
        cfg.max_conseq_failed_attempts is None ==> c.max_conseq_failed_attempts == -1,
        (c.shrink_decay_strategy == 1) == (cfg.shrink_decay == ShrinkDecayKind::FailureBased),
        (c.shrink_decay_strategy == 0) == (cfg.shrink_decay == ShrinkDecayKind::TimeBased),
{
    CConfigIntegers {
        rng_seed: 0,
        max_conseq_failed_attempts: limit_to_c(cfg.max_conseq_failed_attempts),
        exploration_separator: separator_to_c(&cfg.exploration_separator),
        shrink_decay_strategy: decay_to_c(cfg.shrink_decay),
        compression_separator: separator_to_c(&cfg.compression_separator),
    }
}

/// The settings of a one-call run: the defaults, with a limit on consecutive
/// failed attempts (`early_max_failed`) and failure-based decay when early
/// termination is asked for (`early_termination` non-zero), and the given
/// seed, `0` meaning a random one.
pub fn quick_run_config(
    defaults: &ConfigIntegers,
    rng_seed: u64,
    early_termination: i32,
    early_max_failed: usize,
) -> (cfg: ConfigIntegers)
    ensures
        cfg.rng_seed == spec_seed_from_c(rng_seed),
        rng_seed != 0 ==> cfg.rng_seed == Some(rng_seed as usize),
        rng_seed == 0 ==> cfg.rng_seed is None,
        cfg.max_conseq_failed_attempts == (if early_termination != 0 {
            Some(early_max_failed)
        } else {
            defaults.max_conseq_failed_attempts
        }),
        cfg.shrink_decay == (if early_termination != 0 {
            ShrinkDecayKind::FailureBased
        } else {
            defaults.shrink_decay
        }),
        cfg.exploration_separator == defaults.exploration_separator,
        cfg.compression_separator == defaults.compression_separator,
{
    let mut cfg = *defaults;
    if early_termination != 0 {
        cfg.max_conseq_failed_attempts = Some(early_max_failed);
        cfg.shrink_decay = ShrinkDecayKind::FailureBased;
    }
    cfg.rng_seed = seed_from_c(rng_seed);
    cfg
}

/// The total time budget of a one-call run, in seconds: the given one, or
/// 600 when it is 0.
pub fn time_budget_secs(global_time_secs: u64) -> (secs: u64)
    ensures
        secs == (if global_time_secs > 0 {
            global_time_secs
        } else {
            600u64
        }),
{
    if global_time_secs > 0 {
        global_time_secs
    } else {
        600
    }
}

/// The settings for a host without threads: both phases separate with a
/// single worker.
pub fn with_single_worker(cfg: &ConfigIntegers) -> (out: ConfigIntegers)
    ensures
        out == (ConfigIntegers {
            exploration_separator: SeparatorSettings { n_workers: 1, ..cfg.exploration_separator },
            compression_separator: SeparatorSettings { n_workers: 1, ..cfg.compression_separator },
            ..*cfg
        }),
{
    let mut out = *cfg;
    out.exploration_separator.n_workers = 1;
    out.compression_separator.n_workers = 1;
    out
}

pub open spec fn spec_separator_from_c(c: CSeparatorConfig) -> SeparatorSettings {
    SeparatorSettings {
        iter_no_imprv_limit: c.iter_no_imprv_limit as usize,
        strike_limit: c.strike_limit as usize,
        n_workers: c.n_workers as usize,
        n_container_samples: c.n_container_samples as usize,
        n_focussed_samples: c.n_focussed_samples as usize,
        n_coord_descents: c.n_coord_descents as usize,
    }
}

pub open spec fn spec_separator_to_c(s: SeparatorSettings) -> CSeparatorConfig {
    CSeparatorConfig {
        iter_no_imprv_limit: s.iter_no_imprv_limit as i32,
        strike_limit: s.strike_limit as i32,
        n_workers: s.n_workers as i32,
        n_container_samples: s.n_container_samples as i32,
        n_focussed_samples: s.n_focussed_samples as i32,
        n_coord_descents: s.n_coord_descents as i32,
    }
}

/// Every count of the settings fits in an `i32`.
pub open spec fn fits_c(cfg: ConfigIntegers) -> bool {
    &&& separator_fits_c(cfg.exploration_separator)
    &&& separator_fits_c(cfg.compression_separator)
    &&& (cfg.max_conseq_failed_attempts matches Some(n) ==> n <= i32::MAX)
}

pub open spec fn separator_fits_c(s: SeparatorSettings) -> bool {
    &&& s.iter_no_imprv_limit <= i32::MAX
    &&& s.strike_limit <= i32::MAX
    &&& s.n_workers <= i32::MAX
    &&& s.n_container_samples <= i32::MAX
    &&& s.n_focussed_samples <= i32::MAX
    &&& s.n_coord_descents <= i32::MAX
}

proof fn lemma_usize_i32_round_trip(n: usize)
    requires
        n <= i32::MAX,
    ensures
        (n as i32) as usize == n,
        (n as i32) >= 0,
{
}

proof fn lemma_i32_usize_round_trip(v: i32)
    ensures
        (v as usize) as i32 == v,
{
    assert((v as usize) as i32 == v) by (bit_vector);
}

/// What the C encoding means, for every value: only `0` is a random seed and
/// every other seed is kept; only a negative limit is "no limit" and every
/// other limit is kept; only code `1` is failure-based decay; no limit is
/// written as `-1`, decay as `0` (time based) or `1` (failure based).
pub proof fn lemma_c_encoding_meaning(seed: u64, v: i32, code: i32, limit: Option<usize>)
    ensures
        seed != 0 ==> spec_seed_from_c(seed) == Some(seed as usize),
        spec_seed_from_c(0) is None,
        v >= 0 ==> spec_limit_from_c(v) == Some(v as usize),
        v < 0 ==> spec_limit_from_c(v) is None,
        limit matches Some(n) ==> spec_limit_to_c(limit) == n as i32,
        spec_limit_to_c(None) == -1,
        (spec_decay_from_c(code) == ShrinkDecayKind::FailureBased) == (code == 1),
        spec_decay_to_c(ShrinkDecayKind::TimeBased) == 0,
        spec_decay_to_c(ShrinkDecayKind::FailureBased) == 1,
        spec_decay_from_c(spec_decay_to_c(ShrinkDecayKind::TimeBased)) == ShrinkDecayKind::TimeBased,
        spec_decay_from_c(spec_decay_to_c(ShrinkDecayKind::FailureBased))
            == ShrinkDecayKind::FailureBased,
{
}

/// Each separator count is read and written on its own, as by `as`: no
/// count is taken from another one.
pub proof fn lemma_separator_encoding_meaning(c: CSeparatorConfig, t: SeparatorSettings)
    ensures
        spec_separator_from_c(c).iter_no_imprv_limit == c.iter_no_imprv_limit as usize,
        spec_separator_from_c(c).strike_limit == c.strike_limit as usize,
        spec_separator_from_c(c).n_workers == c.n_workers as usize,
        spec_separator_from_c(c).n_container_samples == c.n_container_samples as usize,
        spec_separator_from_c(c).n_focussed_samples == c.n_focussed_samples as usize,
        spec_separator_from_c(c).n_coord_descents == c.n_coord_descents as usize,
        spec_separator_to_c(t).iter_no_imprv_limit == t.iter_no_imprv_limit as i32,
        spec_separator_to_c(t).strike_limit == t.strike_limit as i32,
        spec_separator_to_c(t).n_workers == t.n_workers as i32,
        spec_separator_to_c(t).n_container_samples == t.n_container_samples as i32,
        spec_separator_to_c(t).n_focussed_samples == t.n_focussed_samples as i32,
        spec_separator_to_c(t).n_coord_descents == t.n_coord_descents as i32,
{
}

/// Reading a seed keeps every non-zero seed: two C seeds that are not `0`
/// and differ give different seeds, and a non-zero seed is never read as
/// random.
pub proof fn lemma_nonzero_seed_is_kept(seed: u64)
    requires
        seed != 0,
    ensures
        spec_seed_from_c(seed) is Some,
        spec_seed_from_c(seed).unwrap() as u64 == seed || seed > usize::MAX,
{
}

/// Handing out settings and reading them back gives the same settings,
/// whenever every count fits in an `i32`, except the seed: it is handed out
/// as `0` and comes back as "random".
pub proof fn lemma_config_round_trip(cfg: ConfigIntegers)
    requires
        fits_c(cfg),
    ensures
        spec_build_config(spec_config_to_c(cfg)) == (ConfigIntegers { rng_seed: None, ..cfg }),
{
    let e = cfg.exploration_separator;
    let k = cfg.compression_separator;
    lemma_usize_i32_round_trip(e.iter_no_imprv_limit);
    lemma_usize_i32_round_trip(e.strike_limit);
    lemma_usize_i32_round_trip(e.n_workers);
    lemma_usize_i32_round_trip(e.n_container_samples);
    lemma_usize_i32_round_trip(e.n_focussed_samples);
    lemma_usize_i32_round_trip(e.n_coord_descents);
    lemma_usize_i32_round_trip(k.iter_no_imprv_limit);
    lemma_usize_i32_round_trip(k.strike_limit);
    lemma_usize_i32_round_trip(k.n_workers);
    lemma_usize_i32_round_trip(k.n_container_samples);
    lemma_usize_i32_round_trip(k.n_focussed_samples);
    lemma_usize_i32_round_trip(k.n_coord_descents);
    if let Some(n) = cfg.max_conseq_failed_attempts {
        lemma_usize_i32_round_trip(n);
    }
}

/// Reading a C configuration and writing it back gives it unchanged when it
/// is in canonical form: seed `0`, limit `-1` or more, decay code `0` or `1`.
/// The counts come back unchanged whatever their sign.
pub proof fn lemma_c_config_round_trip(c: CConfigIntegers)
    requires
        c.rng_seed == 0,
        c.max_conseq_failed_attempts >= -1,
        c.shrink_decay_strategy == 0 || c.shrink_decay_strategy == 1,
    ensures
        spec_config_to_c(spec_build_config(c)) == c,
{
    lemma_separator_c_round_trip(c.exploration_separator);
    lemma_separator_c_round_trip(c.compression_separator);
    lemma_i32_usize_round_trip(c.max_conseq_failed_attempts);
}

/// Reading C separator counts and writing them back gives the same counts,
/// negative ones included.
pub proof fn lemma_separator_c_round_trip(c: CSeparatorConfig)
    ensures
        spec_separator_to_c(spec_separator_from_c(c)) == c,
{
    lemma_i32_usize_round_trip(c.iter_no_imprv_limit);
    lemma_i32_usize_round_trip(c.strike_limit);
    lemma_i32_usize_round_trip(c.n_workers);
    lemma_i32_usize_round_trip(c.n_container_samples);
    lemma_i32_usize_round_trip(c.n_focussed_samples);
    lemma_i32_usize_round_trip(c.n_coord_descents);
}

} // verus!
