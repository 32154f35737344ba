use sparrow::settings::{
    build_config, config_to_c, decay_from_c, decay_to_c, flag_from_c, limit_from_c, limit_to_c,
    quick_run_config, seed_from_c, separator_from_c, separator_to_c, time_budget_secs,
    with_single_worker, CConfigIntegers, CSeparatorConfig, ConfigIntegers, SeparatorSettings,
    ShrinkDecayKind,
};

fn sep(a: usize, b: usize, c: usize, d: usize, e: usize, f: usize) -> SeparatorSettings {
    SeparatorSettings {
        iter_no_imprv_limit: a,
        strike_limit: b,
        n_workers: c,
        n_container_samples: d,
        n_focussed_samples: e,
        n_coord_descents: f,
    }
}

fn defaults() -> ConfigIntegers {
    ConfigIntegers {
        rng_seed: None,
        max_conseq_failed_attempts: None,
        exploration_separator: sep(200, 3, 3, 50, 25, 3),
        shrink_decay: ShrinkDecayKind::TimeBased,
        compression_separator: sep(100, 5, 3, 50, 25, 3),
    }
}

#[test]
fn separator_counts_are_read_as_by_as() {
    let c = CSeparatorConfig {
        iter_no_imprv_limit: 200,
        strike_limit: 3,
        n_workers: -1,
        n_container_samples: 50,
        n_focussed_samples: 0,
        n_coord_descents: 7,
    };
    let s = separator_from_c(&c);
    assert_eq!(s.iter_no_imprv_limit, 200);
    assert_eq!(s.strike_limit, 3);
    assert_eq!(s.n_workers, usize::MAX);
    assert_eq!(s.n_container_samples, 50);
    assert_eq!(s.n_focussed_samples, 0);
    assert_eq!(s.n_coord_descents, 7);
    assert_eq!(separator_to_c(&s), c);
}

#[test]
fn limit_encoding() {
    assert_eq!(limit_from_c(-1), None);
    assert_eq!(limit_from_c(-7), None);
    assert_eq!(limit_from_c(0), Some(0));
    assert_eq!(limit_from_c(12), Some(12));
    assert_eq!(limit_to_c(None), -1);
    assert_eq!(limit_to_c(Some(12)), 12);
    assert_eq!(limit_to_c(limit_from_c(-7)), -1);
}

#[test]
fn decay_encoding() {
    assert_eq!(decay_from_c(1), ShrinkDecayKind::FailureBased);
    assert_eq!(decay_from_c(0), ShrinkDecayKind::TimeBased);
    assert_eq!(decay_from_c(2), ShrinkDecayKind::TimeBased);
    assert_eq!(decay_from_c(-1), ShrinkDecayKind::TimeBased);
    assert_eq!(decay_to_c(ShrinkDecayKind::TimeBased), 0);
    assert_eq!(decay_to_c(ShrinkDecayKind::FailureBased), 1);
}

#[test]
fn seed_zero_is_random() {
    assert_eq!(seed_from_c(0), None);
    assert_eq!(seed_from_c(42), Some(42));
}

#[test]
fn c_flags() {
    assert!(!flag_from_c(0));
    assert!(flag_from_c(1));
    assert!(flag_from_c(-3));
}

#[test]
fn build_config_reads_every_setting() {
    let c = CConfigIntegers {
        rng_seed: 0,
        max_conseq_failed_attempts: 4,
        exploration_separator: separator_to_c(&sep(10, 1, 2, 3, 4, 5)),
        shrink_decay_strategy: 1,
        compression_separator: separator_to_c(&sep(6, 7, 8, 9, 10, 11)),
    };
    let cfg = build_config(&c);
    assert_eq!(cfg.rng_seed, None);
    assert_eq!(cfg.max_conseq_failed_attempts, Some(4));
    assert_eq!(cfg.exploration_separator, sep(10, 1, 2, 3, 4, 5));
    assert_eq!(cfg.shrink_decay, ShrinkDecayKind::FailureBased);
    assert_eq!(cfg.compression_separator, sep(6, 7, 8, 9, 10, 11));
}

#[test]
fn default_config_round_trips_through_c() {
    let mut d = defaults();
    d.rng_seed = Some(77);
    d.max_conseq_failed_attempts = Some(3);
    let c = config_to_c(&d);
    assert_eq!(c.rng_seed, 0);
    assert_eq!(c.max_conseq_failed_attempts, 3);
    assert_eq!(c.shrink_decay_strategy, 0);
    assert_eq!(c.exploration_separator.iter_no_imprv_limit, 200);
    let mut expected = d;
    expected.rng_seed = None;
    assert_eq!(build_config(&c), expected);
    let mut random = defaults();
    random.max_conseq_failed_attempts = Some(3);
    assert_eq!(build_config(&config_to_c(&random)), random);
}

#[test]
fn canonical_c_config_round_trips() {
    let c = CConfigIntegers {
        rng_seed: 0,
        max_conseq_failed_attempts: -1,
        exploration_separator: CSeparatorConfig {
            iter_no_imprv_limit: -5,
            strike_limit: 2,
            n_workers: 1,
            n_container_samples: 9,
            n_focussed_samples: 8,
            n_coord_descents: 7,
        },
        shrink_decay_strategy: 1,
        compression_separator: separator_to_c(&sep(1, 2, 3, 4, 5, 6)),
    };
    assert_eq!(config_to_c(&build_config(&c)), c);
}

#[test]
fn quick_run_with_early_termination() {
    let cfg = quick_run_config(&defaults(), 123, 1, 8);
    assert_eq!(cfg.rng_seed, Some(123));
    assert_eq!(cfg.max_conseq_failed_attempts, Some(8));
    assert_eq!(cfg.shrink_decay, ShrinkDecayKind::FailureBased);
    assert_eq!(cfg.exploration_separator, defaults().exploration_separator);
}

#[test]
fn quick_run_without_early_termination() {
    let cfg = quick_run_config(&defaults(), 0, 0, 8);
    assert_eq!(cfg, defaults());
    let mut seeded = defaults();
    seeded.rng_seed = Some(4);
    assert_eq!(quick_run_config(&seeded, 0, 0, 8).rng_seed, None);
}

#[test]
fn time_budget_defaults_to_600() {
    assert_eq!(time_budget_secs(0), 600);
    assert_eq!(time_budget_secs(30), 30);
}

#[test]
fn single_worker_changes_only_worker_counts() {
    let out = with_single_worker(&defaults());
    assert_eq!(out.exploration_separator.n_workers, 1);
    assert_eq!(out.compression_separator.n_workers, 1);
    let mut expected = defaults();
    expected.exploration_separator.n_workers = 1;
    expected.compression_separator.n_workers = 1;
    assert_eq!(out, expected);
}
