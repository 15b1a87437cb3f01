use malloc_tuner::{check_genes, decimal_string, tuning_string, Dss, MallocConf};

#[test]
fn zero_vector_encodes_all_zero_fields() {
    let genes = [0usize; 7];
    let conf = MallocConf::from(&genes);
    assert_eq!(conf.tchache_max, 0);
    assert_eq!(conf.oversize_threshold, 0);
    assert_eq!(conf.narenas, 0);
    assert_eq!(conf.dss, Dss::Disabled);
    assert!(!conf.background_thread);
    assert_eq!(conf.muzzy_decay_ms, 0);
    assert_eq!(conf.lg_extent_max_active_fit, 0);
    assert_eq!(
        conf.to_string(),
        "background_thread:false,narenas:0,muzzy_decay_ms:0,tcache_max:0,oversize_threshold:0,dss:disabled,lg_extent_max_active_fit:0"
    );
}

#[test]
fn encoding_is_deterministic_with_seven_fields() {
    let genes = [19usize, 3, 7, 12, 6, 19, 4];
    let a = tuning_string(&genes);
    let b = tuning_string(&genes);
    assert_eq!(a, b);
    let fields: Vec<&str> = a.split(',').collect();
    assert_eq!(fields.len(), 7);
    let keys: Vec<&str> = fields.iter().map(|f| f.split(':').next().unwrap()).collect();
    assert_eq!(
        keys,
        vec![
            "background_thread",
            "narenas",
            "muzzy_decay_ms",
            "tcache_max",
            "oversize_threshold",
            "dss",
            "lg_extent_max_active_fit"
        ]
    );
    assert_eq!(
        a,
        "background_thread:true,narenas:7,muzzy_decay_ms:1900,tcache_max:123500,oversize_threshold:19500,dss:secondary,lg_extent_max_active_fit:4"
    );
}

#[test]
fn retention_mode_buckets() {
    for g in 0..20usize {
        let genes = [0, 0, 0, g, 0, 0, 0];
        let expected = if g < 3 {
            Dss::Disabled
        } else if g < 7 {
            Dss::Primary
        } else {
            Dss::Secondary
        };
        assert_eq!(MallocConf::from(&genes).dss, expected);
    }
    assert_eq!(Dss::Disabled.as_str(), "disabled");
    assert_eq!(Dss::Primary.as_str(), "primary");
    assert_eq!(Dss::Secondary.as_str(), "secondary");
}

#[test]
fn background_thread_above_five() {
    for g in 0..20usize {
        let genes = [0, 0, 0, 0, g, 0, 0];
        assert_eq!(MallocConf::from(&genes).background_thread, g > 5);
    }
}

#[test]
fn scaled_fields() {
    let genes = [3usize, 5, 2, 0, 0, 9, 11];
    let conf = MallocConf::from(&genes);
    assert_eq!(conf.tchache_max, 19500);
    assert_eq!(conf.oversize_threshold, 32500);
    assert_eq!(conf.narenas, 2);
    assert_eq!(conf.muzzy_decay_ms, 900);
    assert_eq!(conf.lg_extent_max_active_fit, 11);
}

#[test]
fn gene_vectors_checked() {
    assert!(check_genes(&[1, 2, 3, 4, 5, 6, 7]));
    assert!(!check_genes(&[1, 2, 3, 4, 5, 6]));
    assert!(!check_genes(&[1, 2, 3, 4, 5, 6, 7, 8]));
    assert!(!check_genes(&[usize::MAX, 0, 0, 0, 0, 0, 0]));
    assert!(!check_genes(&[0, 0, 0, 0, 0, usize::MAX, 0]));
}

#[test]
fn decimal_spelling() {
    assert_eq!(decimal_string(0), "0");
    assert_eq!(decimal_string(7), "7");
    assert_eq!(decimal_string(12700), "12700");
    assert_eq!(decimal_string(usize::MAX), usize::MAX.to_string());
}
