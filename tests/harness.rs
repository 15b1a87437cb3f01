use malloc_tuner::instance::{IMAGE, NAME_SUFFIX_LEN};
use malloc_tuner::load::{counter_metric, gauge_metric, load_continues, statsd_address};
use malloc_tuner::port::{PortPool, PORT_HIGH, PORT_LOW};
use malloc_tuner::{container_name, get_name, instance_env, plan_instance, volume_binds};

#[test]
fn ports_rise_then_wrap() {
    let mut pool = PortPool::new();
    let mut last = None;
    for k in 0..200u16 {
        let p = pool.allocate();
        assert_eq!(p, 12500 + k);
        if let Some(l) = last {
            assert!(p > l);
        }
        last = Some(p);
    }
    assert_eq!(last, Some(12699));
    assert_eq!(pool.allocate(), 12500);
    assert_eq!(pool.allocate(), 12501);
    assert_eq!((PORT_LOW, PORT_HIGH), (12500, 12700));
}

#[test]
fn empty_options_add_no_preload() {
    assert_eq!(instance_env(""), vec!["DD_SITE=datad0g.com", "DD_API_KEY=00001"]);
    assert_eq!(
        instance_env("narenas:1"),
        vec![
            "DD_SITE=datad0g.com",
            "DD_API_KEY=00001",
            "LD_PRELOAD=/opt/lib/nosys.so:/opt/datadog-agent/embedded/lib/libjemalloc.so",
            "MALLOC_CONF=narenas:1"
        ]
    );
}

#[test]
fn mounts_with_and_without_overlay() {
    assert_eq!(volume_binds(None), vec!["/var/run/docker.sock:/var/run/docker.sock:ro"]);
    assert_eq!(
        volume_binds(Some("/home/me/datadog.yaml")),
        vec![
            "/var/run/docker.sock:/var/run/docker.sock:ro",
            "/home/me/datadog.yaml:/etc/datadog-agent/datadog.yaml:ro"
        ]
    );
}

#[test]
fn names_are_prefixed_and_random() {
    assert_eq!(container_name(&['a', 'B', '7']), "groovin-aB7");
    let n = get_name();
    assert!(n.starts_with("groovin-"));
    let suffix = &n["groovin-".len()..];
    assert_eq!(suffix.len(), NAME_SUFFIX_LEN);
    assert!(suffix.chars().all(|c| c.is_ascii_alphanumeric()));
}

#[test]
fn plans_take_consecutive_ports() {
    let mut pool = PortPool::new();
    let a = plan_instance("", None, &mut pool);
    let b = plan_instance("narenas:2", Some("/tmp/x.yaml"), &mut pool);
    assert_eq!(a.port, 12500);
    assert_eq!(a.host_port, "12500");
    assert_eq!(b.port, 12501);
    assert_eq!(b.host_port, "12501");
    assert_eq!(a.env.len(), 2);
    assert_eq!(b.env.len(), 4);
    assert_eq!(b.binds.len(), 2);
    assert!(IMAGE.starts_with("datadog/agent-dev"));
}

#[test]
fn load_names() {
    assert_eq!(statsd_address(12500), "127.0.0.1:12500");
    assert_eq!(counter_metric(9999), "ziggle.counter9999");
    assert_eq!(gauge_metric(0), "ziggle.guage0");
    assert!(load_continues(10, 10));
    assert!(!load_continues(11, 10));
}
