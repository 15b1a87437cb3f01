use vstd::prelude::*;
use vstd::string::StringExecFns;

use rand::Rng;

use crate::port::{next_port, PortPool};
use crate::text::{decimal_string, decimal_text, push_char};

verus! {

/// The image every instance runs.
pub const IMAGE: &'static str = "datadog/agent-dev:nightly-main-8ea4e935-py3";

/// The host name every instance reports.
pub const HOSTNAME: &'static str = "zogglebork";

/// The container network instances join.
pub const NETWORK: &'static str = "zorknet";

/// The instance's metrics-ingestion port.
pub const INGEST_PORT: &'static str = "8125/udp";

/// The only host address the ingestion port is published on.
pub const LOOPBACK: &'static str = "127.0.0.1";

/// CPU quota of one instance, in billionths of a CPU (two CPUs).
pub const NANO_CPUS: i64 = 2_000_000_000;

/// Random characters in an instance name.
pub const NAME_SUFFIX_LEN: usize = 10;

#[verifier::external_type_specification]
#[verifier::external_body]
pub struct ExThreadRng(rand::rngs::ThreadRng);

pub assume_specification[ rand::thread_rng ]() -> rand::rngs::ThreadRng;

pub open spec fn is_alphanumeric(c: char) -> bool {
    ('a' <= c <= 'z') || ('A' <= c <= 'Z') || ('0' <= c <= '9')
}

/// Relies on Rng::sample with rand's Alphanumeric distribution, which yields
/// one of the bytes A-Z, a-z, 0-9.
#[verifier::external_body]
fn sample_alphanumeric(rng: &mut rand::rngs::ThreadRng) -> (r: char)
    ensures
        is_alphanumeric(r),
{
    rng.sample(rand::distributions::Alphanumeric) as char
}

/// The name of an instance with the given random suffix.
pub open spec fn name_text(suffix: Seq<char>) -> Seq<char> {
    "groovin-"@ + suffix
}

/// The instance name for a chosen suffix.
pub fn container_name(suffix: &[char]) -> (r: String)
    ensures
        r@ == name_text(suffix@),
{
    let mut s = String::new();
    s.append("groovin-");
    let mut i: usize = 0;
    while i < suffix.len()
        invariant
            i <= suffix@.len(),
            s@ == "groovin-"@ + suffix@.subrange(0, i as int),
        decreases suffix@.len() - i,
    {
        push_char(&mut s, suffix[i]);
        assert(suffix@.subrange(0, i + 1) =~= suffix@.subrange(0, i as int).push(suffix@[i as int]));
        i = i + 1;
    }
    assert(suffix@.subrange(0, i as int) =~= suffix@);
    s
}

/// A fresh random instance name: the prefix and ten alphanumeric characters.
pub fn get_name() -> (r: String)
    ensures
        exists|s: Seq<char>|
            s.len() == NAME_SUFFIX_LEN && (forall|i: int| 0 <= i < s.len() ==> is_alphanumeric(#[trigger] s[i]))
                && r@ == name_text(s),
{
    let mut rng = rand::thread_rng();
    let mut suffix: Vec<char> = Vec::new();
    let mut i: usize = 0;
    while i < NAME_SUFFIX_LEN
        invariant
            i <= NAME_SUFFIX_LEN,
            suffix@.len() == i,
            forall|k: int| 0 <= k < suffix@.len() ==> is_alphanumeric(#[trigger] suffix@[k]),
        decreases NAME_SUFFIX_LEN - i,
    {
        let c = sample_alphanumeric(&mut rng);
        suffix.push(c);
        i = i + 1;
    }
    container_name(suffix.as_slice())
}

/// The library preload that switches the instance to the tunable allocator.
pub open spec fn preload_text() -> Seq<char> {
    "LD_PRELOAD=/opt/lib/nosys.so:/opt/datadog-agent/embedded/lib/libjemalloc.so"@
}

/// The environment of an instance: the telemetry endpoint and credential,
/// and, only for a non-empty option string, the preload and the options.
pub open spec fn env_of(conf: Seq<char>) -> Seq<Seq<char>> {
    let base = seq!["DD_SITE=datad0g.com"@, "DD_API_KEY=00001"@];
    if conf.len() == 0 {
        base
    } else {
        base + seq![preload_text(), "MALLOC_CONF="@ + conf]
    }
}

/// The read-only mounts of an instance: the host's container-control socket
/// and, when given, the configuration overlay at the agent's configuration path.
pub open spec fn binds_of(overlay: Option<Seq<char>>) -> Seq<Seq<char>> {
    let socket = seq!["/var/run/docker.sock:/var/run/docker.sock:ro"@];
    match overlay {
        Some(p) => socket + seq![p + ":/etc/datadog-agent/datadog.yaml:ro"@],
        None => socket,
    }
}

pub open spec fn opt_view(o: Option<&str>) -> Option<Seq<char>> {
    match o {
        Some(p) => Some(p@),
        None => None,
    }
}

/// The environment an instance starts with for the option string `conf`.
pub fn instance_env(conf: &str) -> (r: Vec<String>)
    ensures
        r.deep_view() == env_of(conf@),
{
    let mut env: Vec<String> = Vec::new();
    env.push(String::from_str("DD_SITE=datad0g.com"));
    env.push(String::from_str("DD_API_KEY=00001"));
    if !conf.is_empty() {
        env.push(String::from_str("LD_PRELOAD=/opt/lib/nosys.so:/opt/datadog-agent/embedded/lib/libjemalloc.so"));
        let mut opts = String::from_str("MALLOC_CONF=");
        opts.append(conf);
        env.push(opts);
    }
    assert(env.deep_view() =~= env_of(conf@));
    env
}

/// The mounts of an instance; `overlay` is an absolute host path.
pub fn volume_binds(overlay: Option<&str>) -> (r: Vec<String>)
    ensures
        r.deep_view() == binds_of(opt_view(overlay)),
{
    let mut binds: Vec<String> = Vec::new();
    binds.push(String::from_str("/var/run/docker.sock:/var/run/docker.sock:ro"));
    match overlay {
        Some(p) => {
            let mut b = String::from_str(p);
            b.append(":/etc/datadog-agent/datadog.yaml:ro");
            binds.push(b);
        },
        None => {},
    }
    assert(binds.deep_view() =~= binds_of(opt_view(overlay)));
    binds
}

/// Everything an instance is created with.
#[derive(Debug)]
pub struct InstancePlan {
    pub name: String,
    pub port: u16,
    pub host_port: String,
    pub env: Vec<String>,
    pub binds: Vec<String>,
}

/// Plans one instance for the option string `conf`: a fresh name, the next
/// port of the pool, its environment and its mounts.
pub fn plan_instance(conf: &str, overlay: Option<&str>, pool: &mut PortPool) -> (r: InstancePlan)
    requires
        old(pool).wf(),
    ensures
        final(pool).wf(),
        r.port == old(pool).peek(),
        final(pool).peek() == next_port(r.port),
        r.host_port@ == decimal_text(r.port as nat),
        r.env.deep_view() == env_of(conf@),
        r.binds.deep_view() == binds_of(opt_view(overlay)),
        exists|s: Seq<char>|
            s.len() == NAME_SUFFIX_LEN && (forall|i: int| 0 <= i < s.len() ==> is_alphanumeric(#[trigger] s[i]))
                && r.name@ == name_text(s),
{
    let name = get_name();
    let port = pool.allocate();
    let host_port = decimal_string(port as usize);
    InstancePlan { name, port, host_port, env: instance_env(conf), binds: volume_binds(overlay) }
}

} // verus!
