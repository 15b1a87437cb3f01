use vstd::prelude::*;
use vstd::string::StringExecFns;

use crate::text::{append_decimal, decimal_text};

verus! {

/// Series per batch of synthetic metrics.
pub const BATCH: usize = 10000;

/// The one tag every synthetic metric carries.
pub const TAG: &'static str = "nong:wong";

/// The value every synthetic gauge is set to.
pub const GAUGE_VALUE: &'static str = "12345";

/// The loopback address of an instance's published ingestion port.
pub fn statsd_address(port: u16) -> (r: String)
    ensures
        r@ == "127.0.0.1:"@ + decimal_text(port as nat),
{
    let mut s = String::from_str("127.0.0.1:");
    append_decimal(&mut s, port as usize);
    s
}

/// The name of the `i`-th synthetic counter.
pub fn counter_metric(i: usize) -> (r: String)
    ensures
        r@ == "ziggle.counter"@ + decimal_text(i as nat),
{
    let mut s = String::from_str("ziggle.counter");
    append_decimal(&mut s, i);
    s
}

/// The name of the `i`-th synthetic gauge.
pub fn gauge_metric(i: usize) -> (r: String)
    ensures
        r@ == "ziggle.guage"@ + decimal_text(i as nat),
{
    let mut s = String::from_str("ziggle.guage");
    append_decimal(&mut s, i);
    s
}

/// Whether the load keeps going: a new batch starts only while the elapsed
/// time has not passed the limit.
pub fn load_continues(elapsed_ms: u128, limit_ms: u128) -> (r: bool)
    ensures
        r <==> elapsed_ms <= limit_ms,
{
    elapsed_ms <= limit_ms
}

} // verus!
