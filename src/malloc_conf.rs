use vstd::prelude::*;
use vstd::string::StringExecFns;

use crate::text::{append_decimal, decimal_text, lemma_decimal_digits};

verus! {

/// Number of genes in a candidate configuration.
pub const GENES: usize = 7;

/// Bytes per unit of the cache and oversize thresholds.
pub const THRESHOLD_UNIT: usize = 6500;

/// Milliseconds per unit of the decay interval.
pub const DECAY_UNIT: usize = 100;

/// Where the allocator may retain memory obtained from the system break.
#[derive(Debug, Clone, Copy, PartialEq, Eq, Structural)]
pub enum Dss {
    Disabled,
    Primary,
    Secondary,
}

pub open spec fn dss_text(d: Dss) -> Seq<char> {
    match d {
        Dss::Disabled => "disabled"@,
        Dss::Primary => "primary"@,
        Dss::Secondary => "secondary"@,
    }
}

/// The retention mode a gene selects: below 3 disabled, below 7 primary,
/// secondary above.
pub open spec fn dss_of(g: nat) -> Dss {
    if g < 3 {
        Dss::Disabled
    } else if g < 7 {
        Dss::Primary
    } else {
        Dss::Secondary
    }
}

impl Dss {
    /// The name the allocator's option string uses for the mode.
    pub fn as_str(&self) -> (r: &'static str)
        ensures
            r@ == dss_text(*self),
    {
        match self {
            Dss::Disabled => "disabled",
            Dss::Primary => "primary",
            Dss::Secondary => "secondary",
        }
    }
}

/// Allocator options derived from one candidate configuration.
#[derive(Debug, Clone, Copy)]
pub struct MallocConf {
    pub narenas: usize,
    pub tchache_max: usize,
    pub oversize_threshold: usize,
    pub dss: Dss,
    pub background_thread: bool,
    pub muzzy_decay_ms: usize,
    pub lg_extent_max_active_fit: usize,
}

/// A gene vector the codec accepts: seven genes whose scaled values fit.
pub open spec fn genes_encodable(v: Seq<usize>) -> bool {
    &&& v.len() == GENES
    &&& v[0] * THRESHOLD_UNIT <= usize::MAX
    &&& v[1] * THRESHOLD_UNIT <= usize::MAX
    &&& v[5] * DECAY_UNIT <= usize::MAX
}

/// The options a gene vector stands for.
pub open spec fn conf_of(v: Seq<usize>) -> MallocConf {
    MallocConf {
        tchache_max: (v[0] * THRESHOLD_UNIT) as usize,
        oversize_threshold: (v[1] * THRESHOLD_UNIT) as usize,
        narenas: v[2],
        dss: dss_of(v[3] as nat),
        background_thread: v[4] > 5,
        muzzy_decay_ms: (v[5] * DECAY_UNIT) as usize,
        lg_extent_max_active_fit: v[6],
    }
}

pub open spec fn bool_text(b: bool) -> Seq<char> {
    if b {
        "true"@
    } else {
        "false"@
    }
}

/// The keys of the option string, in their fixed order.
pub open spec fn field_keys() -> Seq<Seq<char>> {
    seq![
        "background_thread"@,
        "narenas"@,
        "muzzy_decay_ms"@,
        "tcache_max"@,
        "oversize_threshold"@,
        "dss"@,
        "lg_extent_max_active_fit"@,
    ]
}

/// The values of the option string, in the order of `field_keys`.
pub open spec fn field_values(c: MallocConf) -> Seq<Seq<char>> {
    seq![
        bool_text(c.background_thread),
        decimal_text(c.narenas as nat),
        decimal_text(c.muzzy_decay_ms as nat),
        decimal_text(c.tchache_max as nat),
        decimal_text(c.oversize_threshold as nat),
        dss_text(c.dss),
        decimal_text(c.lg_extent_max_active_fit as nat),
    ]
}

/// The `i`-th `key:value` field.
pub open spec fn field(c: MallocConf, i: int) -> Seq<char> {
    field_keys()[i] + ":"@ + field_values(c)[i]
}

/// The option string: the seven fields, separated by commas.
pub open spec fn tuning_text(c: MallocConf) -> Seq<char> {
    field(c, 0) + ","@ + field(c, 1) + ","@ + field(c, 2) + ","@ + field(c, 3) + ","@
        + field(c, 4) + ","@ + field(c, 5) + ","@ + field(c, 6)
}

/// The option string of a gene vector.
pub open spec fn encode(v: Seq<usize>) -> Seq<char> {
    tuning_text(conf_of(v))
}

/// Neither a comma nor a colon.
pub open spec fn free_of_separators(s: Seq<char>) -> bool {
    forall|i: int| 0 <= i < s.len() ==> #[trigger] s[i] != ',' && s[i] != ':'
}

/// The option string of an encodable gene vector is a function of the genes
/// alone, and consists of exactly seven `key:value` fields in a fixed key
/// order: no key and no value holds a separator.
pub proof fn lemma_seven_fields(v: Seq<usize>)
    requires
        genes_encodable(v),
    ensures
        encode(v) == tuning_text(conf_of(v)),
        field_keys().len() == 7,
        field_values(conf_of(v)).len() == 7,
        forall|i: int| 0 <= i < 7 ==> free_of_separators(#[trigger] field_keys()[i]),
        forall|i: int| 0 <= i < 7 ==> free_of_separators(#[trigger] field_values(conf_of(v))[i]),
{
    let c = conf_of(v);
    reveal_strlit("background_thread");
    reveal_strlit("narenas");
    reveal_strlit("muzzy_decay_ms");
    reveal_strlit("tcache_max");
    reveal_strlit("oversize_threshold");
    reveal_strlit("dss");
    reveal_strlit("lg_extent_max_active_fit");
    reveal_strlit("true");
    reveal_strlit("false");
    reveal_strlit("disabled");
    reveal_strlit("primary");
    reveal_strlit("secondary");
    lemma_decimal_digits(c.narenas as nat);
    lemma_decimal_digits(c.muzzy_decay_ms as nat);
    lemma_decimal_digits(c.tchache_max as nat);
    lemma_decimal_digits(c.oversize_threshold as nat);
    lemma_decimal_digits(c.lg_extent_max_active_fit as nat);
    assert forall|i: int| 0 <= i < 7 implies free_of_separators(#[trigger] field_keys()[i]) by {
        if i == 0 {} else if i == 1 {} else if i == 2 {} else if i == 3 {} else if i == 4 {} else if i == 5 {} else {}
    }
    assert forall|i: int| 0 <= i < 7 implies free_of_separators(#[trigger] field_values(c)[i]) by {
        if i == 0 {} else if i == 1 {} else if i == 2 {} else if i == 3 {} else if i == 4 {} else if i == 5 {} else {}
    }
}

impl MallocConf {
    /// Derives the options from a gene vector.
    pub fn from(value: &[usize]) -> (r: MallocConf)
        requires
            genes_encodable(value@),
        ensures
            r == conf_of(value@),
            r.tchache_max == value@[0] * 6500,
            r.oversize_threshold == value@[1] * 6500,
            r.narenas == value@[2],
            value@[3] < 3 ==> r.dss == Dss::Disabled,
            3 <= value@[3] < 7 ==> r.dss == Dss::Primary,
            7 <= value@[3] ==> r.dss == Dss::Secondary,
            r.background_thread <==> value@[4] > 5,
            r.muzzy_decay_ms == value@[5] * 100,
            r.lg_extent_max_active_fit == value@[6],
    {
        let dss = if value[3] < 3 {
            Dss::Disabled
        } else if value[3] < 7 {
            Dss::Primary
        } else {
            Dss::Secondary
        };
        MallocConf {
            tchache_max: value[0] * THRESHOLD_UNIT,
            oversize_threshold: value[1] * THRESHOLD_UNIT,
            narenas: value[2],
            dss,
            background_thread: value[4] > 5,
            muzzy_decay_ms: value[5] * DECAY_UNIT,
            lg_extent_max_active_fit: value[6],
        }
    }

    /// The option string the allocator reads at startup.
    pub fn to_string(&self) -> (r: String)
        ensures
            r@ == tuning_text(*self),
    {
        let mut s = String::new();
        s.append("background_thread");
        s.append(":");
        s.append(if self.background_thread { "true" } else { "false" });
        s.append(",");
        s.append("narenas");
        s.append(":");
        append_decimal(&mut s, self.narenas);
        s.append(",");
        s.append("muzzy_decay_ms");
        s.append(":");
        append_decimal(&mut s, self.muzzy_decay_ms);
        s.append(",");
        s.append("tcache_max");
        s.append(":");
        append_decimal(&mut s, self.tchache_max);
        s.append(",");
        s.append("oversize_threshold");
        s.append(":");
        append_decimal(&mut s, self.oversize_threshold);
        s.append(",");
        s.append("dss");
        s.append(":");
        s.append(self.dss.as_str());
        s.append(",");
        s.append("lg_extent_max_active_fit");
        s.append(":");
        append_decimal(&mut s, self.lg_extent_max_active_fit);
        assert(s@ =~= tuning_text(*self));
        s
    }
}

/// The option string of a gene vector.
pub fn tuning_string(genes: &[usize]) -> (r: String)
    requires
        genes_encodable(genes@),
    ensures
        r@ == encode(genes@),
{
    MallocConf::from(genes).to_string()
}

/// Whether a gene vector can be encoded.
pub fn check_genes(genes: &[usize]) -> (r: bool)
    ensures
        r == genes_encodable(genes@),
{
    genes.len() == GENES && genes[0] <= usize::MAX / THRESHOLD_UNIT && genes[1] <= usize::MAX / THRESHOLD_UNIT
        && genes[5] <= usize::MAX / DECAY_UNIT
}

} // verus!
