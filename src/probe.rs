use vstd::prelude::*;

use crate::memory::{all_roles_positive, MemoryStats};

verus! {

/// The line separator of the process listing.
pub const NEWLINE: u8 = 10;

pub const SPACE: u8 = 32;

pub open spec fn is_digit(b: u8) -> bool {
    48 <= b <= 57
}

/// How many ASCII digits end `s`.
pub open spec fn trailing_digits(s: Seq<u8>) -> nat
    decreases s.len(),
{
    if s.len() > 0 && is_digit(s.last()) {
        1 + trailing_digits(s.drop_last())
    } else {
        0
    }
}

/// How many spaces end `s`.
pub open spec fn trailing_spaces(s: Seq<u8>) -> nat
    decreases s.len(),
{
    if s.len() > 0 && s.last() == SPACE {
        1 + trailing_spaces(s.drop_last())
    } else {
        0
    }
}

/// The number that a run of ASCII digits spells in decimal.
pub open spec fn decimal_value(d: Seq<u8>) -> nat
    decreases d.len(),
{
    if d.len() == 0 {
        0
    } else {
        decimal_value(d.drop_last()) * 10 + (d.last() - 48) as nat
    }
}

/// The line without the digits that end it.
pub open spec fn before_digits(l: Seq<u8>) -> Seq<u8> {
    l.subrange(0, l.len() - trailing_digits(l))
}

/// The resident size a line reports: the number its final digits spell.
pub open spec fn line_value(l: Seq<u8>) -> nat {
    decimal_value(l.subrange(l.len() - trailing_digits(l), l.len() as int))
}

pub open spec fn ends_with(s: Seq<u8>, w: Seq<u8>) -> bool {
    w.len() <= s.len() && s.subrange(s.len() - w.len(), s.len() as int) == w
}

pub open spec fn occurs_at(s: Seq<u8>, w: Seq<u8>, p: int) -> bool {
    0 <= p && p + w.len() <= s.len() && s.subrange(p, p + w.len()) == w
}

pub open spec fn contains(s: Seq<u8>, w: Seq<u8>) -> bool {
    exists|p: int| occurs_at(s, w, p)
}

/// `agent run`
pub open spec fn agent_tag() -> Seq<u8> {
    seq![97u8, 103, 101, 110, 116, 32, 114, 117, 110]
}

/// `process-agent ` (with its trailing space)
pub open spec fn process_agent_tag() -> Seq<u8> {
    seq![112u8, 114, 111, 99, 101, 115, 115, 45, 97, 103, 101, 110, 116, 32]
}

/// `security-agent ` (with its trailing space)
pub open spec fn security_agent_tag() -> Seq<u8> {
    seq![115u8, 101, 99, 117, 114, 105, 116, 121, 45, 97, 103, 101, 110, 116, 32]
}

/// `trace-agent ` (with its trailing space)
pub open spec fn trace_agent_tag() -> Seq<u8> {
    seq![116u8, 114, 97, 99, 101, 45, 97, 103, 101, 110, 116, 32]
}

/// The main agent's line: `agent run`, any number of spaces, then the size,
/// which ends the line.
pub open spec fn agent_line(l: Seq<u8>) -> bool {
    let head = before_digits(l);
    &&& trailing_digits(l) > 0
    &&& ends_with(head.subrange(0, head.len() - trailing_spaces(head)), agent_tag())
}

/// A tagged worker's line: the tag, anything, one space, then the size, which
/// ends the line.
pub open spec fn tagged_line(l: Seq<u8>, tag: Seq<u8>) -> bool {
    let head = before_digits(l);
    &&& trailing_digits(l) > 0
    &&& head.len() > 0
    &&& head.last() == SPACE
    &&& contains(head.drop_last(), tag)
}

/// The latest size seen for each worker role; zero where none was seen.
#[derive(Debug, Clone, Copy, PartialEq, Eq)]
pub struct RoleValues {
    pub agent: usize,
    pub process_agent: usize,
    pub security_agent: usize,
    pub trace_agent: usize,
}

/// The effect of one line of the listing: each role whose pattern the line
/// matches takes the line's size (the last match wins). A line whose size
/// does not fit a `usize` is skipped.
pub open spec fn scan_line(v: RoleValues, l: Seq<u8>) -> RoleValues {
    if line_value(l) > usize::MAX {
        v
    } else {
        let n = line_value(l) as usize;
        RoleValues {
            agent: if agent_line(l) { n } else { v.agent },
            process_agent: if tagged_line(l, process_agent_tag()) { n } else { v.process_agent },
            security_agent: if tagged_line(l, security_agent_tag()) { n } else { v.security_agent },
            trace_agent: if tagged_line(l, trace_agent_tag()) { n } else { v.trace_agent },
        }
    }
}

/// Scans `t` line by line, where the current line began at `start` and `i`
/// is the position reached in it.
pub open spec fn scan_from(v: RoleValues, t: Seq<u8>, start: int, i: int) -> RoleValues
    decreases t.len() - i,
{
    if i < start || start < 0 || i >= t.len() {
        scan_line(v, t.subrange(start, t.len() as int))
    } else if t[i] == NEWLINE {
        scan_from(scan_line(v, t.subrange(start, i)), t, i + 1, i + 1)
    } else {
        scan_from(v, t, start, i + 1)
    }
}

/// The effect of a chunk of the listing: each of its newline-separated lines
/// in turn.
pub open spec fn scan_text(v: RoleValues, t: Seq<u8>) -> RoleValues {
    scan_from(v, t, 0, 0)
}

/// The reading that a whole chunk of listing gives, starting from no values.
pub open spec fn reading_of(t: Seq<u8>) -> RoleValues {
    scan_text(RoleValues { agent: 0, process_agent: 0, security_agent: 0, trace_agent: 0 }, t)
}

/// `t[s..e]` is one line of `t`: bounded by the ends of `t` or by newlines,
/// with no newline inside.
pub open spec fn is_line(t: Seq<u8>, s: int, e: int) -> bool {
    &&& 0 <= s <= e <= t.len()
    &&& (s == 0 || t[s - 1] == NEWLINE)
    &&& (e == t.len() || t[e] == NEWLINE)
    &&& forall|k: int| s <= k < e ==> t[k] != NEWLINE
}

/// Whether line `l` matches the pattern of worker role `role`: 0 the main
/// agent, 1 the process agent, 2 the security agent, 3 the trace agent.
pub open spec fn role_line(l: Seq<u8>, role: int) -> bool {
    if role == 0 {
        agent_line(l)
    } else if role == 1 {
        tagged_line(l, process_agent_tag())
    } else if role == 2 {
        tagged_line(l, security_agent_tag())
    } else {
        tagged_line(l, trace_agent_tag())
    }
}

/// The size held for worker role `role` (numbered as in `role_line`).
pub open spec fn role_value(v: RoleValues, role: int) -> usize {
    if role == 0 {
        v.agent
    } else if role == 1 {
        v.process_agent
    } else if role == 2 {
        v.security_agent
    } else {
        v.trace_agent
    }
}

/// No line of `t` matches the pattern of `role`.
pub open spec fn role_absent(t: Seq<u8>, role: int) -> bool {
    forall|s: int, e: int| #[trigger] is_line(t, s, e) ==> !role_line(t.subrange(s, e), role)
}

proof fn lemma_scan_from_keeps(v: RoleValues, t: Seq<u8>, start: int, i: int, role: int)
    requires
        0 <= start <= i <= t.len(),
        start == 0 || t[start - 1] == NEWLINE,
        forall|k: int| start <= k < i ==> t[k] != NEWLINE,
        role_absent(t, role),
    ensures
        role_value(scan_from(v, t, start, i), role) == role_value(v, role),
    decreases t.len() - i,
{
    if i >= t.len() {
        assert(is_line(t, start, t.len() as int));
    } else if t[i] == NEWLINE {
        assert(is_line(t, start, i));
        lemma_scan_from_keeps(scan_line(v, t.subrange(start, i)), t, i + 1, i + 1, role);
    } else {
        lemma_scan_from_keeps(v, t, start, i + 1, role);
    }
}

/// A listing in which no line matches the pattern of one of the four roles
/// gives no reading: that role stays at zero, so not every role is positive.
pub proof fn lemma_missing_role_gives_no_reading(t: Seq<u8>, role: int)
    requires
        0 <= role < 4,
        role_absent(t, role),
    ensures
        role_value(reading_of(t), role) == 0,
        !all_roles_positive(
            reading_of(t).agent as nat,
            reading_of(t).process_agent as nat,
            reading_of(t).security_agent as nat,
            reading_of(t).trace_agent as nat,
        ),
{
    lemma_scan_from_keeps(RoleValues { agent: 0, process_agent: 0, security_agent: 0, trace_agent: 0 }, t, 0, 0, role);
}

/// The decimal value of a digit run never falls short of that of its prefixes.
proof fn lemma_decimal_prefix(s: Seq<u8>, k: int)
    requires
        0 <= k <= s.len(),
        forall|m: int| 0 <= m < s.len() ==> is_digit(#[trigger] s[m]),
    ensures
        decimal_value(s.subrange(0, k)) <= decimal_value(s),
    decreases s.len(),
{
    if k == s.len() {
        assert(s.subrange(0, k) =~= s);
    } else {
        let d = s.drop_last();
        lemma_decimal_prefix(d, k);
        assert(d.subrange(0, k) =~= s.subrange(0, k));
    }
}

/// How many digits end `t[lo..hi]`.
fn count_trailing_digits(t: &[u8], lo: usize, hi: usize) -> (r: usize)
    requires
        lo <= hi <= t@.len(),
    ensures
        r <= hi - lo,
        r == trailing_digits(t@.subrange(lo as int, hi as int)),
        forall|m: int| hi - r <= m < hi ==> is_digit(#[trigger] t@[m]),
{
    let mut j: usize = hi;
    while j > lo && 48 <= t[j - 1] && t[j - 1] <= 57
        invariant
            lo <= j <= hi <= t@.len(),
            trailing_digits(t@.subrange(lo as int, hi as int)) == (hi - j) + trailing_digits(t@.subrange(lo as int, j as int)),
            forall|m: int| j <= m < hi ==> is_digit(#[trigger] t@[m]),
        decreases j,
    {
        assert(t@.subrange(lo as int, j as int).drop_last() =~= t@.subrange(lo as int, j - 1));
        j = j - 1;
    }
    hi - j
}

/// How many spaces end `t[lo..hi]`.
fn count_trailing_spaces(t: &[u8], lo: usize, hi: usize) -> (r: usize)
    requires
        lo <= hi <= t@.len(),
    ensures
        r <= hi - lo,
        r == trailing_spaces(t@.subrange(lo as int, hi as int)),
{
    let mut j: usize = hi;
    while j > lo && t[j - 1] == SPACE
        invariant
            lo <= j <= hi <= t@.len(),
            trailing_spaces(t@.subrange(lo as int, hi as int)) == (hi - j) + trailing_spaces(t@.subrange(lo as int, j as int)),
        decreases j,
    {
        assert(t@.subrange(lo as int, j as int).drop_last() =~= t@.subrange(lo as int, j - 1));
        j = j - 1;
    }
    hi - j
}

/// The value of the digit run `t[lo..hi]`, if it fits in a `usize`.
fn parse_decimal(t: &[u8], lo: usize, hi: usize) -> (r: Option<usize>)
    requires
        lo <= hi <= t@.len(),
        forall|m: int| lo <= m < hi ==> is_digit(#[trigger] t@[m]),
    ensures
        r matches Some(n) ==> n == decimal_value(t@.subrange(lo as int, hi as int)),
        r is None <==> decimal_value(t@.subrange(lo as int, hi as int)) > usize::MAX,
{
    let mut v: usize = 0;
    let mut i: usize = lo;
    while i < hi
        invariant
            lo <= i <= hi <= t@.len(),
            forall|m: int| lo <= m < hi ==> is_digit(#[trigger] t@[m]),
            v == decimal_value(t@.subrange(lo as int, i as int)),
        decreases hi - i,
    {
        let ghost next = t@.subrange(lo as int, i + 1);
        assert(next.drop_last() =~= t@.subrange(lo as int, i as int));
        let d = (t[i] - 48) as usize;
        match v.checked_mul(10) {
            Some(w) => match w.checked_add(d) {
                Some(x) => {
                    v = x;
                },
                None => {
                    proof {
                        assert(t@.subrange(lo as int, hi as int).subrange(0, i + 1 - lo) =~= next);
                        lemma_decimal_prefix(t@.subrange(lo as int, hi as int), i + 1 - lo);
                    }
                    return None;
                },
            },
            None => {
                proof {
                    assert(t@.subrange(lo as int, hi as int).subrange(0, i + 1 - lo) =~= next);
                    lemma_decimal_prefix(t@.subrange(lo as int, hi as int), i + 1 - lo);
                }
                return None;
            },
        }
        i = i + 1;
    }
    Some(v)
}

/// Whether `w` stands in `t` at position `p`.
fn matches_at(t: &[u8], p: usize, w: &[u8]) -> (r: bool)
    requires
        p + w@.len() <= t@.len(),
    ensures
        r == (t@.subrange(p as int, p + w@.len()) == w@),
{
    let n = t.len();
    let mut k: usize = 0;
    while k < w.len()
        invariant
            n == t@.len(),
            p + w@.len() <= t@.len(),
            k <= w@.len(),
            forall|m: int| 0 <= m < k ==> t@[p + m] == w@[m],
        decreases w@.len() - k,
    {
        if t[p + k] != w[k] {
            assert(t@.subrange(p as int, p + w@.len())[k as int] != w@[k as int]);
            return false;
        }
        k = k + 1;
    }
    assert(t@.subrange(p as int, p + w@.len()) =~= w@);
    true
}

/// Whether `t[lo..hi]` ends with `w`.
fn ends_with_in(t: &[u8], lo: usize, hi: usize, w: &[u8]) -> (r: bool)
    requires
        lo <= hi <= t@.len(),
    ensures
        r == ends_with(t@.subrange(lo as int, hi as int), w@),
{
    if w.len() > hi - lo {
        false
    } else {
        assert(t@.subrange(lo as int, hi as int).subrange(hi - lo - w@.len(), hi - lo) =~= t@.subrange(hi - w@.len(), hi as int));
        matches_at(t, hi - w.len(), w)
    }
}

/// Whether `w` occurs anywhere in `t[lo..hi]`.
fn contains_in(t: &[u8], lo: usize, hi: usize, w: &[u8]) -> (r: bool)
    requires
        lo <= hi <= t@.len(),
    ensures
        r == contains(t@.subrange(lo as int, hi as int), w@),
{
    let ghost s = t@.subrange(lo as int, hi as int);
    if w.len() > hi - lo {
        return false;
    }
    let last = hi - w.len();
    let mut p: usize = lo;
    loop
        invariant
            lo <= p <= last,
            last == hi - w@.len(),
            hi <= t@.len(),
            s == t@.subrange(lo as int, hi as int),
            forall|q: int| 0 <= q < p - lo ==> !occurs_at(s, w@, q),
        decreases last - p,
    {
        assert(s.subrange(p - lo, p - lo + w@.len()) =~= t@.subrange(p as int, p + w@.len()));
        if matches_at(t, p, w) {
            assert(occurs_at(s, w@, p - lo));
            return true;
        }
        if p == last {
            assert forall|q: int| !occurs_at(s, w@, q) by {
                if 0 <= q < p - lo {
                }
            }
            return false;
        }
        p = p + 1;
    }
}

/// The four role patterns, prepared once and reused for every line.
#[derive(Debug)]
pub struct LinePatterns {
    agent: Vec<u8>,
    process_agent: Vec<u8>,
    security_agent: Vec<u8>,
    trace_agent: Vec<u8>,
}

impl LinePatterns {
    pub closed spec fn wf(&self) -> bool {
        &&& self.agent@ == agent_tag()
        &&& self.process_agent@ == process_agent_tag()
        &&& self.security_agent@ == security_agent_tag()
        &&& self.trace_agent@ == trace_agent_tag()
    }

    pub fn new() -> (r: LinePatterns)
        ensures
            r.wf(),
    {
        let r = LinePatterns {
            agent: vec![97u8, 103, 101, 110, 116, 32, 114, 117, 110],
            process_agent: vec![112u8, 114, 111, 99, 101, 115, 115, 45, 97, 103, 101, 110, 116, 32],
            security_agent: vec![115u8, 101, 99, 117, 114, 105, 116, 121, 45, 97, 103, 101, 110, 116, 32],
            trace_agent: vec![116u8, 114, 97, 99, 101, 45, 97, 103, 101, 110, 116, 32],
        };
        assert(r.agent@ =~= agent_tag());
        assert(r.process_agent@ =~= process_agent_tag());
        assert(r.security_agent@ =~= security_agent_tag());
        assert(r.trace_agent@ =~= trace_agent_tag());
        r
    }

    /// Applies the line `t[lo..hi]` to `v`.
    pub fn apply_line(&self, v: RoleValues, t: &[u8], lo: usize, hi: usize) -> (r: RoleValues)
        requires
            self.wf(),
            lo <= hi <= t@.len(),
        ensures
            r == scan_line(v, t@.subrange(lo as int, hi as int)),
    {
        let ghost l = t@.subrange(lo as int, hi as int);
        let k = count_trailing_digits(t, lo, hi);
        let ds = hi - k;
        assert(before_digits(l) =~= t@.subrange(lo as int, ds as int));
        assert(l.subrange(l.len() - trailing_digits(l), l.len() as int) =~= t@.subrange(ds as int, hi as int));
        let n = match parse_decimal(t, ds, hi) {
            Some(n) => n,
            None => {
                return v;
            },
        };
        let sp = count_trailing_spaces(t, lo, ds);
        assert(t@.subrange(lo as int, ds as int).subrange(0, ds - lo - sp) =~= t@.subrange(lo as int, ds - sp));
        let is_agent = k > 0 && ends_with_in(t, lo, ds - sp, self.agent.as_slice());
        let spaced = k > 0 && ds > lo && t[ds - 1] == SPACE;
        if ds > lo {
            assert(t@.subrange(lo as int, ds as int).drop_last() =~= t@.subrange(lo as int, ds - 1));
        }
        let is_process = spaced && contains_in(t, lo, ds - 1, self.process_agent.as_slice());
        let is_security = spaced && contains_in(t, lo, ds - 1, self.security_agent.as_slice());
        let is_trace = spaced && contains_in(t, lo, ds - 1, self.trace_agent.as_slice());
        RoleValues {
            agent: if is_agent { n } else { v.agent },
            process_agent: if is_process { n } else { v.process_agent },
            security_agent: if is_security { n } else { v.security_agent },
            trace_agent: if is_trace { n } else { v.trace_agent },
        }
    }
}

/// The running scan of one instance's process listing, fed chunk by chunk as
/// the diagnostic command's output arrives.
#[derive(Debug)]
pub struct MemoryScan {
    patterns: LinePatterns,
    values: RoleValues,
}

impl MemoryScan {
    /// The sizes seen so far.
    pub closed spec fn values(&self) -> RoleValues {
        self.values
    }

    pub closed spec fn wf(&self) -> bool {
        self.patterns.wf()
    }

    /// A scan that has seen no line yet: every role at zero.
    pub fn new() -> (r: MemoryScan)
        ensures
            r.wf(),
            r.values() == (RoleValues { agent: 0, process_agent: 0, security_agent: 0, trace_agent: 0 }),
    {
        MemoryScan {
            patterns: LinePatterns::new(),
            values: RoleValues { agent: 0, process_agent: 0, security_agent: 0, trace_agent: 0 },
        }
    }

    /// Takes in one chunk of output: splits it at newlines and applies each
    /// line in order.
    pub fn scan_chunk(&mut self, text: &[u8])
        requires
            old(self).wf(),
        ensures
            final(self).wf(),
            final(self).values() == scan_text(old(self).values(), text@),
    {
        let mut start: usize = 0;
        let mut i: usize = 0;
        while i < text.len()
            invariant
                start <= i <= text@.len(),
                self.wf(),
                scan_from(self.values, text@, start as int, i as int) == scan_text(old(self).values(), text@),
            decreases text@.len() - i,
        {
            if text[i] == NEWLINE {
                self.values = self.patterns.apply_line(self.values, text, start, i);
                i = i + 1;
                start = i;
            } else {
                i = i + 1;
            }
        }
        self.values = self.patterns.apply_line(self.values, text, start, text.len());
    }

    /// The reading the scan has reached: present only when all four roles
    /// hold a positive size.
    pub fn finish(&self) -> (r: Option<MemoryStats>)
        ensures
            r is Some <==> all_roles_positive(
                self.values().agent as nat,
                self.values().process_agent as nat,
                self.values().security_agent as nat,
                self.values().trace_agent as nat,
            ),
            r matches Some(m) ==> m@ == (
                self.values().agent as nat,
                self.values().process_agent as nat,
                self.values().security_agent as nat,
                self.values().trace_agent as nat,
            ),
    {
        MemoryStats::new(self.values.agent, self.values.process_agent, self.values.security_agent, self.values.trace_agent)
    }
}

/// The reading that one complete process listing gives.
pub fn memory_from_listing(text: &[u8]) -> (r: Option<MemoryStats>)
    ensures
        r is Some <==> all_roles_positive(
            reading_of(text@).agent as nat,
            reading_of(text@).process_agent as nat,
            reading_of(text@).security_agent as nat,
            reading_of(text@).trace_agent as nat,
        ),
        r matches Some(m) ==> m@ == (
            reading_of(text@).agent as nat,
            reading_of(text@).process_agent as nat,
            reading_of(text@).security_agent as nat,
            reading_of(text@).trace_agent as nat,
        ),
{
    let mut scan = MemoryScan::new();
    scan.scan_chunk(text);
    scan.finish()
}

} // verus!
