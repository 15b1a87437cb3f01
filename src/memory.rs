use vstd::prelude::*;

verus! {

/// A reading is valid when every worker role reported a strictly positive size.
pub open spec fn all_roles_positive(agent: nat, process_agent: nat, security_agent: nat, trace_agent: nat) -> bool {
    &&& agent > 0
    &&& process_agent > 0
    &&& security_agent > 0
    &&& trace_agent > 0
}

/// The score of a reading: the sum of the four resident sizes in kilobytes,
/// absent unless every role is positive (and the sum is representable).
pub open spec fn fitness_score(agent: nat, process_agent: nat, security_agent: nat, trace_agent: nat) -> Option<nat> {
    if all_roles_positive(agent, process_agent, security_agent, trace_agent)
        && agent + process_agent + security_agent + trace_agent <= usize::MAX {
        Some(agent + process_agent + security_agent + trace_agent)
    } else {
        None
    }
}

/// Resident memory of the four worker roles of one instance, in kilobytes.
#[derive(Debug, Clone, Copy)]
pub struct MemoryStats {
    agent: usize,
    process_agent: usize,
    security_agent: usize,
    trace_agent: usize,
}

impl View for MemoryStats {
    type V = (nat, nat, nat, nat);

    closed spec fn view(&self) -> (nat, nat, nat, nat) {
        (self.agent as nat, self.process_agent as nat, self.security_agent as nat, self.trace_agent as nat)
    }
}

impl MemoryStats {
    #[verifier::type_invariant]
    closed spec fn valid(self) -> bool {
        all_roles_positive(self.agent as nat, self.process_agent as nat, self.security_agent as nat, self.trace_agent as nat)
    }

    /// The sum of the four sizes.
    pub open spec fn sum(&self) -> nat {
        self@.0 + self@.1 + self@.2 + self@.3
    }

    /// A reading of the four roles; present exactly when every role is
    /// strictly positive.
    pub fn new(agent: usize, process_agent: usize, security_agent: usize, trace_agent: usize) -> (r: Option<Self>)
        ensures
            r is Some <==> all_roles_positive(agent as nat, process_agent as nat, security_agent as nat, trace_agent as nat),
            r is Some ==> r->0@ == (agent as nat, process_agent as nat, security_agent as nat, trace_agent as nat),
    {
        if agent > 0 && process_agent > 0 && security_agent > 0 && trace_agent > 0 {
            Some(MemoryStats { agent, process_agent, security_agent, trace_agent })
        } else {
            None
        }
    }

    /// Whether the total fits in a `usize`.
    pub fn total_fits(&self) -> (r: bool)
        ensures
            r <==> self.sum() <= usize::MAX,
    {
        self.agent <= usize::MAX - self.process_agent && self.agent + self.process_agent <= usize::MAX
            - self.security_agent && self.agent + self.process_agent + self.security_agent <= usize::MAX
            - self.trace_agent
    }

    /// The total resident size of the four roles.
    pub fn total(&self) -> (r: usize)
        requires
            self.sum() <= usize::MAX,
        ensures
            r == self.sum(),
    {
        self.agent + self.process_agent + self.security_agent + self.trace_agent
    }
}

/// Reduces the four per-role sizes to a score: their exact sum when all four
/// are strictly positive, and nothing otherwise, never a partial sum. A sum
/// that does not fit in a `usize` gives nothing either.
pub fn score(agent: usize, process_agent: usize, security_agent: usize, trace_agent: usize) -> (r: Option<usize>)
    ensures
        r == (match fitness_score(agent as nat, process_agent as nat, security_agent as nat, trace_agent as nat) {
            Some(v) => Some(v as usize),
            None => None,
        }),
        !all_roles_positive(agent as nat, process_agent as nat, security_agent as nat, trace_agent as nat) ==> r is None,
        all_roles_positive(agent as nat, process_agent as nat, security_agent as nat, trace_agent as nat)
            && agent + process_agent + security_agent + trace_agent <= usize::MAX
            ==> r == Some((agent + process_agent + security_agent + trace_agent) as usize),
{
    match MemoryStats::new(agent, process_agent, security_agent, trace_agent) {
        Some(m) => if m.total_fits() {
            Some(m.total())
        } else {
            None
        },
        None => None,
    }
}

/// The value handed to the optimizer for one evaluation: the total of a
/// valid reading, absent for an invalid one (or one too large to represent).
pub fn fitness_value(reading: Option<MemoryStats>) -> (r: Option<isize>)
    ensures
        r matches Some(v) ==> reading matches Some(m) && v == m.sum(),
        r is None <==> (reading is None || reading->0.sum() > isize::MAX),
{
    match reading {
        Some(m) => {
            if m.total_fits() {
                let t = m.total();
                if t <= isize::MAX as usize {
                    return Some(t as isize);
                }
            }
            None
        },
        None => None,
    }
}

} // verus!
