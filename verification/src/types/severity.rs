//! How serious a system event is.

use vstd::prelude::*;
use vstd::std_specs::cmp::PartialOrdSpecImpl;
use core::cmp::Ordering;

verus! {

/// Event severity levels, ordered: `Critical > Error > Warning > Info`.
#[derive(Debug, Clone, Copy, PartialEq, Eq, Structural, Ord, Hash)]
pub enum Severity {
    Info,
    Warning,
    Error,
    Critical,
}

impl Severity {
    /// The place of a level in the order, from `Info` (0) up to `Critical` (3).
    pub open spec fn level(self) -> nat {
        match self {
            Severity::Info => 0,
            Severity::Warning => 1,
            Severity::Error => 2,
            Severity::Critical => 3,
        }
    }

    /// The place of this level in the order.
    pub fn rank(&self) -> (r: u8)
        ensures
            r == self.level(),
    {
        match self {
            Severity::Info => 0,
            Severity::Warning => 1,
            Severity::Error => 2,
            Severity::Critical => 3,
        }
    }
}

/// How two levels compare: by their place in the order.
pub open spec fn compare_levels(a: Severity, b: Severity) -> Ordering {
    if a.level() < b.level() {
        Ordering::Less
    } else if a.level() == b.level() {
        Ordering::Equal
    } else {
        Ordering::Greater
    }
}

impl PartialOrd for Severity {
    fn partial_cmp(&self, other: &Self) -> (r: Option<Ordering>) {
        let a = self.rank();
        let b = other.rank();
        if a < b {
            Some(Ordering::Less)
        } else if a == b {
            Some(Ordering::Equal)
        } else {
            Some(Ordering::Greater)
        }
    }
}

impl PartialOrdSpecImpl for Severity {
    open spec fn obeys_partial_cmp_spec() -> bool {
        true
    }

    open spec fn partial_cmp_spec(&self, other: &Self) -> Option<Ordering> {
        Some(compare_levels(*self, *other))
    }
}

/// The levels stand in the order that their documentation gives:
/// `Info < Warning < Error < Critical`, and two levels compare equal only
/// when they are the same level.
pub proof fn law_severity_order(a: Severity, b: Severity)
    ensures
        compare_levels(Severity::Info, Severity::Warning) == Ordering::Less,
        compare_levels(Severity::Warning, Severity::Error) == Ordering::Less,
        compare_levels(Severity::Error, Severity::Critical) == Ordering::Less,
        compare_levels(a, b) == Ordering::Equal <==> a == b,
        compare_levels(a, b) == Ordering::Less <==> compare_levels(b, a) == Ordering::Greater,
{
}

} // verus!
