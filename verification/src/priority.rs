//! The priorities of events.
use vstd::prelude::*;

verus! {

/// How urgent an event is, from least to most. A priority channel yields the most urgent event that
/// is pending.
#[derive(Clone, Debug, Ord)]
pub enum PriorityEvent {
    /// May be delayed indefinitely.
    BestEffort,
    /// The default.
    Low,
    High,
    /// The highest priority.
    RealTime,
}

impl PriorityEvent {
    /// The place of a priority in the order of urgency.
    pub open spec fn rank(self) -> int {
        match self {
            PriorityEvent::BestEffort => 0,
            PriorityEvent::Low => 1,
            PriorityEvent::High => 2,
            PriorityEvent::RealTime => 3,
        }
    }

    fn level(&self) -> (level: u8)
        ensures
            level == self.rank(),
    {
        match self {
            PriorityEvent::BestEffort => 0,
            PriorityEvent::Low => 1,
            PriorityEvent::High => 2,
            PriorityEvent::RealTime => 3,
        }
    }
}

impl Default for PriorityEvent {
    fn default() -> (priority: Self)
        ensures
            priority == PriorityEvent::Low,
    {
        PriorityEvent::Low
    }
}

impl PartialEq for PriorityEvent {
    fn eq(&self, other: &Self) -> (same: bool) {
        self.level() == other.level()
    }
}

impl vstd::std_specs::cmp::PartialEqSpecImpl for PriorityEvent {
    open spec fn obeys_eq_spec() -> bool {
        true
    }

    open spec fn eq_spec(&self, other: &Self) -> bool {
        *self == *other
    }
}

impl Eq for PriorityEvent {

}

impl PartialOrd for PriorityEvent {
    fn partial_cmp(&self, other: &Self) -> (order: Option<core::cmp::Ordering>) {
        if self.level() < other.level() {
            Some(core::cmp::Ordering::Less)
        } else if self.level() == other.level() {
            Some(core::cmp::Ordering::Equal)
        } else {
            Some(core::cmp::Ordering::Greater)
        }
    }
}

impl vstd::std_specs::cmp::PartialOrdSpecImpl for PriorityEvent {
    open spec fn obeys_partial_cmp_spec() -> bool {
        true
    }

    open spec fn partial_cmp_spec(&self, other: &Self) -> Option<core::cmp::Ordering> {
        if self.rank() < other.rank() {
            Some(core::cmp::Ordering::Less)
        } else if self.rank() == other.rank() {
            Some(core::cmp::Ordering::Equal)
        } else {
            Some(core::cmp::Ordering::Greater)
        }
    }
}

/// The priorities are totally ordered, best-effort events come last and real-time events first.
pub proof fn law_total_order(a: PriorityEvent, b: PriorityEvent, c: PriorityEvent)
    ensures
        a.rank() <= b.rank() || b.rank() <= a.rank(),
        a.rank() <= b.rank() && b.rank() <= a.rank() ==> a == b,
        a.rank() <= b.rank() && b.rank() <= c.rank() ==> a.rank() <= c.rank(),
        PriorityEvent::BestEffort.rank() <= a.rank() <= PriorityEvent::RealTime.rank(),
{
}

/// Comparing two priorities tells which is more urgent, finds them equal only if they are the same,
/// and comes out reversed when they change places.
pub proof fn law_comparison(a: PriorityEvent, b: PriorityEvent)
    ensures
        vstd::std_specs::cmp::PartialOrdSpec::partial_cmp_spec(&a, &b) == Some(
            core::cmp::Ordering::Less,
        ) <==> a.rank() < b.rank(),
        vstd::std_specs::cmp::PartialOrdSpec::partial_cmp_spec(&a, &b) == Some(
            core::cmp::Ordering::Equal,
        ) <==> a == b,
        vstd::std_specs::cmp::PartialOrdSpec::partial_cmp_spec(&a, &b) == Some(
            core::cmp::Ordering::Greater,
        ) <==> vstd::std_specs::cmp::PartialOrdSpec::partial_cmp_spec(&b, &a) == Some(
            core::cmp::Ordering::Less,
        ),
        vstd::std_specs::cmp::PartialEqSpec::eq_spec(&a, &b) <==> a == b,
{
}

/// A best-effort event is less urgent than one of low priority, that one less than one of high
/// priority, and that one less than a real-time event. The default is the low priority.
pub proof fn law_order(default: PriorityEvent)
    requires
        call_ensures(<PriorityEvent as Default>::default, (), default),
    ensures
        PriorityEvent::BestEffort.rank() < PriorityEvent::Low.rank() < PriorityEvent::High.rank()
            < PriorityEvent::RealTime.rank(),
        default == PriorityEvent::Low,
{
}

} // verus!
