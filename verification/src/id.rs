//! Identity and rank of a task: two comparable integer tags.

use crate::consts::NO_PRIORITIES;
use crate::text::{decimal, decimal_string};
use std::cmp::Ordering;
use vstd::prelude::*;
use vstd::std_specs::cmp::PartialOrdSpecImpl;

verus! {

/// Unique identifier for a task (i.e. `pid`).
#[derive(PartialEq, Eq, Ord, Debug, Clone, Copy, Structural)]
pub struct TaskId(u32);

impl View for TaskId {
    type V = nat;

    closed spec fn view(&self) -> nat {
        self.0 as nat
    }
}

impl TaskId {
    /// The raw integer behind the identifier.
    pub closed spec fn spec_into(self) -> u32 {
        self.0
    }

    /// The identifier with the raw value `x`.
    pub closed spec fn spec_from(x: u32) -> Self {
        TaskId(x)
    }

    /// The raw integer behind the identifier.
    #[verifier::when_used_as_spec(spec_into)]
    pub fn into(self) -> (raw: u32)
        ensures
            raw == self.spec_into(),
            raw == self@,
    {
        self.0
    }

    /// The identifier with the raw value `x`.
    #[verifier::when_used_as_spec(spec_from)]
    pub fn from(x: u32) -> (id: Self)
        ensures
            id == Self::spec_from(x),
            id@ == x,
    {
        TaskId(x)
    }

    /// The identifier as it is printed: its raw value in decimal.
    pub fn to_string(&self) -> (text: String)
        ensures
            text@ == decimal(self@),
    {
        decimal_string(self.0)
    }

    /// An identifier is its raw value and nothing more: `from` and `into`
    /// undo each other, and two identifiers are equal exactly when their
    /// raw values are.
    pub proof fn lemma_raw_value(x: u32, id: TaskId, other: TaskId)
        ensures
            TaskId::from(x).into() == x,
            TaskId::from(id.into()) == id,
            id@ == id.into(),
            (id == other) <==> (id@ == other@),
    {
    }
}

impl PartialOrd for TaskId {
    fn partial_cmp(&self, other: &Self) -> (r: Option<Ordering>) {
        if self.0 < other.0 {
            Some(Ordering::Less)
        } else if self.0 == other.0 {
            Some(Ordering::Equal)
        } else {
            Some(Ordering::Greater)
        }
    }
}

/// Identifiers are ordered as their raw values are.
impl PartialOrdSpecImpl for TaskId {
    open spec fn obeys_partial_cmp_spec() -> bool {
        true
    }

    open spec fn partial_cmp_spec(&self, other: &Self) -> Option<Ordering> {
        if self@ < other@ {
            Some(Ordering::Less)
        } else if self@ == other@ {
            Some(Ordering::Equal)
        } else {
            Some(Ordering::Greater)
        }
    }
}

/// Priority of a task; a lower number is more urgent.
#[derive(PartialEq, Eq, Ord, Debug, Clone, Copy, Structural)]
pub struct TaskPriority(u8);

impl View for TaskPriority {
    type V = nat;

    closed spec fn view(&self) -> nat {
        self.0 as nat
    }
}

impl TaskPriority {
    /// The raw rank behind the priority.
    pub closed spec fn spec_into(self) -> u8 {
        self.0
    }

    /// The priority with the raw rank `x`.
    pub closed spec fn spec_from(x: u8) -> Self {
        TaskPriority(x)
    }

    /// The raw rank behind the priority.
    #[verifier::when_used_as_spec(spec_into)]
    pub fn into(self) -> (raw: u8)
        ensures
            raw == self.spec_into(),
            raw == self@,
    {
        self.0
    }

    /// The priority with the raw rank `x`.
    #[verifier::when_used_as_spec(spec_from)]
    pub fn from(x: u8) -> (prio: Self)
        ensures
            prio == Self::spec_from(x),
            prio@ == x,
    {
        TaskPriority(x)
    }

    /// Whether the priority is one of the `NO_PRIORITIES` levels that the
    /// scheduler is configured with.
    pub open spec fn spec_is_level(&self) -> bool {
        self@ < NO_PRIORITIES
    }

    /// Whether the priority is one of the `NO_PRIORITIES` levels that the
    /// scheduler is configured with.
    #[verifier::when_used_as_spec(spec_is_level)]
    pub fn is_level(&self) -> (level: bool)
        ensures
            level == self.spec_is_level(),
    {
        (self.0 as usize) < NO_PRIORITIES
    }

    /// The priority as it is printed: its raw rank in decimal.
    pub fn to_string(&self) -> (text: String)
        ensures
            text@ == decimal(self@),
    {
        decimal_string(self.0 as u32)
    }

    /// A priority is its raw rank and nothing more: `from` and `into` undo
    /// each other, and two priorities are equal exactly when their raw ranks
    /// are.
    pub proof fn lemma_raw_value(x: u8, prio: TaskPriority, other: TaskPriority)
        ensures
            TaskPriority::from(x).into() == x,
            TaskPriority::from(prio.into()) == prio,
            prio@ == prio.into(),
            (prio == other) <==> (prio@ == other@),
    {
    }
}

impl PartialOrd for TaskPriority {
    fn partial_cmp(&self, other: &Self) -> (r: Option<Ordering>) {
        if self.0 < other.0 {
            Some(Ordering::Less)
        } else if self.0 == other.0 {
            Some(Ordering::Equal)
        } else {
            Some(Ordering::Greater)
        }
    }
}

/// Priorities are ordered as their raw ranks are, so the more urgent of two
/// priorities is the smaller one.
impl PartialOrdSpecImpl for TaskPriority {
    open spec fn obeys_partial_cmp_spec() -> bool {
        true
    }

    open spec fn partial_cmp_spec(&self, other: &Self) -> Option<Ordering> {
        if self@ < other@ {
            Some(Ordering::Less)
        } else if self@ == other@ {
            Some(Ordering::Equal)
        } else {
            Some(Ordering::Greater)
        }
    }
}

/// Rank of the realtime priority, the most urgent one.
pub const REALTIME_RANK: u8 = 0;

/// Rank of the high priority; it shares the most urgent level.
pub const HIGH_RANK: u8 = 0;

/// Rank of the priority that ordinary tasks run at.
pub const NORMAL_RANK: u8 = 24;

/// Rank of the least urgent priority.
pub const LOW_RANK: u8 = 31;

/// The most urgent priority.
pub open spec fn spec_realtime_priority() -> TaskPriority {
    TaskPriority::from(REALTIME_RANK)
}

/// The high priority, as urgent as the realtime one.
pub open spec fn spec_high_priority() -> TaskPriority {
    TaskPriority::from(HIGH_RANK)
}

/// The priority that ordinary tasks run at.
pub open spec fn spec_normal_priority() -> TaskPriority {
    TaskPriority::from(NORMAL_RANK)
}

/// The least urgent priority, the one the idle task runs at.
pub open spec fn spec_low_priority() -> TaskPriority {
    TaskPriority::from(LOW_RANK)
}

/// The most urgent priority.
#[verifier::when_used_as_spec(spec_realtime_priority)]
pub fn realtime_priority() -> (prio: TaskPriority)
    ensures
        prio == spec_realtime_priority(),
        prio@ == REALTIME_RANK,
{
    TaskPriority(REALTIME_RANK)
}

/// The high priority, as urgent as the realtime one.
#[verifier::when_used_as_spec(spec_high_priority)]
pub fn high_priority() -> (prio: TaskPriority)
    ensures
        prio == spec_high_priority(),
        prio@ == HIGH_RANK,
{
    TaskPriority(HIGH_RANK)
}

/// The priority that ordinary tasks run at.
#[verifier::when_used_as_spec(spec_normal_priority)]
pub fn normal_priority() -> (prio: TaskPriority)
    ensures
        prio == spec_normal_priority(),
        prio@ == NORMAL_RANK,
{
    TaskPriority(NORMAL_RANK)
}

/// The least urgent priority, the one the idle task runs at.
#[verifier::when_used_as_spec(spec_low_priority)]
pub fn low_priority() -> (prio: TaskPriority)
    ensures
        prio == spec_low_priority(),
        prio@ == NO_PRIORITIES - 1,
{
    TaskPriority(LOW_RANK)
}

/// The landmark priorities in order of urgency: realtime and high share
/// rank 0, normal follows at rank 24, and low is the last level there is.
pub proof fn lemma_priority_landmarks()
    ensures
        realtime_priority()@ == 0,
        high_priority() == realtime_priority(),
        normal_priority()@ == 24,
        low_priority()@ == NO_PRIORITIES - 1,
        realtime_priority()@ < normal_priority()@ < low_priority()@,
        realtime_priority().is_level(),
        high_priority().is_level(),
        normal_priority().is_level(),
        low_priority().is_level(),
        forall|prio: TaskPriority| prio.is_level() ==> prio@ <= low_priority()@,
{
}

} // verus!
