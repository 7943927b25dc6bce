//! Scheduling priorities, as the integers by which they cross the boundary.

use vstd::prelude::*;

verus! {

/// The integer of [`PriorityLevel::High`].
pub const PRIORITY_HIGH: i32 = -100;

/// The integer of [`PriorityLevel::Default`].
pub const PRIORITY_DEFAULT: i32 = 0;

/// The integer of [`PriorityLevel::HighIdle`].
pub const PRIORITY_HIGH_IDLE: i32 = 100;

/// The integer of [`PriorityLevel::DefaultIdle`].
pub const PRIORITY_DEFAULT_IDLE: i32 = 200;

/// The integer of [`PriorityLevel::Low`].
pub const PRIORITY_LOW: i32 = 300;

/// The named priority levels. A lower integer is served first.
#[derive(Clone, Copy, Debug, PartialEq, Eq, Structural)]
pub enum PriorityLevel {
    High,
    Default,
    HighIdle,
    DefaultIdle,
    Low,
}

/// A scheduling priority: the integer that the foreign object stores.
#[derive(Clone, Copy, Debug, PartialEq, Eq, Structural)]
pub struct Priority(i32);

/// The integer that stands for a named level.
pub open spec fn level_raw(level: PriorityLevel) -> i32 {
    match level {
        PriorityLevel::High => PRIORITY_HIGH,
        PriorityLevel::Default => PRIORITY_DEFAULT,
        PriorityLevel::HighIdle => PRIORITY_HIGH_IDLE,
        PriorityLevel::DefaultIdle => PRIORITY_DEFAULT_IDLE,
        PriorityLevel::Low => PRIORITY_LOW,
    }
}

/// The named level that an integer stands for, if it stands for one.
pub open spec fn raw_level(raw: i32) -> Option<PriorityLevel> {
    if raw == PRIORITY_HIGH {
        Some(PriorityLevel::High)
    } else if raw == PRIORITY_DEFAULT {
        Some(PriorityLevel::Default)
    } else if raw == PRIORITY_HIGH_IDLE {
        Some(PriorityLevel::HighIdle)
    } else if raw == PRIORITY_DEFAULT_IDLE {
        Some(PriorityLevel::DefaultIdle)
    } else if raw == PRIORITY_LOW {
        Some(PriorityLevel::Low)
    } else {
        None
    }
}

impl View for Priority {
    type V = i32;

    closed spec fn view(&self) -> i32 {
        self.0
    }
}

impl Priority {
    /// The priority that the integer `raw` stands for. Every integer is a priority.
    pub fn from_glib(raw: i32) -> (p: Priority)
        ensures
            p@ == raw,
    {
        Priority(raw)
    }

    /// The integer by which this priority crosses the boundary.
    pub fn into_glib(self) -> (raw: i32)
        ensures
            raw == self@,
    {
        self.0
    }

    /// The priority of a named level.
    pub fn from_level(level: PriorityLevel) -> (p: Priority)
        ensures
            p@ == level_raw(level),
    {
        match level {
            PriorityLevel::High => Priority(PRIORITY_HIGH),
            PriorityLevel::Default => Priority(PRIORITY_DEFAULT),
            PriorityLevel::HighIdle => Priority(PRIORITY_HIGH_IDLE),
            PriorityLevel::DefaultIdle => Priority(PRIORITY_DEFAULT_IDLE),
            PriorityLevel::Low => Priority(PRIORITY_LOW),
        }
    }

    /// The named level of this priority; `None` for an integer between the levels.
    pub fn level(&self) -> (l: Option<PriorityLevel>)
        ensures
            l == raw_level(self@),
    {
        let raw: i32 = self.0;
        if raw == PRIORITY_HIGH {
            Some(PriorityLevel::High)
        } else if raw == PRIORITY_DEFAULT {
            Some(PriorityLevel::Default)
        } else if raw == PRIORITY_HIGH_IDLE {
            Some(PriorityLevel::HighIdle)
        } else if raw == PRIORITY_DEFAULT_IDLE {
            Some(PriorityLevel::DefaultIdle)
        } else if raw == PRIORITY_LOW {
            Some(PriorityLevel::Low)
        } else {
            None
        }
    }
}

impl Default for Priority {
    /// The default level.
    fn default() -> (p: Priority)
        ensures
            p@ == PRIORITY_DEFAULT,
    {
        Priority(PRIORITY_DEFAULT)
    }
}

/// The mapping between named levels and integers is one to one: a level is
/// found again from its integer, and an integer that has a level is the
/// integer of that level.
pub proof fn lemma_level_round_trip(level: PriorityLevel, raw: i32)
    ensures
        raw_level(level_raw(level)) == Some(level),
        raw_level(raw) is Some ==> level_raw(raw_level(raw)->0) == raw,
{
}

} // verus!
