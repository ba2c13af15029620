//! Components of the service and how they report health and shut down.

use vstd::prelude::*;

verus! {

/// When a component shuts down relative to the others.
#[derive(Clone, Copy, Debug, PartialEq, Eq, Structural, PartialOrd, Ord, Hash)]
pub enum ShutdownPriority {
    First,
    Normal,
    Last,
}

impl Default for ShutdownPriority {
    /// `Normal`.
    fn default() -> (r: Self)
        ensures
            r == ShutdownPriority::Normal,
    {
        ShutdownPriority::Normal
    }
}

impl ShutdownPriority {
    /// The numeric rank: 0, 50 and 100.
    pub fn value(&self) -> (r: u8)
        ensures
            r == match self {
                ShutdownPriority::First => 0u8,
                ShutdownPriority::Normal => 50u8,
                ShutdownPriority::Last => 100u8,
            },
    {
        match self {
            ShutdownPriority::First => 0,
            ShutdownPriority::Normal => 50,
            ShutdownPriority::Last => 100,
        }
    }
}

/// How a component is doing.
#[derive(Clone, Debug)]
pub enum HealthStatus {
    Healthy,
    Degraded { reason: String },
    Unhealthy { reason: String },
}

/// A component's health report.
#[derive(Clone, Debug)]
pub struct ComponentHealth {
    pub status: HealthStatus,
}

impl Default for ComponentHealth {
    /// Healthy.
    fn default() -> (r: Self)
        ensures
            r.status is Healthy,
    {
        ComponentHealth { status: HealthStatus::Healthy }
    }
}

/// How a component's shutdown went.
#[derive(Clone, Debug)]
pub enum ShutdownResult {
    Complete { items_processed: usize },
    Partial { remaining: usize },
    Error(String),
}

} // verus!
