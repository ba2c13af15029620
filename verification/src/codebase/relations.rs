//! Counting the outcome of creating symbol relations.

use vstd::prelude::*;

verus! {

/// How creating one relation from a reference ended.
#[derive(Clone, Copy, Debug, PartialEq, Eq, Structural)]
pub enum RelationOutcome {
    /// The relation was stored.
    Created,
    /// Storing the relation failed.
    Failed,
    /// The referenced symbol is not in the project.
    Unresolved,
}

/// Counts of relation outcomes.
#[derive(Clone, Copy, Debug)]
pub struct RelationStats {
    pub created: u32,
    pub failed: u32,
    pub unresolved: u32,
}

impl Default for RelationStats {
    /// All counts zero.
    fn default() -> (r: Self)
        ensures
            r.created == 0 && r.failed == 0 && r.unresolved == 0,
    {
        RelationStats { created: 0, failed: 0, unresolved: 0 }
    }
}

impl RelationStats {
    /// Counts one outcome (counts wrap past `u32::MAX`).
    pub fn record(&mut self, outcome: RelationOutcome)
        ensures
            final(self).created == (if outcome == RelationOutcome::Created {
                old(self).created.wrapping_add(1)
            } else {
                old(self).created
            }),
            final(self).failed == (if outcome == RelationOutcome::Failed {
                old(self).failed.wrapping_add(1)
            } else {
                old(self).failed
            }),
            final(self).unresolved == (if outcome == RelationOutcome::Unresolved {
                old(self).unresolved.wrapping_add(1)
            } else {
                old(self).unresolved
            }),
    {
        match outcome {
            RelationOutcome::Created => self.created = self.created.wrapping_add(1),
            RelationOutcome::Failed => self.failed = self.failed.wrapping_add(1),
            RelationOutcome::Unresolved => self.unresolved = self.unresolved.wrapping_add(1),
        }
    }

    /// Adds another run's counts to these.
    pub fn add(&mut self, other: &RelationStats)
        ensures
            final(self).created == old(self).created.wrapping_add(other.created),
            final(self).failed == old(self).failed.wrapping_add(other.failed),
            final(self).unresolved == old(self).unresolved.wrapping_add(other.unresolved),
    {
        self.created = self.created.wrapping_add(other.created);
        self.failed = self.failed.wrapping_add(other.failed);
        self.unresolved = self.unresolved.wrapping_add(other.unresolved);
    }

    /// Whether anything is worth reporting: a relation was stored or failed.
    pub fn worth_reporting(&self) -> (r: bool)
        ensures
            r == (self.created > 0 || self.failed > 0),
    {
        self.created > 0 || self.failed > 0
    }
}

} // verus!
