//! The order of scan depths: the base directory comes before every depth inside it, and
//! depths inside it are ordered by their number.
use core::cmp::Ordering;
use vstd::prelude::*;
use vstd::std_specs::cmp::PartialOrdSpecImpl;

use super::scan::ScanEntryDepth;

verus! {

/// How `left` compares to `right`.
pub open spec fn depth_order(left: ScanEntryDepth, right: ScanEntryDepth) -> Option<Ordering> {
    match (left, right) {
        (ScanEntryDepth::BaseDirectory, ScanEntryDepth::BaseDirectory) => Some(Ordering::Equal),
        (ScanEntryDepth::BaseDirectory, ScanEntryDepth::AtDepth { .. }) => Some(Ordering::Less),
        (ScanEntryDepth::AtDepth { .. }, ScanEntryDepth::BaseDirectory) => Some(Ordering::Greater),
        (ScanEntryDepth::AtDepth { depth: l }, ScanEntryDepth::AtDepth { depth: r }) => if l < r {
            Some(Ordering::Less)
        } else if l == r {
            Some(Ordering::Equal)
        } else {
            Some(Ordering::Greater)
        },
    }
}

impl PartialOrd for ScanEntryDepth {
    fn partial_cmp(&self, other: &Self) -> (r: Option<Ordering>) {
        match (self, other) {
            (ScanEntryDepth::BaseDirectory, ScanEntryDepth::BaseDirectory) => Some(Ordering::Equal),
            (ScanEntryDepth::BaseDirectory, ScanEntryDepth::AtDepth { .. }) => Some(Ordering::Less),
            (ScanEntryDepth::AtDepth { .. }, ScanEntryDepth::BaseDirectory) => Some(Ordering::Greater),
            (ScanEntryDepth::AtDepth { depth: l }, ScanEntryDepth::AtDepth { depth: r }) => if *l < *r {
                Some(Ordering::Less)
            } else if *l == *r {
                Some(Ordering::Equal)
            } else {
                Some(Ordering::Greater)
            },
        }
    }
}

impl PartialOrdSpecImpl for ScanEntryDepth {
    open spec fn obeys_partial_cmp_spec() -> bool {
        true
    }

    open spec fn partial_cmp_spec(&self, other: &Self) -> Option<Ordering> {
        depth_order(*self, *other)
    }
}

} // verus!
