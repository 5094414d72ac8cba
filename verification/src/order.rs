//! Version precedence as a three-way comparison, for sorting.
use vstd::prelude::*;

use std::cmp::Ordering;

use crate::version::{lemma_text_lt_order, text_less, version_lt, SemVer};

verus! {

fn compare_u32(a: u32, b: u32) -> (r: Ordering)
    ensures
        r == Ordering::Less <==> a < b,
        r == Ordering::Equal <==> a == b,
        r == Ordering::Greater <==> a > b,
{
    if a < b {
        Ordering::Less
    } else if a == b {
        Ordering::Equal
    } else {
        Ordering::Greater
    }
}

impl SemVer {
    /// Whether `self` precedes `other`.
    pub fn is_before(&self, other: &SemVer) -> (r: bool)
        ensures
            r == version_lt(self@, other@),
    {
        match self.compare(other) {
            Ordering::Less => true,
            Ordering::Equal => false,
            Ordering::Greater => {
                proof {
                    crate::version::law_version_order(self@, other@, self@);
                }
                false
            },
        }
    }

    /// Version precedence: major, minor, patch, then a
    /// pre-release before its release, pre-releases by label then number.
    pub fn compare(&self, other: &SemVer) -> (r: Ordering)
        ensures
            r == Ordering::Less <==> version_lt(self@, other@),
            r == Ordering::Equal <==> self@ == other@,
            r == Ordering::Greater <==> version_lt(other@, self@),
    {
        if self.major != other.major {
            return compare_u32(self.major, other.major);
        }
        if self.minor != other.minor {
            return compare_u32(self.minor, other.minor);
        }
        if self.patch != other.patch {
            return compare_u32(self.patch, other.patch);
        }
        match (&self.pre, &other.pre) {
            (None, None) => Ordering::Equal,
            (Some(_), None) => Ordering::Less,
            (None, Some(_)) => Ordering::Greater,
            (Some(x), Some(y)) => {
                proof {
                    lemma_text_lt_order(x.label@, y.label@, x.label@);
                }
                if text_less(x.label.as_str(), y.label.as_str()) {
                    Ordering::Less
                } else if text_less(y.label.as_str(), x.label.as_str()) {
                    Ordering::Greater
                } else {
                    proof {
                        if x.number == y.number {
                            assert(x@ == y@);
                        }
                    }
                    compare_u32(x.number, y.number)
                }
            },
        }
    }
}

} // verus!
