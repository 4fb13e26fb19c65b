//! Device and configuration selection.
//!
//! The context bootstrap enumerates GPU devices and the configurations the
//! chosen display offers. The policy is fixed: report each device by name
//! and vendor, falling back to a sentinel when a name is unavailable, and
//! pick the configuration with the greatest multisample count, keeping the
//! first such configuration when several tie.

use vstd::prelude::*;

verus! {

/// Position `i` is the one the selector picks from the list of multisample
/// counts: no configuration has more samples, and every earlier one has
/// strictly fewer.
pub open spec fn is_selected(samples: Seq<u32>, i: int) -> bool {
    &&& 0 <= i < samples.len()
    &&& forall|j: int| 0 <= j < samples.len() ==> samples[j] <= samples[i]
    &&& forall|j: int| 0 <= j < i ==> samples[j] < samples[i]
}

/// Pick the configuration to create the context with: the first one with
/// the maximum multisample count. Returns its index, or `None` when no
/// configuration is available.
pub fn select_config(samples: &Vec<u32>) -> (r: Option<usize>)
    ensures
        r is Some <==> samples@.len() > 0,
        r matches Some(i) ==> is_selected(samples@, i as int),
{
    if samples.len() == 0 {
        return None;
    }
    let mut best: usize = 0;
    let mut i: usize = 1;
    while i < samples.len()
        invariant
            0 <= best < i <= samples@.len(),
            forall|j: int| 0 <= j < i ==> samples@[j] <= samples@[best as int],
            forall|j: int| 0 <= j < best ==> samples@[j] < samples@[best as int],
        decreases samples@.len() - i,
    {
        if samples[i] > samples[best] {
            best = i;
        }
        i = i + 1;
    }
    Some(best)
}

/// The selection is a function of the sample counts alone: only one
/// position satisfies it, so two runs over the same enumerated
/// configurations pick the same one.
pub proof fn lemma_selection_deterministic(samples: Seq<u32>, i: int, j: int)
    requires
        is_selected(samples, i),
        is_selected(samples, j),
    ensures
        i == j,
{
    if i < j {
        assert(samples[i] < samples[j]);
        assert(samples[j] <= samples[i]);
    }
    if j < i {
        assert(samples[j] < samples[i]);
        assert(samples[i] <= samples[j]);
    }
}

/// The device label to report: the device's own name when it has one, the
/// sentinel `"UNKNOWN"` otherwise.
pub fn name_or_unknown<'a>(name: Option<&'a str>) -> (r: &'a str)
    ensures
        match name {
            Some(s) => r@ == s@,
            None => r@ == "UNKNOWN"@,
        },
{
    match name {
        Some(s) => s,
        None => "UNKNOWN",
    }
}

} // verus!
