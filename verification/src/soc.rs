//! SoC capability lookup.
//!
//! The static capability table is parsed outside the library; the selection
//! of the entry matching the running machine is verified here.

use vstd::prelude::*;
use crate::text::str_eq;

verus! {

/// Entry point for the SoC queries.
pub struct SocDetails;

#[derive(Debug, Clone)]
pub struct CoreConfig {
    pub p: u32,
    pub e: u32,
}

#[derive(Debug, Clone)]
pub struct Core {
    pub name: Option<String>,
    pub architecture: Option<String>,
    pub frequency: u32,
}

/// The table entry at index `i` matches the machine's name and core count.
pub open spec fn spec_soc_entry_matches(
    names: Seq<Seq<char>>,
    core_counts: Seq<u32>,
    name: Seq<char>,
    core_count: u32,
    i: int,
) -> bool {
    names[i] == name && core_counts[i] == core_count
}

impl SocDetails {
    /// Selects the first capability-table entry whose name and core count
    /// both match the running machine's readings; `None` when no entry does.
    pub fn find_soc_entry(
        names: &Vec<String>,
        core_counts: &Vec<u32>,
        name: &str,
        core_count: u32,
    ) -> (r: Option<usize>)
        requires
            names@.len() == core_counts@.len(),
        ensures
            match r {
                Some(i) => {
                    &&& i < names@.len()
                    &&& names@[i as int]@ == name@
                    &&& core_counts@[i as int] == core_count
                    &&& forall|j: int|
                        0 <= j < i ==> !(names@[j]@ == name@ && core_counts@[j] == core_count)
                },
                None => forall|j: int|
                    0 <= j < names@.len()
                        ==> !(names@[j]@ == name@ && core_counts@[j] == core_count),
            },
    {
        let n: usize = names.len();
        let mut i: usize = 0;
        while i < n
            invariant
                n == names@.len(),
                names@.len() == core_counts@.len(),
                0 <= i <= n,
                forall|j: int|
                    0 <= j < i ==> !(names@[j]@ == name@ && core_counts@[j] == core_count),
            decreases n - i,
        {
            if str_eq(names[i].as_str(), name) && core_counts[i] == core_count {
                return Some(i);
            }
            i = i + 1;
        }
        None
    }
}

} // verus!
