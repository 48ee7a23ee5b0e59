//! The memory areas that the loader reserves for Windows before anything
//! else can map them.
use vstd::prelude::*;

verus! {

/// A reserved memory area; a zero size ends a table of areas.
#[derive(Copy, Clone, Debug, PartialEq, Eq, Structural)]
pub struct WinePreloadInfo {
    /// Start address.
    pub addr: usize,
    /// Size in bytes.
    pub size: usize,
}

/// `n` is the position of the entry that ends the table `info`: the first
/// entry of size zero.
pub open spec fn is_table_end(info: Seq<WinePreloadInfo>, n: int) -> bool {
    &&& 0 <= n < info.len()
    &&& info[n].size == 0
    &&& forall|i: int| 0 <= i < n ==> (#[trigger] info[i]).size != 0
}

/// Walks the table of reserved areas up to its end marker and returns the
/// areas to reserve, in order.
pub fn init_reserved_areas(info: &[WinePreloadInfo]) -> (areas: Vec<WinePreloadInfo>)
    requires
        exists|k: int| 0 <= k < info@.len() && (#[trigger] info@[k]).size == 0,
    ensures
        exists|n: int| is_table_end(info@, n) && areas@ == info@.take(n),
{
    let ghost k = choose|k: int| 0 <= k < info@.len() && (#[trigger] info@[k]).size == 0;
    let mut areas: Vec<WinePreloadInfo> = Vec::new();
    let mut i: usize = 0;
    loop
        invariant
            0 <= i <= k,
            0 <= k < info@.len(),
            info@[k].size == 0,
            forall|j: int| 0 <= j < i ==> (#[trigger] info@[j]).size != 0,
            areas@ == info@.take(i as int),
        decreases k - i,
    {
        let entry = info[i];
        if entry.size == 0 {
            assert(is_table_end(info@, i as int));
            return areas;
        }
        proof {
            assert(info@.take(i + 1) =~= info@.take(i as int).push(entry));
        }
        areas.push(entry);
        i = i + 1;
    }
}

} // verus!
