//! Memory regions and the resolution of an address to the region that owns it.

use crate::error::CommandError;
use vstd::prelude::*;

verus! {

/// Who owns a region: the kernel, or the task with the given index.
#[derive(Clone, Copy, Debug, PartialEq, Eq, Structural)]
pub enum TaskId {
    Kernel,
    Task(u32),
}

/// A contiguous range of target memory and the tasks that own it.
#[derive(Clone, Debug, PartialEq, Eq)]
pub struct Region {
    pub base: u32,
    pub size: u32,
    pub tasks: Vec<TaskId>,
}

impl Region {
    /// An address belongs to a region when it lies above the base and at or
    /// below the end. The base itself belongs to the region below.
    pub open spec fn spans(&self, addr: int) -> bool {
        self.base < addr <= self.base + self.size
    }

    /// The region has exactly one owner, and it is `task`.
    pub open spec fn owned_solely_by(&self, task: TaskId) -> bool {
        self.tasks@.len() == 1 && self.tasks@[0] == task
    }

    /// Whether `addr` belongs to the region.
    pub fn contains(&self, addr: u32) -> (r: bool)
        ensures
            r == self.spans(addr as int),
    {
        addr > self.base && addr - self.base <= self.size
    }

    /// Whether `task` is the region's one and only owner.
    pub fn is_owned_solely_by(&self, task: TaskId) -> (r: bool)
        ensures
            r == self.owned_solely_by(task),
    {
        self.tasks.len() == 1 && self.tasks[0] == task
    }
}

/// Region `i` spans `addr`, and no other region does.
pub open spec fn resolves_to(regions: Seq<Region>, addr: int, i: int) -> bool {
    &&& 0 <= i < regions.len()
    &&& regions[i].spans(addr)
    &&& forall|j: int| 0 <= j < regions.len() && j != i ==> !(#[trigger] regions[j]).spans(addr)
}

/// No region spans `addr`.
pub open spec fn unresolved(regions: Seq<Region>, addr: int) -> bool {
    forall|j: int| 0 <= j < regions.len() ==> !(#[trigger] regions[j]).spans(addr)
}

/// More than one region spans `addr`.
pub open spec fn ambiguous(regions: Seq<Region>, addr: int) -> bool {
    exists|i: int, j: int|
        0 <= i < j < regions.len() && (#[trigger] regions[i]).spans(addr)
            && (#[trigger] regions[j]).spans(addr)
}

/// The index of the one region that owns `addr`. An address that no region
/// owns is not found; one that several regions claim shows the regions to
/// contradict each other.
pub open spec fn resolve(regions: Seq<Region>, addr: u32) -> Result<int, CommandError> {
    if unresolved(regions, addr as int) {
        Err(CommandError::RegionNotFound(addr))
    } else if ambiguous(regions, addr as int) {
        Err(CommandError::RegionAmbiguous(addr))
    } else {
        Ok(choose|i: int| resolves_to(regions, addr as int, i))
    }
}

/// No address belongs to two regions.
pub open spec fn disjoint(regions: Seq<Region>) -> bool {
    forall|i: int, j: int, addr: int|
        0 <= i < regions.len() && 0 <= j < regions.len() && i != j
            && #[trigger] regions[i].spans(addr) ==> !(#[trigger] regions[j].spans(addr))
}

/// The region that alone spans an address is the one that resolution yields.
pub proof fn resolution_is_exact(regions: Seq<Region>, addr: u32, i: int)
    requires
        resolves_to(regions, addr as int, i),
    ensures
        resolve(regions, addr) == Ok::<int, CommandError>(i),
{
    let k = choose|k: int| resolves_to(regions, addr as int, k);
    assert(resolves_to(regions, addr as int, k));
    assert(k == i);
}

/// Resolution yields a region exactly when one region alone spans the
/// address, and says which of the two ways it failed when it does not.
pub proof fn resolution_is_sound(regions: Seq<Region>, addr: u32)
    ensures
        match resolve(regions, addr) {
            Ok(i) => resolves_to(regions, addr as int, i),
            Err(e) => {
                ||| e == CommandError::RegionNotFound(addr) && unresolved(regions, addr as int)
                ||| e == CommandError::RegionAmbiguous(addr) && ambiguous(regions, addr as int)
            },
        },
{
    if !unresolved(regions, addr as int) && !ambiguous(regions, addr as int) {
        let i = choose|i: int| 0 <= i < regions.len() && (#[trigger] regions[i]).spans(addr as int);
        assert forall|j: int| 0 <= j < regions.len() && j != i implies !(#[trigger] regions[j]).spans(
            addr as int,
        ) by {
            if regions[j].spans(addr as int) {
                if i < j {
                    assert(regions[i].spans(addr as int) && regions[j].spans(addr as int));
                } else {
                    assert(regions[j].spans(addr as int) && regions[i].spans(addr as int));
                }
            }
        }
        assert(resolves_to(regions, addr as int, i));
    }
}

/// Among disjoint regions no address is ambiguous, and the region that
/// spans an address is the one that resolution yields, wherever it stands
/// among the regions.
pub proof fn resolution_is_unique(regions: Seq<Region>, addr: u32, i: int)
    requires
        disjoint(regions),
        0 <= i < regions.len(),
        regions[i].spans(addr as int),
    ensures
        resolve(regions, addr) == Ok::<int, CommandError>(i),
{
    assert forall|j: int| 0 <= j < regions.len() && j != i implies !(#[trigger] regions[j]).spans(
        addr as int,
    ) by {
        if regions[j].spans(addr as int) {
            assert(!regions[i].spans(addr as int));
        }
    }
    resolution_is_exact(regions, addr, i);
}

/// The low boundary of a region lies outside it, the high boundary inside.
pub proof fn boundaries(region: Region)
    requires
        region.size > 0,
    ensures
        !region.spans(region.base as int),
        region.spans(region.base + region.size),
{
}

/// Finds the one region that owns `addr`.
pub fn find_region(regions: &Vec<Region>, addr: u32) -> (r: Result<usize, CommandError>)
    ensures
        match r {
            Ok(i) => resolves_to(regions@, addr as int, i as int),
            Err(e) => {
                ||| e == CommandError::RegionNotFound(addr) && unresolved(regions@, addr as int)
                ||| e == CommandError::RegionAmbiguous(addr) && ambiguous(regions@, addr as int)
            },
        },
        resolve(regions@, addr) == match r {
            Ok(i) => Ok::<int, CommandError>(i as int),
            Err(e) => Err::<int, CommandError>(e),
        },
{
    let mut found: Option<usize> = None;
    let mut i: usize = 0;
    while i < regions.len()
        invariant
            i <= regions.len(),
            match found {
                Some(k) => {
                    &&& k < i
                    &&& regions@[k as int].spans(addr as int)
                    &&& forall|j: int| 0 <= j < i && j != k ==> !(#[trigger] regions@[j]).spans(addr as int)
                },
                None => forall|j: int| 0 <= j < i ==> !(#[trigger] regions@[j]).spans(addr as int),
            },
        decreases regions.len() - i,
    {
        if regions[i].contains(addr) {
            match found {
                Some(k) => {
                    assert(regions@[k as int].spans(addr as int) && regions@[i as int].spans(
                        addr as int,
                    ));
                    return Err(CommandError::RegionAmbiguous(addr));
                },
                None => {
                    found = Some(i);
                },
            }
        }
        i += 1;
    }
    match found {
        Some(k) => {
            proof {
                resolution_is_exact(regions@, addr, k as int);
            }
            Ok(k)
        },
        None => Err(CommandError::RegionNotFound(addr)),
    }
}

} // verus!
