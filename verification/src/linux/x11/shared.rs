//! The memory that the server writes images into: how it is set up, and how what was set up
//! is given back where a later step fails.

use crate::linux::error::LinCapError;
use vstd::prelude::*;

verus! {

/// Memory that is mapped here and attached to the server.
#[derive(Debug)]
pub struct SharedImage {
    pub segment: u32,
    pub address: isize,
    pub size: usize,
}

/// The server is asked whether it shares memory.
#[derive(Debug)]
pub struct Querying {
    pub size: usize,
}

/// A memory segment is being made.
#[derive(Debug)]
pub struct Allocating {
    pub size: usize,
}

/// The segment is being mapped.
#[derive(Debug)]
pub struct Mapping {
    pub size: usize,
    pub shmid: i32,
}

/// The segment could not be mapped and is being removed.
#[derive(Debug)]
pub struct Removing;

/// A number for the segment is being drawn.
#[derive(Debug)]
pub struct Naming {
    pub size: usize,
    pub shmid: i32,
    pub address: isize,
}

/// The server is attaching the segment.
#[derive(Debug)]
pub struct Attaching {
    pub size: usize,
    pub shmid: i32,
    pub address: isize,
    pub segment: u32,
}

/// What is done next.
#[allow(inconsistent_fields)]
#[derive(Debug)]
pub enum ShareStep {
    /// Ask the server for the version of its extension.
    QueryVersion(Querying),
    /// Make a private segment of `size` bytes.
    Allocate { size: usize, next: Allocating },
    /// Map the segment.
    MapIn { shmid: i32, next: Mapping },
    /// Remove the segment, then say what went wrong.
    Remove { shmid: i32, next: Removing },
    /// Draw a number for the segment on the connection.
    DrawNumber(Naming),
    /// Have the server attach the segment, to be written to.
    Attach { segment: u32, shmid: u32, next: Attaching },
    /// Unmap and remove the segment, then fail.
    Release { address: isize, shmid: i32, error: LinCapError },
    /// Mark the segment for removal, which takes effect when both sides have let go of it.
    Ready { shmid: i32, image: SharedImage },
    /// Fail.
    Fail(LinCapError),
}

/// Begins to set up memory for an image of `size` bytes.
pub fn begin(size: usize) -> (r: ShareStep)
    ensures
        r == ShareStep::QueryVersion(Querying { size }),
{
    ShareStep::QueryVersion(Querying { size })
}

impl Querying {
    /// The server answered, or does not share memory.
    pub fn answered(self, version: Result<(), &str>) -> (r: ShareStep)
        ensures
            match version {
                Ok(_) => r == (ShareStep::Allocate {
                    size: self.size,
                    next: Allocating { size: self.size },
                }),
                Err(reason) => r matches ShareStep::Fail(error) && error@ == "MIT-SHM unavailable: "@
                    + reason@,
            },
            follows(ShareStep::QueryVersion(self), r),
    {
        match version {
            Ok(_) => ShareStep::Allocate {
                size: self.size,
                next: Allocating { size: self.size },
            },
            Err(reason) => ShareStep::Fail(
                LinCapError::with_reason("MIT-SHM unavailable: ", reason),
            ),
        }
    }
}

impl Allocating {
    /// The segment was made, or `shmid` is negative and `os_error` says why not.
    pub fn allocated(self, shmid: i32, os_error: &str) -> (r: ShareStep)
        ensures
            if shmid < 0 {
                r matches ShareStep::Fail(error) && error@ == "MIT-SHM allocation failed: "@
                    + os_error@
            } else {
                r == (ShareStep::MapIn { shmid, next: Mapping { size: self.size, shmid } })
            },
            follows(ShareStep::Allocate { size: self.size, next: self }, r),
    {
        if shmid < 0 {
            return ShareStep::Fail(
                LinCapError::with_reason("MIT-SHM allocation failed: ", os_error),
            );
        }
        ShareStep::MapIn { shmid, next: Mapping { size: self.size, shmid } }
    }
}

impl Mapping {
    /// The segment was mapped at `address`, or that is -1.
    pub fn mapped(self, address: isize) -> (r: ShareStep)
        requires
            address != 0,
        ensures
            r == (if address == -1 {
                ShareStep::Remove { shmid: self.shmid, next: Removing }
            } else {
                ShareStep::DrawNumber(Naming { size: self.size, shmid: self.shmid, address })
            }),
            follows(ShareStep::MapIn { shmid: self.shmid, next: self }, r),
    {
        if address == -1 {
            return ShareStep::Remove { shmid: self.shmid, next: Removing };
        }
        ShareStep::DrawNumber(Naming { size: self.size, shmid: self.shmid, address })
    }
}

impl Removing {
    /// The segment was removed; `os_error` is the last error of the system.
    pub fn removed(self, os_error: &str) -> (r: ShareStep)
        ensures
            r matches ShareStep::Fail(error) && error@ == "MIT-SHM attach failed: "@ + os_error@,
            forall|shmid: i32| #[trigger]
                follows(ShareStep::Remove { shmid, next: self }, r),
    {
        ShareStep::Fail(LinCapError::with_reason("MIT-SHM attach failed: ", os_error))
    }
}

impl Naming {
    /// A number was drawn, or there is none.
    pub fn named(self, segment: Result<u32, &str>) -> (r: ShareStep)
        requires
            self.shmid >= 0,
        ensures
            match segment {
                Ok(segment) => r == (ShareStep::Attach {
                    segment,
                    shmid: self.shmid as u32,
                    next: Attaching {
                        size: self.size,
                        shmid: self.shmid,
                        address: self.address,
                        segment,
                    },
                }),
                Err(reason) => r matches ShareStep::Release { address, shmid, error } && address
                    == self.address && shmid == self.shmid && error@
                    == "MIT-SHM resource allocation failed: "@ + reason@,
            },
            follows(ShareStep::DrawNumber(self), r),
    {
        match segment {
            Ok(segment) => ShareStep::Attach {
                segment,
                shmid: self.shmid as u32,
                next: Attaching {
                    size: self.size,
                    shmid: self.shmid,
                    address: self.address,
                    segment,
                },
            },
            Err(reason) => ShareStep::Release {
                address: self.address,
                shmid: self.shmid,
                error: LinCapError::with_reason("MIT-SHM resource allocation failed: ", reason),
            },
        }
    }
}

impl Attaching {
    /// The server attached the segment, or refused.
    pub fn attached(self, attached: Result<(), &str>) -> (r: ShareStep)
        ensures
            match attached {
                Ok(_) => r == (ShareStep::Ready {
                    shmid: self.shmid,
                    image: SharedImage {
                        segment: self.segment,
                        address: self.address,
                        size: self.size,
                    },
                }),
                Err(reason) => r matches ShareStep::Release { address, shmid, error } && address
                    == self.address && shmid == self.shmid && error@
                    == "MIT-SHM server attach failed: "@ + reason@,
            },
            follows(
                ShareStep::Attach {
                    segment: self.segment,
                    shmid: self.shmid as u32,
                    next: self,
                },
                r,
            ),
    {
        match attached {
            Ok(_) => ShareStep::Ready {
                shmid: self.shmid,
                image: SharedImage {
                    segment: self.segment,
                    address: self.address,
                    size: self.size,
                },
            },
            Err(reason) => ShareStep::Release {
                address: self.address,
                shmid: self.shmid,
                error: LinCapError::with_reason("MIT-SHM server attach failed: ", reason),
            },
        }
    }
}

/// What is held of the system: a segment that was made and not removed, and an address at which
/// it is mapped.
#[derive(Clone, Copy)]
pub struct Holdings {
    pub segment: Option<i32>,
    pub mapping: Option<isize>,
}

/// What is held when a step begins.
pub open spec fn held_before(step: ShareStep) -> Holdings {
    match step {
        ShareStep::QueryVersion(_) => Holdings { segment: None, mapping: None },
        ShareStep::Allocate { size, next } => Holdings { segment: None, mapping: None },
        ShareStep::MapIn { shmid, next } => Holdings { segment: Some(shmid), mapping: None },
        ShareStep::Remove { shmid, next } => Holdings { segment: Some(shmid), mapping: None },
        ShareStep::DrawNumber(next) => Holdings {
            segment: Some(next.shmid),
            mapping: Some(next.address),
        },
        ShareStep::Attach { segment, shmid, next } => Holdings {
            segment: Some(next.shmid),
            mapping: Some(next.address),
        },
        ShareStep::Release { address, shmid, error } => Holdings {
            segment: Some(shmid),
            mapping: Some(address),
        },
        ShareStep::Ready { shmid, image } => Holdings {
            segment: Some(shmid),
            mapping: Some(image.address),
        },
        ShareStep::Fail(_) => Holdings { segment: None, mapping: None },
    }
}

/// What is held of that when the step has given back what it gives back.
pub open spec fn held_after(step: ShareStep) -> Holdings {
    match step {
        ShareStep::Remove { shmid, next } => Holdings { segment: None, mapping: None },
        ShareStep::Release { address, shmid, error } => Holdings { segment: None, mapping: None },
        ShareStep::Ready { shmid, image } => Holdings {
            segment: None,
            mapping: Some(image.address),
        },
        _ => held_before(step),
    }
}

/// Whether the step `after` can come next after the step `before`: it fails, or it goes one
/// further with what `before` held and what it got.
pub open spec fn follows(before: ShareStep, after: ShareStep) -> bool {
    match before {
        ShareStep::QueryVersion(querying) => {
            ||| after is Fail
            ||| after == (ShareStep::Allocate {
                size: querying.size,
                next: Allocating { size: querying.size },
            })
        },
        ShareStep::Allocate { size, next } => {
            ||| after is Fail
            ||| after matches ShareStep::MapIn { shmid, next: mapping } && shmid >= 0 && mapping
                == (Mapping { size: next.size, shmid })
        },
        ShareStep::MapIn { shmid, next } => {
            ||| after == (ShareStep::Remove { shmid: next.shmid, next: Removing })
            ||| after matches ShareStep::DrawNumber(naming) && naming.size == next.size
                && naming.shmid == next.shmid && naming.address != 0 && naming.address != -1
        },
        ShareStep::Remove { shmid, next } => after is Fail,
        ShareStep::DrawNumber(next) => {
            ||| after matches ShareStep::Release { address, shmid, error } && address
                == next.address && shmid == next.shmid
            ||| after matches ShareStep::Attach { segment, shmid, next: attaching } && shmid
                == next.shmid as u32 && attaching == (Attaching {
                size: next.size,
                shmid: next.shmid,
                address: next.address,
                segment,
            })
        },
        ShareStep::Attach { segment, shmid, next } => {
            ||| after matches ShareStep::Release { address, shmid: removed, error } && address
                == next.address && removed == next.shmid
            ||| after == (ShareStep::Ready {
                shmid: next.shmid,
                image: SharedImage {
                    segment: next.segment,
                    address: next.address,
                    size: next.size,
                },
            })
        },
        ShareStep::Release { address, shmid, error } => false,
        ShareStep::Ready { shmid, image } => false,
        ShareStep::Fail(_) => false,
    }
}

/// Whether the step at `i` of a set-up leads to the one behind it.
pub open spec fn linked(steps: Seq<ShareStep>, i: int) -> bool {
    follows(steps[i], steps[i + 1])
}

/// Whether `steps` are the steps so far of a set-up for an image of `size` bytes.
pub open spec fn is_run(size: usize, steps: Seq<ShareStep>) -> bool {
    &&& steps.len() > 0
    &&& steps[0] == ShareStep::QueryVersion(Querying { size })
    &&& forall|i: int| 0 <= i < steps.len() - 1 ==> #[trigger] linked(steps, i)
}

/// Whether the set-up is over with this step.
pub open spec fn is_over(step: ShareStep) -> bool {
    step is Release || step is Ready || step is Fail
}

/// The segment that a step removes or marks for removal.
pub open spec fn given_back(step: ShareStep) -> Option<i32> {
    match step {
        ShareStep::Remove { shmid, next } => Some(shmid),
        ShareStep::Release { address, shmid, error } => Some(shmid),
        ShareStep::Ready { shmid, image } => Some(shmid),
        _ => None,
    }
}

/// Which step of a set-up can stand at which place, and what it carries.
proof fn lemma_places(size: usize, steps: Seq<ShareStep>)
    requires
        is_run(size, steps),
    ensures
        steps.len() <= 6,
        steps.len() > 1 ==> steps[1] is Fail || (steps[1] matches ShareStep::Allocate {
            size: asked,
            next,
        } && asked == size && next.size == size),
        steps.len() > 2 ==> steps[2] is Fail || (steps[2] matches ShareStep::MapIn { shmid, next }
            && shmid == next.shmid && next.size == size),
        steps.len() > 3 ==> steps[2] is MapIn && (steps[3] is Remove || steps[3] is DrawNumber),
        steps.len() > 4 ==> steps[4] is Fail || steps[4] is Release || steps[4] is Attach,
        steps.len() > 5 ==> steps[5] is Release || steps[5] is Ready,
        forall|i: int| 0 <= i < steps.len() - 1 ==> !is_over(#[trigger] steps[i]),
{
    assert forall|i: int| 0 <= i < steps.len() - 1 implies !is_over(#[trigger] steps[i]) by {
        assert(linked(steps, i));
    }
    assert(steps.len() > 1 ==> linked(steps, 0));
    assert(steps.len() > 2 ==> linked(steps, 1));
    assert(steps.len() > 3 ==> linked(steps, 2));
    assert(steps.len() > 4 ==> linked(steps, 3));
    assert(steps.len() > 5 ==> linked(steps, 4));
    assert(steps.len() > 6 ==> linked(steps, 5));
}

/// Nothing leaks: each step of a set-up begins with what the one before it left, plus at most the
/// segment that was just made or the mapping of it; where the set-up ends without an image,
/// nothing is held; and where it ends with one, the segment is marked for removal and only the
/// mapping is kept.
pub proof fn law_nothing_leaks(size: usize, steps: Seq<ShareStep>, i: int)
    requires
        is_run(size, steps),
        0 < i < steps.len(),
    ensures
        match steps[i] {
            ShareStep::MapIn { shmid, next } => held_after(steps[i - 1]).segment is None,
            ShareStep::DrawNumber(next) => held_after(steps[i - 1]).mapping is None
                && held_before(steps[i]).segment == held_after(steps[i - 1]).segment,
            _ => held_before(steps[i]) == held_after(steps[i - 1]),
        },
        steps[i] is Fail || steps[i] is Release ==> held_after(steps[i]) == (Holdings {
            segment: None,
            mapping: None,
        }),
        steps[i] matches ShareStep::Ready { shmid, image } ==> held_after(steps[i]) == (Holdings {
            segment: None,
            mapping: Some(image.address),
        }),
{
    lemma_places(size, steps);
    assert(linked(steps, i - 1));
}

/// Memory that is ready has the size that was asked for, and its set-up is over.
pub proof fn law_ready_memory_has_its_size(size: usize, steps: Seq<ShareStep>, i: int)
    requires
        is_run(size, steps),
        0 <= i < steps.len(),
    ensures
        steps[i] matches ShareStep::Ready { shmid, image } ==> image.size == size && i
            == steps.len() - 1,
{
    lemma_places(size, steps);
    if steps[i] is Ready {
        assert(linked(steps, 2));
        assert(linked(steps, 3));
        assert(linked(steps, 4));
    }
}

/// A set-up that is over has given back each segment that it went on to map in, and exactly once:
/// one step removes it, releases it or marks it for removal, and no other gives back anything.
/// Without such a segment, no step gives back anything.
pub proof fn law_segment_is_given_back_once(size: usize, steps: Seq<ShareStep>)
    requires
        is_run(size, steps),
        is_over(steps.last()),
    ensures
        forall|i: int|
            0 <= i < steps.len() ==> ((#[trigger] steps[i]) matches ShareStep::MapIn { shmid, next }
                ==> exists|j: int|
                i < j < steps.len() && given_back(#[trigger] steps[j]) == Some(shmid)),
        forall|j: int, k: int|
            0 <= j < k < steps.len() ==> given_back(#[trigger] steps[j]) is None || given_back(
                #[trigger] steps[k],
            ) is None,
        forall|j: int|
            0 <= j < steps.len() && given_back(#[trigger] steps[j]) is Some ==> exists|i: int|
                0 <= i < j && (#[trigger] steps[i]) is MapIn,
{
    lemma_places(size, steps);
    if steps.len() > 3 {
        assert(linked(steps, 2));
        assert(linked(steps, 3));
        let shmid = steps[2]->MapIn_shmid;
        let back: int = if steps[3] is Remove {
            3
        } else if steps[4] is Release {
            4
        } else {
            5
        };
        if back == 5 {
            assert(linked(steps, 4));
        }
        assert(given_back(steps[back]) == Some(shmid));
        assert forall|i: int| 0 <= i < steps.len() && (#[trigger] steps[i]) is MapIn implies i
            == 2 by {}
    }
}

} // verus!
