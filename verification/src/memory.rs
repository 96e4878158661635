//! The layout of guest RAM and the construction of the guest address space.

use vstd::prelude::*;
use crate::pipeline::Action;
use crate::pipeline::Pipeline;
use crate::pipeline::PipelineView;
use crate::pipeline::lemma_run_keeps_plan;

verus! {

/// What the core needs to know of the platform a machine is built for.
#[derive(Clone, Copy, Debug, PartialEq, Eq, Structural)]
pub struct PlatformProfile {
    /// Guest physical address at which RAM begins.
    pub ram_base: u64,
    /// A gap in the physical memory map that RAM must leave free.
    pub gap: Option<MemoryGap>,
    /// The platform has an I/O address space beside the memory address space.
    pub io_space: bool,
    /// The platform has an external interrupt controller, which is stopped
    /// when the machine pauses.
    pub irq_chip: bool,
}

/// A reserved part of the physical memory map: the addresses from `start`
/// up to, not including, `end`.
#[derive(Clone, Copy, Debug, PartialEq, Eq, Structural)]
pub struct MemoryGap {
    pub start: u64,
    pub end: u64,
}

/// One range of guest RAM: where it starts and how long it is.
pub type RamRange = (u64, u64);

impl PlatformProfile {
    /// The gap, if any, lies above the start of RAM and is not empty.
    pub open spec fn wf(self) -> bool {
        self.gap matches Some(gap) ==> self.ram_base <= gap.start < gap.end
    }

    /// How much RAM fits below the gap.
    pub open spec fn low_capacity(self) -> int {
        match self.gap {
            Some(gap) => gap.start - self.ram_base,
            None => 0,
        }
    }

    /// RAM of this size ends inside the 64-bit physical address space.
    pub open spec fn fits(self, mem_size: u64) -> bool {
        match self.gap {
            None => self.ram_base + mem_size <= u64::MAX,
            Some(gap) => mem_size > self.low_capacity() ==> gap.end + (mem_size
                - self.low_capacity()) <= u64::MAX,
        }
    }

    /// The ranges of guest RAM for a machine with `mem_size` bytes.
    ///
    /// Without a gap RAM is one range from the base. With a gap, RAM fills
    /// the addresses below the gap first; what does not fit there follows
    /// directly above the gap.
    pub open spec fn ram_ranges(self, mem_size: u64) -> Seq<RamRange> {
        match self.gap {
            None => seq![(self.ram_base, mem_size)],
            Some(gap) => if mem_size > self.low_capacity() {
                seq![
                    (self.ram_base, self.low_capacity() as u64),
                    (gap.end, (mem_size - self.low_capacity()) as u64),
                ]
            } else {
                seq![(self.ram_base, mem_size)]
            },
        }
    }

    /// A platform whose RAM starts at address zero and leaves the 768 MiB
    /// below 4 GiB free, with an I/O address space.
    pub fn x86_64() -> (profile: PlatformProfile)
        ensures
            profile.wf(),
            profile == (PlatformProfile {
                ram_base: 0,
                gap: Some(MemoryGap { start: 0xC000_0000, end: 0x1_0000_0000 }),
                io_space: true,
                irq_chip: false,
            }),
    {
        PlatformProfile {
            ram_base: 0,
            gap: Some(MemoryGap { start: 0xC000_0000, end: 0x1_0000_0000 }),
            io_space: true,
            irq_chip: false,
        }
    }

    /// A platform whose RAM is one range from 1 GiB on, with an external
    /// interrupt controller.
    pub fn aarch64() -> (profile: PlatformProfile)
        ensures
            profile.wf(),
            profile == (PlatformProfile {
                ram_base: 0x4000_0000,
                gap: None,
                io_space: false,
                irq_chip: true,
            }),
    {
        PlatformProfile { ram_base: 0x4000_0000, gap: None, io_space: false, irq_chip: true }
    }

    /// Tells whether RAM of this size ends inside the physical address space.
    pub fn ram_fits(&self, mem_size: u64) -> (fits: bool)
        requires
            self.wf(),
        ensures
            fits == self.fits(mem_size),
    {
        match self.gap {
            None => mem_size <= u64::MAX - self.ram_base,
            Some(gap) => {
                let capacity = gap.start - self.ram_base;
                mem_size <= capacity || mem_size - capacity <= u64::MAX - gap.end
            },
        }
    }

    /// Computes the ranges of guest RAM for a machine with `mem_size` bytes.
    pub fn arch_ram_ranges(&self, mem_size: u64) -> (ranges: Vec<RamRange>)
        requires
            self.wf(),
            self.fits(mem_size),
        ensures
            ranges@ == self.ram_ranges(mem_size),
    {
        let mut ranges: Vec<RamRange> = Vec::new();
        match self.gap {
            None => {
                ranges.push((self.ram_base, mem_size));
            },
            Some(gap) => {
                let capacity = gap.start - self.ram_base;
                if mem_size > capacity {
                    ranges.push((self.ram_base, capacity));
                    ranges.push((gap.end, mem_size - capacity));
                } else {
                    ranges.push((self.ram_base, mem_size));
                }
            },
        }
        assert(ranges@ =~= self.ram_ranges(mem_size));
        ranges
    }
}

/// The sum of the lengths of RAM ranges.
pub open spec fn total_size(ranges: Seq<RamRange>) -> int
    decreases ranges.len(),
{
    if ranges.len() == 0 {
        0
    } else {
        total_size(ranges.drop_last()) + ranges.last().1
    }
}

/// The layout of guest RAM.
///
/// On every well-formed platform the ranges of RAM start at or above the
/// base, ascend without overlapping, end inside the address space, leave
/// the reserved gap free, and their lengths sum to the memory size.
pub proof fn lemma_ram_layout(profile: PlatformProfile, mem_size: u64)
    requires
        profile.wf(),
        profile.fits(mem_size),
    ensures
        ({
            let ranges = profile.ram_ranges(mem_size);
            &&& 1 <= ranges.len() <= 2
            &&& total_size(ranges) == mem_size
            &&& forall|i: int|
                0 <= i < ranges.len() ==> profile.ram_base <= (#[trigger] ranges[i]).0
                    && ranges[i].0 + ranges[i].1 <= u64::MAX
            &&& forall|i: int, j: int|
                0 <= i < j < ranges.len() ==> (#[trigger] ranges[i]).0 + ranges[i].1 <= (
                #[trigger] ranges[j]).0
            &&& profile.gap matches Some(gap) ==> forall|i: int|
                0 <= i < ranges.len() ==> (#[trigger] ranges[i]).0 + ranges[i].1 <= gap.start
                    || gap.end <= ranges[i].0
        }),
{
    let ranges = profile.ram_ranges(mem_size);
    if ranges.len() == 1 {
        assert(ranges.drop_last() =~= Seq::<RamRange>::empty());
        assert(total_size(ranges) == total_size(ranges.drop_last()) + ranges[0].1);
    } else {
        let head = ranges.drop_last();
        assert(head =~= seq![ranges[0]]);
        assert(head.drop_last() =~= Seq::<RamRange>::empty());
        assert(total_size(head) == total_size(head.drop_last()) + head[0].1);
        assert(total_size(ranges) == total_size(head) + ranges[1].1);
    }
}

/// Two ranges share no address.
pub open spec fn apart(a: RamRange, b: RamRange) -> bool {
    a.0 + a.1 <= b.0 || b.0 + b.1 <= a.0
}

/// Every range ends inside the address space, and no two ranges of
/// different position share an address.
pub open spec fn non_overlapping(regions: Seq<RamRange>) -> bool {
    &&& forall|i: int| 0 <= i < regions.len() ==> (#[trigger] regions[i]).0 + regions[i].1 <= u64::MAX
    &&& forall|i: int, j: int|
        0 <= i < regions.len() && 0 <= j < regions.len() && i != j ==> apart(
            #[trigger] regions[i],
            #[trigger] regions[j],
        )
}

/// Whether a region can join others: it ends inside the address space and
/// shares no address with any of them.
pub open spec fn admits(regions: Seq<RamRange>, region: RamRange) -> bool {
    &&& region.0 + region.1 <= u64::MAX
    &&& forall|i: int| 0 <= i < regions.len() ==> apart(#[trigger] regions[i], region)
}

/// The RAM of a guest in its physical address space.
///
/// Regions are added and never removed, and no two of them overlap.
#[derive(Debug, PartialEq, Eq)]
pub struct GuestAddressSpace {
    regions: Vec<RamRange>,
}

impl View for GuestAddressSpace {
    type V = Seq<RamRange>;

    closed spec fn view(&self) -> Seq<RamRange> {
        self.regions@
    }
}

impl GuestAddressSpace {
    #[verifier::type_invariant]
    spec fn inv(self) -> bool {
        non_overlapping(self@)
    }

    /// An address space without RAM.
    pub fn new() -> (space: GuestAddressSpace)
        ensures
            space@ == Seq::<RamRange>::empty(),
    {
        GuestAddressSpace { regions: Vec::new() }
    }

    /// The regions, in the order in which they were added.
    pub fn regions(&self) -> (regions: &Vec<RamRange>)
        ensures
            regions@ == self@,
            non_overlapping(self@),
    {
        proof {
            use_type_invariant(self);
        }
        &self.regions
    }

    /// Adds a region of `size` bytes at `base`. A region that leaves the
    /// address space or overlaps one that is there is refused, and the
    /// address space stays as it was.
    pub fn add_subregion(&mut self, base: u64, size: u64) -> (r: Result<
        (),
        crate::error::MachineError,
    >)
        ensures
            non_overlapping(final(self)@),
            admits(old(self)@, (base, size)) ==> r is Ok && final(self)@ == old(self)@.push(
                (base, size),
            ),
            !admits(old(self)@, (base, size)) ==> r is Err && r->Err_0@
                == crate::error::MachineErrorView::RegMemRegionErr(base, size) && final(self)@
                == old(self)@,
    {
        proof {
            use_type_invariant(&*self);
        }
        if size > u64::MAX - base {
            return Err(crate::error::MachineError::RegMemRegionErr(base, size));
        }
        let end = base + size;
        let mut regions: Vec<RamRange> = Vec::new();
        let mut i: usize = 0;
        while i < self.regions.len()
            invariant
                i <= self.regions@.len(),
                end == base + size,
                self.regions@ == old(self).regions@,
                regions@ == self.regions@.take(i as int),
                forall|k: int| 0 <= k < i ==> apart(#[trigger] self.regions@[k], (base, size)),
                non_overlapping(self.regions@),
            decreases self.regions@.len() - i,
        {
            let other = self.regions[i];
            if !(other.0 + other.1 <= base || end <= other.0) {
                assert(!apart(self.regions@[i as int], (base, size)));
                return Err(crate::error::MachineError::RegMemRegionErr(base, size));
            }
            regions.push(other);
            assert(regions@ =~= self.regions@.take(i + 1));
            i = i + 1;
        }
        let ghost before = self.regions@;
        assert(regions@ =~= before);
        regions.push((base, size));
        assert(non_overlapping(regions@)) by {
            let after = regions@;
            assert forall|a: int, b: int|
                0 <= a < after.len() && 0 <= b < after.len() && a != b implies apart(
                #[trigger] after[a],
                #[trigger] after[b],
            ) by {
                if a < before.len() && b < before.len() {
                    assert(after[a] == before[a] && after[b] == before[b]);
                } else if a < before.len() {
                    assert(apart(before[a], (base, size)));
                } else {
                    assert(apart(before[b], (base, size)));
                }
            }
            assert forall|a: int| 0 <= a < after.len() implies (#[trigger] after[a]).0 + after[a].1
                <= u64::MAX by {
                if a < before.len() {
                    assert(after[a] == before[a]);
                }
            }
        }
        self.regions = regions;
        Ok(())
    }
}

/// The RAM ranges of a platform can share one address space.
pub proof fn lemma_ram_is_non_overlapping(profile: PlatformProfile, mem_size: u64)
    requires
        profile.wf(),
        profile.fits(mem_size),
    ensures
        non_overlapping(profile.ram_ranges(mem_size)),
{
    lemma_ram_layout(profile, mem_size);
}

/// Lays out the guest RAM of a machine with `mem_size` bytes: the address
/// space that holds exactly the platform's RAM ranges.
pub fn guest_ram(profile: &PlatformProfile, mem_size: u64) -> (space: GuestAddressSpace)
    requires
        profile.wf(),
        profile.fits(mem_size),
    ensures
        space@ == profile.ram_ranges(mem_size),
{
    let ranges = profile.arch_ram_ranges(mem_size);
    proof {
        lemma_ram_is_non_overlapping(*profile, mem_size);
    }
    GuestAddressSpace { regions: ranges }
}

/// One action per RAM range, to insert it at its base address.
pub open spec fn region_steps(ranges: Seq<RamRange>) -> Seq<Action> {
    Seq::new(ranges.len(), |i: int| Action::AddRamRegion { base: ranges[i].0, size: ranges[i].1 })
}

/// The actions that come before any RAM is mapped: the hypervisor's
/// listeners, so that they observe every region that is added later.
pub open spec fn listener_steps(io_space: bool) -> Seq<Action> {
    if io_space {
        seq![Action::RegisterMemoryListener, Action::RegisterIoListener]
    } else {
        seq![Action::RegisterMemoryListener]
    }
}

/// What building the address space asks of the host, in order: the
/// listeners; unless the machine is the target of a migration, the mapping
/// of host memory and one region per RAM range; and last the registration
/// of the address space for migration.
pub open spec fn memory_plan(ranges: Seq<RamRange>, io_space: bool, is_migrate: bool) -> Seq<Action> {
    if is_migrate {
        listener_steps(io_space) + seq![Action::RegisterMemoryInstance]
    } else {
        listener_steps(io_space) + seq![Action::MapGuestRam] + region_steps(ranges)
            + seq![Action::RegisterMemoryInstance]
    }
}

/// The address space is registered for migration last, and only once.
pub proof fn lemma_registration_is_last(ranges: Seq<RamRange>, io_space: bool, is_migrate: bool)
    ensures
        ({
            let plan = memory_plan(ranges, io_space, is_migrate);
            &&& plan.len() >= 2
            &&& plan[0] == Action::RegisterMemoryListener
            &&& plan.last() == Action::RegisterMemoryInstance
            &&& forall|i: int|
                0 <= i < plan.len() - 1 ==> #[trigger] plan[i] != Action::RegisterMemoryInstance
            &&& forall|i: int|
                0 <= i < plan.len() && (#[trigger] plan[i] is AddRamRegion || plan[i]
                    == Action::MapGuestRam) ==> i >= listener_steps(io_space).len()
        }),
{
}

/// Building the address space is all or nothing for migration.
///
/// Whatever the host reports: if building the address space failed, the
/// address space was not registered for migration; and if it was
/// registered, every action before the registration had succeeded.
pub proof fn lemma_memory_all_or_nothing(
    ranges: Seq<RamRange>,
    io_space: bool,
    is_migrate: bool,
    reports: Seq<bool>,
)
    ensures
        ({
            let plan = memory_plan(ranges, io_space, is_migrate);
            let end = PipelineView::start(plan, None).run(reports);
            &&& end.failed ==> !end.issued().contains(Action::RegisterMemoryInstance)
            &&& end.issued().contains(Action::RegisterMemoryInstance) ==> end.result() == Some(
                Ok::<(), crate::error::MachineErrorView>(()),
            ) && end.performed() == plan
        }),
{
    let plan = memory_plan(ranges, io_space, is_migrate);
    let fresh = PipelineView::start(plan, None);
    let end = fresh.run(reports);
    lemma_registration_is_last(ranges, io_space, is_migrate);
    lemma_run_keeps_plan(fresh, reports);
    if end.issued().contains(Action::RegisterMemoryInstance) {
        let at = choose|i: int|
            0 <= i < end.issued().len() && end.issued()[i] == Action::RegisterMemoryInstance;
        assert(end.issued()[at] == plan[at]);
        assert(at == plan.len() - 1);
        if end.failed {
            assert(plan[end.done as int].failure() is Some);
        }
        assert(end.performed() =~= plan);
    }
}

/// Appends one action per RAM range to a plan.
fn push_regions(steps: &mut Vec<Action>, ranges: &Vec<RamRange>)
    requires
        old(steps)@.len() + ranges@.len() <= usize::MAX,
    ensures
        final(steps)@ == old(steps)@ + region_steps(ranges@),
{
    let ghost before = steps@;
    let mut i: usize = 0;
    assert(steps@ =~= before + region_steps(ranges@).take(0));
    while i < ranges.len()
        invariant
            i <= ranges@.len(),
            before.len() + ranges@.len() <= usize::MAX,
            steps@ == before + region_steps(ranges@).take(i as int),
        decreases ranges@.len() - i,
    {
        let range = ranges[i];
        steps.push(Action::AddRamRegion { base: range.0, size: range.1 });
        assert(steps@ =~= before + region_steps(ranges@).take(i + 1));
        i = i + 1;
    }
    assert(region_steps(ranges@).take(ranges@.len() as int) =~= region_steps(ranges@));
}

/// The RAM that building the address space maps: the platform's ranges, or
/// none for the target of a migration.
pub open spec fn mapped_ram(profile: PlatformProfile, mem_size: u64, is_migrate: bool) -> Seq<
    RamRange,
> {
    if is_migrate {
        Seq::<RamRange>::empty()
    } else {
        profile.ram_ranges(mem_size)
    }
}

/// Plans the construction of the guest address space for a machine with
/// `mem_size` bytes of RAM.
///
/// A machine that is the target of a migration (`is_migrate`) maps no RAM:
/// its memory arrives with the migration.
pub fn init_memory(profile: &PlatformProfile, mem_size: u64, is_migrate: bool) -> (pipeline:
    Pipeline)
    requires
        profile.wf(),
        !is_migrate ==> profile.fits(mem_size),
    ensures
        pipeline@ == PipelineView::start(
            memory_plan(mapped_ram(*profile, mem_size, is_migrate), profile.io_space, is_migrate),
            None,
        ),
{
    let mut steps: Vec<Action> = Vec::new();
    steps.push(Action::RegisterMemoryListener);
    if profile.io_space {
        steps.push(Action::RegisterIoListener);
    }
    assert(steps@ =~= listener_steps(profile.io_space));
    if !is_migrate {
        let ranges = profile.arch_ram_ranges(mem_size);
        steps.push(Action::MapGuestRam);
        push_regions(&mut steps, &ranges);
    }
    steps.push(Action::RegisterMemoryInstance);
    let pipeline = Pipeline::new(steps, None);
    assert(pipeline@.steps =~= memory_plan(
        mapped_ram(*profile, mem_size, is_migrate),
        profile.io_space,
        is_migrate,
    ));
    pipeline
}

} // verus!
