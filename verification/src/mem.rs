//! Memory bookkeeping: address alignment, physical frames handed out from the boot memory
//! map, and the size classes of the block allocator.
use vstd::prelude::*;

use crate::multiboot::MemoryEntry;

pub mod allocator;
pub mod phys;

verus! {

/// Size of a page and of a physical frame.
pub const PAGE_SIZE: u64 = 4096;

/// Whether `align` is a power of two.
pub open spec fn is_power_of_two(align: usize) -> bool {
    align > 0 && align & ((align - 1) as usize) == 0
}

/// A number whose bits below a power of two `a` are clear is a multiple of `a`.
proof fn lemma_mask_zero_is_multiple(r: u64, a: u64)
    requires
        a > 0,
        a & ((a - 1) as u64) == 0,
        r & ((a - 1) as u64) == 0,
    ensures
        r % a == 0,
    decreases a,
{
    if a > 1 {
        let h = (a / 2) as u64;
        let q = (r / 2) as u64;
        assert(a % 2 == 0 && h > 0 && h < a && h & ((h - 1) as u64) == 0 && r % 2 == 0 && q & ((h - 1) as u64) == 0
            && a == 2 * h && r == 2 * q) by (bit_vector)
            requires
                a > 1,
                a & ((a - 1) as u64) == 0,
                r & ((a - 1) as u64) == 0,
                h == a / 2,
                q == r / 2,
        ;
        lemma_mask_zero_is_multiple(q, h);
        let k = q / h;
        assert(q == k * h) by (nonlinear_arith)
            requires
                q % h == 0,
                h > 0,
                k == q / h,
        ;
        assert(r == k * a) by (nonlinear_arith)
            requires
                r == 2 * q,
                q == k * h,
                a == 2 * h,
        ;
        vstd::arithmetic::div_mod::lemma_mod_multiples_basic(k as int, a as int);
    }
}

/// Aligns `addr` upwards to `align`, a power of two: the result is aligned (its bits below
/// `align` are clear), at least `addr`, and less than `align` above it.
pub fn align_up(addr: usize, align: usize) -> (r: usize)
    requires
        is_power_of_two(align),
        addr + align - 1 <= usize::MAX,
    ensures
        r & ((align - 1) as usize) == 0,
        r % align == 0,
        addr <= r,
        r - addr < align,
{
    let m = align - 1;
    let x = addr + m;
    let r = x & !m;
    assert(r & m == 0 && x - r == x & m && x & m <= m && r <= x) by (bit_vector)
        requires
            r == x & !m,
    ;
    proof {
        lemma_mask_zero_is_multiple(r as u64, align as u64);
    }
    r
}

/// A physical frame, by number.
#[derive(Clone, Copy, Debug, PartialEq, Eq, Structural)]
pub struct Frame {
    pub number: u64,
}

impl Frame {
    /// The frame that holds address `address`.
    pub fn containing_address(address: u64) -> (r: Frame)
        ensures
            r.number == address / PAGE_SIZE,
    {
        Frame { number: address / PAGE_SIZE }
    }
}

/// Block sizes of the fixed-size block allocator, smallest first.
pub const BLOCK_SIZES: [usize; 9] = [8, 16, 32, 64, 128, 256, 512, 1024, 2048];

/// The size and alignment of an allocation request.
#[derive(Clone, Copy, Debug, PartialEq, Eq, Structural)]
pub struct Layout {
    pub size: usize,
    pub align: usize,
}

/// The block sizes, as a sequence.
pub open spec fn block_sizes() -> Seq<usize> {
    seq![8usize, 16, 32, 64, 128, 256, 512, 1024, 2048]
}

/// The block size that `layout` needs: the larger of its size and its alignment.
pub open spec fn required_block_size(layout: Layout) -> usize {
    if layout.size >= layout.align {
        layout.size
    } else {
        layout.align
    }
}

/// Chooses the block size class for `layout`: the index of the smallest block that is at
/// least as large as both its size and its alignment, or `None` when every block is too
/// small.
pub fn layout_to_size_index(layout: &Layout) -> (r: Option<usize>)
    ensures
        r matches Some(i) ==> i < 9 && block_sizes()[i as int] >= required_block_size(*layout)
            && forall|j: int| 0 <= j < i ==> block_sizes()[j] < required_block_size(*layout),
        r is None ==> forall|j: int| 0 <= j < 9 ==> block_sizes()[j] < required_block_size(*layout),
{
    let required = if layout.size >= layout.align { layout.size } else { layout.align };
    let sizes = BLOCK_SIZES;
    assert(sizes@ =~= block_sizes());
    let mut i: usize = 0;
    while i < 9
        invariant
            i <= 9,
            sizes@ == block_sizes(),
            forall|j: int| 0 <= j < i ==> block_sizes()[j] < required,
            required == required_block_size(*layout),
        decreases 9 - i,
    {
        if sizes[i] >= required {
            assert(sizes@[i as int] == block_sizes()[i as int]);
            return Some(i);
        }
        i = i + 1;
    }
    None
}

/// The first frame of a memory area.
pub open spec fn area_start_frame(a: MemoryEntry) -> int {
    (a.base_addr as int) / (PAGE_SIZE as int)
}

/// The last frame of a memory area.
pub open spec fn area_last_frame(a: MemoryEntry) -> int {
    (a.base_addr + a.length - 1) / (PAGE_SIZE as int)
}

/// Whether the area's end can be computed without overflow.
pub open spec fn area_ok(a: MemoryEntry) -> bool {
    a.length >= 1 && a.base_addr + a.length - 1 <= u64::MAX
}

/// Whether frame `f` lies in one of the areas.
pub open spec fn in_some_area(areas: Seq<MemoryEntry>, f: int) -> bool {
    exists|i: int| 0 <= i < areas.len() && area_start_frame(#[trigger] areas[i]) <= f <= area_last_frame(areas[i])
}

/// Hands out the physical frames of the usable memory areas in increasing order, skipping
/// the frames that hold the kernel and the boot information.
pub struct AreaFrameAllocator {
    pub next_free_frame: Frame,
    pub current_area: Option<MemoryEntry>,
    pub areas: Vec<MemoryEntry>,
    pub kernel_start: Frame,
    pub kernel_end: Frame,
    pub multiboot_start: Frame,
    pub multiboot_end: Frame,
}

impl AreaFrameAllocator {
    /// Whether frame `f` holds the kernel or the boot information.
    pub open spec fn reserved(&self, f: int) -> bool {
        (self.kernel_start.number <= f <= self.kernel_end.number) || (self.multiboot_start.number
            <= f <= self.multiboot_end.number)
    }

    /// Whether frame `f` may be handed out.
    pub open spec fn usable(&self, f: int) -> bool {
        in_some_area(self.areas@, f) && !self.reserved(f)
    }

    /// Invariant: the areas are well formed, and the current area is one of them that starts
    /// at or before the next free frame; without a current area no area reaches the next
    /// free frame.
    pub open spec fn wf(&self) -> bool {
        &&& forall|i: int| 0 <= i < self.areas@.len() ==> area_ok(#[trigger] self.areas@[i])
        &&& self.kernel_end.number < u64::MAX
        &&& self.multiboot_end.number < u64::MAX
        &&& match self.current_area {
            Some(a) => {
                &&& exists|i: int| 0 <= i < self.areas@.len() && self.areas@[i] == a
                &&& area_ok(a)
                &&& area_start_frame(a) <= self.next_free_frame.number
            },
            None => forall|i: int|
                0 <= i < self.areas@.len() ==> area_last_frame(#[trigger] self.areas@[i])
                    < self.next_free_frame.number,
        }
    }

    /// Makes the current area the one with the lowest base address among those that reach
    /// the next free frame, and moves the next free frame up to its start.
    fn choose_next_area(&mut self)
        requires
            forall|i: int| 0 <= i < old(self).areas@.len() ==> area_ok(#[trigger] old(self).areas@[i]),
            old(self).kernel_end.number < u64::MAX,
            old(self).multiboot_end.number < u64::MAX,
        ensures
            final(self).wf(),
            final(self).areas@ == old(self).areas@,
            final(self).kernel_start == old(self).kernel_start,
            final(self).kernel_end == old(self).kernel_end,
            final(self).multiboot_start == old(self).multiboot_start,
            final(self).multiboot_end == old(self).multiboot_end,
            final(self).next_free_frame.number >= old(self).next_free_frame.number,
            forall|f: int|
                old(self).next_free_frame.number <= f < final(self).next_free_frame.number
                    ==> !in_some_area(old(self).areas@, f),
            final(self).current_area matches Some(a) ==> area_last_frame(a)
                >= final(self).next_free_frame.number,
            final(self).current_area matches Some(a) ==> {
                &&& exists|b: int| {
                    &&& 0 <= b < old(self).areas@.len()
                    &&& #[trigger] old(self).areas@[b] == a
                    &&& forall|k: int| 0 <= k < b && area_last_frame(#[trigger] old(self).areas@[k]) >= old(self).next_free_frame.number
                        ==> old(self).areas@[k].base_addr > a.base_addr
                }
                &&& forall|k: int| 0 <= k < old(self).areas@.len() && area_last_frame(#[trigger] old(self).areas@[k])
                    >= old(self).next_free_frame.number ==> old(self).areas@[k].base_addr >= a.base_addr
                &&& final(self).next_free_frame.number == (if area_start_frame(a) > old(self).next_free_frame.number {
                    area_start_frame(a)
                } else {
                    old(self).next_free_frame.number as int
                })
            },
            final(self).current_area is None ==> final(self).next_free_frame == old(self).next_free_frame,
    {
        let next = self.next_free_frame.number;
        let n = self.areas.len();
        let mut best: Option<usize> = None;
        let mut i: usize = 0;
        while i < n
            invariant
                n == self.areas@.len(),
                i <= n,
                next == self.next_free_frame.number,
                forall|k: int| 0 <= k < self.areas@.len() ==> area_ok(#[trigger] self.areas@[k]),
                best matches Some(b) ==> b < i && area_last_frame(self.areas@[b as int]) >= next
                    && (forall|k: int|
                    0 <= k < i && area_last_frame(#[trigger] self.areas@[k]) >= next ==> self.areas@[k].base_addr
                        >= self.areas@[b as int].base_addr)
                    && (forall|k: int|
                    0 <= k < b && area_last_frame(#[trigger] self.areas@[k]) >= next ==> self.areas@[k].base_addr
                        > self.areas@[b as int].base_addr),
                best is None ==> forall|k: int|
                    0 <= k < i ==> area_last_frame(#[trigger] self.areas@[k]) < next,
            decreases n - i,
        {
            let area = &self.areas[i];
            let address = area.base_addr + (area.length - 1);
            if Frame::containing_address(address).number >= next {
                match best {
                    Some(b) => {
                        if area.base_addr < self.areas[b].base_addr {
                            best = Some(i);
                        }
                    },
                    None => {
                        best = Some(i);
                    },
                }
            }
            i = i + 1;
        }
        match best {
            Some(b) => {
                let area = self.areas[b].clone();
                let start_frame = Frame::containing_address(area.base_addr);
                proof {
                    assert forall|f: int|
                        next <= f < start_frame.number implies !in_some_area(self.areas@, f) by {
                        if in_some_area(self.areas@, f) {
                            let k = choose|k: int|
                                0 <= k < self.areas@.len() && area_start_frame(#[trigger] self.areas@[k]) <= f
                                    <= area_last_frame(self.areas@[k]);
                            assert(self.areas@[k].base_addr >= area.base_addr);
                            vstd::arithmetic::div_mod::lemma_div_is_ordered(
                                area.base_addr as int,
                                self.areas@[k].base_addr as int,
                                4096,
                            );
                        }
                    }
                }
                if next < start_frame.number {
                    self.next_free_frame = start_frame;
                }
                self.current_area = Some(area);
            },
            None => {
                self.current_area = None;
            },
        }
    }

    /// Hands out the lowest usable frame at or after the next free frame, and moves past it;
    /// `None` when no usable frame is left.
    pub fn allocate_frame(&mut self) -> (r: Option<Frame>)
        requires
            old(self).wf(),
        ensures
            final(self).wf(),
            final(self).areas@ == old(self).areas@,
            final(self).kernel_start == old(self).kernel_start,
            final(self).kernel_end == old(self).kernel_end,
            final(self).multiboot_start == old(self).multiboot_start,
            final(self).multiboot_end == old(self).multiboot_end,
            r matches Some(fr) ==> {
                &&& old(self).usable(fr.number as int)
                &&& fr.number >= old(self).next_free_frame.number
                &&& forall|f: int| old(self).next_free_frame.number <= f < fr.number ==> !old(self).usable(f)
                &&& final(self).next_free_frame.number == fr.number + 1
            },
            r is None ==> forall|f: int| f >= old(self).next_free_frame.number ==> !old(self).usable(f),
    {
        let ghost start = self.next_free_frame.number;
        loop
            invariant
                self.wf(),
                self.areas@ == old(self).areas@,
                self.kernel_start == old(self).kernel_start,
                self.kernel_end == old(self).kernel_end,
                self.multiboot_start == old(self).multiboot_start,
                self.multiboot_end == old(self).multiboot_end,
                start == old(self).next_free_frame.number,
                self.next_free_frame.number >= start,
                forall|f: int| start <= f < self.next_free_frame.number ==> !old(self).usable(f),
            decreases (0x1_0000_0000_0000_0000 - self.next_free_frame.number) * 2 + (match self.current_area {
                Some(a) => if self.next_free_frame.number > area_last_frame(a) { 1int } else { 0int },
                None => 0int,
            }),
        {
            let area = match &self.current_area {
                Some(a) => a.clone(),
                None => {
                    return None;
                },
            };
            let frame = Frame { number: self.next_free_frame.number };
            let current_area_last_frame = Frame::containing_address(area.base_addr + (area.length - 1));
            if frame.number > current_area_last_frame.number {
                self.choose_next_area();
            } else if frame.number >= self.kernel_start.number && frame.number <= self.kernel_end.number {
                self.next_free_frame = Frame { number: self.kernel_end.number + 1 };
            } else if frame.number >= self.multiboot_start.number && frame.number <= self.multiboot_end.number {
                self.next_free_frame = Frame { number: self.multiboot_end.number + 1 };
            } else {
                self.next_free_frame.number = self.next_free_frame.number + 1;
                return Some(frame);
            }
        }
    }

    /// A frame allocator over `memory_areas` that skips the kernel, which occupies the bytes
    /// from `k_start` to `k_end`, and the boot information, from `multiboot_start` to
    /// `multiboot_end`.
    pub fn new(
        k_start: u64,
        k_end: u64,
        multiboot_start: u64,
        multiboot_end: u64,
        memory_areas: Vec<MemoryEntry>,
    ) -> (r: AreaFrameAllocator)
        requires
            forall|i: int| 0 <= i < memory_areas@.len() ==> area_ok(#[trigger] memory_areas@[i]),
        ensures
            r.wf(),
            r.areas@ == memory_areas@,
            r.kernel_start.number == k_start / PAGE_SIZE,
            r.kernel_end.number == k_end / PAGE_SIZE,
            r.multiboot_start.number == multiboot_start / PAGE_SIZE,
            r.multiboot_end.number == multiboot_end / PAGE_SIZE,
            forall|f: int| 0 <= f < r.next_free_frame.number ==> !in_some_area(memory_areas@, f),
            r.current_area is None <==> memory_areas@.len() == 0,
            r.current_area is None ==> r.next_free_frame.number == 0,
            r.current_area matches Some(a) ==> {
                &&& exists|b: int| {
                    &&& 0 <= b < memory_areas@.len()
                    &&& #[trigger] memory_areas@[b] == a
                    &&& forall|k: int| 0 <= k < b ==> (#[trigger] memory_areas@[k]).base_addr > a.base_addr
                }
                &&& forall|k: int| 0 <= k < memory_areas@.len() ==> (#[trigger] memory_areas@[k]).base_addr >= a.base_addr
                &&& r.next_free_frame.number == area_start_frame(a)
            },
    {
        let mut allocator = AreaFrameAllocator {
            next_free_frame: Frame::containing_address(0),
            current_area: None,
            areas: memory_areas,
            kernel_start: Frame::containing_address(k_start),
            kernel_end: Frame::containing_address(k_end),
            multiboot_start: Frame::containing_address(multiboot_start),
            multiboot_end: Frame::containing_address(multiboot_end),
        };
        allocator.choose_next_area();
        proof {
            if allocator.areas@.len() > 0 {
                let a0 = allocator.areas@[0];
                assert(area_last_frame(a0) >= 0);
                assert(allocator.current_area is Some);
            }
        }
        allocator
    }
}

/// Why a page-table entry gives no frame.
#[derive(Clone, Copy, Debug, PartialEq, Eq, Structural)]
pub enum FrameError {
    /// The entry's present bit is clear.
    FrameNotPresent,
    /// The entry maps a huge page rather than a next-level table or a 4 KiB frame.
    HugeFrame,
}

/// Bits of a page-table entry that hold the frame's physical address.
pub const ENTRY_ADDRESS_MASK: u64 = 0x000f_ffff_ffff_f000;

/// The index into the page table of level `level` (4 down to 1) that virtual address
/// `addr` uses: 9 bits, from bit 39 for level 4 down to bit 12 for level 1.
pub open spec fn spec_table_index(addr: u64, level: int) -> u64 {
    (addr >> ((12 + 9 * (level - 1)) as u64)) & 0x1FF
}

/// Law: the level 4 table is indexed by address bits 39 to 47, level 3 by bits 30 to 38,
/// level 2 by bits 21 to 29 and level 1 by bits 12 to 20; each index is below 512.
pub proof fn lemma_table_index_levels(addr: u64)
    ensures
        spec_table_index(addr, 4) == (addr >> 39u64) & 0x1FF,
        spec_table_index(addr, 3) == (addr >> 30u64) & 0x1FF,
        spec_table_index(addr, 2) == (addr >> 21u64) & 0x1FF,
        spec_table_index(addr, 1) == (addr >> 12u64) & 0x1FF,
        forall|level: int| 1 <= level <= 4 ==> #[trigger] spec_table_index(addr, level) < 512,
{
    assert forall|level: int| 1 <= level <= 4 implies #[trigger] spec_table_index(addr, level) < 512 by {
        let sh = ((12 + 9 * (level - 1)) as u64);
        assert((addr >> sh) & 0x1FF < 512) by (bit_vector);
    }
}

/// The indexes into the level 4, 3, 2 and 1 tables that virtual address `addr` uses.
pub fn table_indexes(addr: u64) -> (r: [u16; 4])
    ensures
        r@[0] == spec_table_index(addr, 4),
        r@[1] == spec_table_index(addr, 3),
        r@[2] == spec_table_index(addr, 2),
        r@[3] == spec_table_index(addr, 1),
        r@[0] == (addr >> 39u64) & 0x1FF,
        r@[1] == (addr >> 30u64) & 0x1FF,
        r@[2] == (addr >> 21u64) & 0x1FF,
        r@[3] == (addr >> 12u64) & 0x1FF,
{
    let a = (addr >> 39u64) & 0x1FF;
    let b = (addr >> 30u64) & 0x1FF;
    let c = (addr >> 21u64) & 0x1FF;
    let d = (addr >> 12u64) & 0x1FF;
    assert(a < 512 && b < 512 && c < 512 && d < 512) by (bit_vector)
        requires
            a == (addr >> 39u64) & 0x1FF,
            b == (addr >> 30u64) & 0x1FF,
            c == (addr >> 21u64) & 0x1FF,
            d == (addr >> 12u64) & 0x1FF,
    ;
    [a as u16, b as u16, c as u16, d as u16]
}

/// The offset of virtual address `addr` within its 4 KiB page.
pub fn page_offset(addr: u64) -> (r: u16)
    ensures
        r == addr % 4096,
{
    let r = addr & 0xFFF;
    assert(addr & 0xFFF == addr % 4096) by (bit_vector);
    r as u16
}

/// The physical address of the frame that a page-table entry points to: none when it is not
/// present (bit 0 clear) or maps a huge page (bit 7 set).
pub fn entry_frame(entry: u64) -> (r: Result<u64, FrameError>)
    ensures
        entry & 1 == 0 ==> r == Err::<u64, FrameError>(FrameError::FrameNotPresent),
        entry & 1 != 0 && entry & 0x80 != 0 ==> r == Err::<u64, FrameError>(FrameError::HugeFrame),
        entry & 1 != 0 && entry & 0x80 == 0 ==> r == Ok::<u64, FrameError>(entry & ENTRY_ADDRESS_MASK),
{
    if entry & 1 == 0 {
        Err(FrameError::FrameNotPresent)
    } else if entry & 0x80 != 0 {
        Err(FrameError::HugeFrame)
    } else {
        Ok(entry & ENTRY_ADDRESS_MASK)
    }
}

/// The physical address of virtual address `addr` once the walk has reached its 4 KiB frame
/// at `frame_start`: the frame's start plus the offset within the page.
pub fn translated(frame_start: u64, addr: u64) -> (r: u64)
    requires
        frame_start + addr % 4096 <= u64::MAX,
    ensures
        r == frame_start + addr % 4096,
{
    frame_start + page_offset(addr) as u64
}


/// A region of physical memory as the boot loader's memory map reports it: the addresses
/// from `start_addr` up to `end_addr`, and whether the kernel may use them.
#[derive(Clone, Copy, Debug, PartialEq, Eq, Structural)]
pub struct MemoryRegion {
    pub start_addr: u64,
    pub end_addr: u64,
    pub usable: bool,
}

/// The addresses `a`, `a + 4096`, `a + 8192`, ... that lie below `end`.
pub open spec fn frames_from(a: int, end: int) -> Seq<u64>
    decreases (if a < end { end - a } else { 0 }),
{
    if a < end {
        seq![a as u64] + frames_from(a + PAGE_SIZE, end)
    } else {
        Seq::empty()
    }
}

/// The frame addresses that region `r` offers: every 4096th address of it from its start,
/// none when it is not usable.
pub open spec fn region_frames(r: MemoryRegion) -> Seq<u64> {
    if r.usable {
        frames_from(r.start_addr as int, r.end_addr as int)
    } else {
        Seq::empty()
    }
}

/// The frame addresses of the usable regions of `rs`, region by region in map order.
pub open spec fn usable_frames(rs: Seq<MemoryRegion>) -> Seq<u64>
    decreases rs.len(),
{
    if rs.len() == 0 {
        Seq::empty()
    } else {
        region_frames(rs[0]) + usable_frames(rs.drop_first())
    }
}

proof fn lemma_frames_from_bounds(a: int, end: int)
    requires
        0 <= a,
        end <= u64::MAX + 1,
    ensures
        forall|i: int| 0 <= i < frames_from(a, end).len() ==> a <= #[trigger] frames_from(a, end)[i] < end,
    decreases (if a < end { end - a } else { 0 }),
{
    if a < end {
        lemma_frames_from_bounds(a + PAGE_SIZE, end);
        assert forall|i: int| 0 <= i < frames_from(a, end).len() implies a <= #[trigger] frames_from(a, end)[i] < end by {
            if i > 0 {
                assert(frames_from(a, end)[i] == frames_from(a + PAGE_SIZE, end)[i - 1]);
            } else {
                assert(frames_from(a, end)[0] == a as u64);
            }
        }
    }
}

/// A frame address that the allocator hands out lies in a usable region of the map: every
/// address of `usable_frames(rs)` is inside some region of `rs` that is marked usable.
#[verifier::spinoff_prover]
pub proof fn lemma_usable_frames_are_usable(rs: Seq<MemoryRegion>)
    ensures
        forall|i: int|
            0 <= i < usable_frames(rs).len() ==> exists|j: int|
                0 <= j < rs.len() && rs[j].usable && rs[j].start_addr <= #[trigger] usable_frames(rs)[i]
                    < rs[j].end_addr,
    decreases rs.len(),
{
    if rs.len() > 0 {
        let rest = rs.drop_first();
        lemma_usable_frames_are_usable(rest);
        lemma_frames_from_bounds(rs[0].start_addr as int, rs[0].end_addr as int);
        let head = region_frames(rs[0]);
        assert forall|i: int| 0 <= i < usable_frames(rs).len() implies exists|j: int|
            0 <= j < rs.len() && rs[j].usable && rs[j].start_addr <= #[trigger] usable_frames(rs)[i]
                < rs[j].end_addr by {
            if i < head.len() {
                assert(usable_frames(rs)[i] == head[i]);
                assert(rs[0].usable);
                assert(rs[0].start_addr <= usable_frames(rs)[i] < rs[0].end_addr);
            } else {
                let k = i - head.len();
                assert(usable_frames(rs)[i] == usable_frames(rest)[k]);
                let j = choose|j: int|
                    0 <= j < rest.len() && rest[j].usable && rest[j].start_addr <= #[trigger] usable_frames(rest)[k]
                        < rest[j].end_addr;
                assert(rs[j + 1] == rest[j]);
                assert(0 <= j + 1 < rs.len() && rs[j + 1].usable && rs[j + 1].start_addr <= usable_frames(rs)[i]
                    < rs[j + 1].end_addr);
            }
        }
    } else {
        assert(usable_frames(rs).len() == 0);
    }
}

/// The most regions that the boot loader's memory map holds.
pub const MAX_MEMORY_MAP_SIZE: usize = 64;

/// Hands out the frames of the usable regions of the boot loader's memory map, in order.
/// The map is held as the boot loader gives it, a fixed array and the number of its entries
/// in use, so that no heap is needed to make the allocator.
pub struct BootInfoFrameAllocator {
    regions: [MemoryRegion; 64],
    count: usize,
    /// The region that frames are taken from now.
    region: usize,
    /// The next address to hand out in that region.
    next_addr: u64,
}

proof fn lemma_usable_frames_step(rs: Seq<MemoryRegion>, k: int)
    requires
        0 <= k < rs.len(),
    ensures
        usable_frames(rs.subrange(k, rs.len() as int)) == region_frames(rs[k]) + usable_frames(
            rs.subrange(k + 1, rs.len() as int),
        ),
{
    let s = rs.subrange(k, rs.len() as int);
    assert(s.drop_first() =~= rs.subrange(k + 1, rs.len() as int));
    assert(s[0] == rs[k]);
}

impl BootInfoFrameAllocator {
    #[verifier::type_invariant]
    closed spec fn inv(&self) -> bool {
        self.count <= MAX_MEMORY_MAP_SIZE
    }

    /// The regions of the map.
    pub closed spec fn map(&self) -> Seq<MemoryRegion> {
        self.regions@.take(self.count as int)
    }

    /// The frame addresses still to be handed out, in the order they come.
    pub closed spec fn remaining(&self) -> Seq<u64> {
        if self.region < self.count {
            let r = self.map()[self.region as int];
            (if r.usable {
                frames_from(self.next_addr as int, r.end_addr as int)
            } else {
                Seq::empty()
            }) + usable_frames(self.map().subrange(self.region + 1, self.count as int))
        } else {
            Seq::empty()
        }
    }

    /// An allocator over the first `count` entries of `regions`: it hands out every 4096th
    /// address of each usable region, from the region's start, region by region.
    pub fn init(regions: [MemoryRegion; 64], count: usize) -> (r: BootInfoFrameAllocator)
        requires
            count <= MAX_MEMORY_MAP_SIZE,
        ensures
            r.remaining() == usable_frames(regions@.take(count as int)),
    {
        let next_addr = if count > 0 {
            regions[0].start_addr
        } else {
            0
        };
        let r = BootInfoFrameAllocator { regions, count, region: 0, next_addr };
        proof {
            if count > 0 {
                lemma_usable_frames_step(r.map(), 0);
                assert(r.map().subrange(0, count as int) =~= r.map());
            }
        }
        r
    }

    /// The frame of the next address to hand out, and the allocator moves past it; `None`
    /// once every usable frame has been handed out.
    pub fn allocate_frame(&mut self) -> (r: Option<Frame>)
        ensures
            old(self).remaining().len() == 0 ==> r is None && final(self).remaining() == old(self).remaining(),
            old(self).remaining().len() > 0 ==> r == Some(Frame { number: (old(self).remaining()[0] / PAGE_SIZE) as u64 })
                && final(self).remaining() == old(self).remaining().drop_first(),
    {
        loop
            invariant
                self.remaining() == old(self).remaining(),
            decreases self.count - self.region,
        {
            proof {
                use_type_invariant(&*self);
            }
            if self.region >= self.count {
                return None;
            }
            let r = self.regions[self.region];
            assert(r == self.map()[self.region as int]);
            if r.usable && self.next_addr < r.end_addr {
                let a = self.next_addr;
                assert(frames_from(a as int, r.end_addr as int) == seq![a] + frames_from(a + PAGE_SIZE, r.end_addr as int));
                self.next_addr = match a.checked_add(PAGE_SIZE) {
                    Some(n) => n,
                    None => r.end_addr,
                };
                assert(frames_from(self.next_addr as int, r.end_addr as int) == frames_from(a + PAGE_SIZE, r.end_addr as int));
                assert(self.remaining() =~= old(self).remaining().drop_first());
                return Some(Frame::containing_address(a));
            }
            proof {
                if r.usable {
                    assert(frames_from(self.next_addr as int, r.end_addr as int) =~= Seq::<u64>::empty());
                }
            }
            self.region = self.region + 1;
            if self.region < self.count {
                self.next_addr = self.regions[self.region].start_addr;
                proof {
                    lemma_usable_frames_step(self.map(), self.region as int);
                }
            }
        }
    }
}

} // verus!
