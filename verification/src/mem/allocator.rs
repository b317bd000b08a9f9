//! The fixed-size block allocator: requests up to 2048 bytes are served from lists of free
//! blocks, one list per block size; larger requests, and sizes whose list is empty, go to the
//! general-purpose heap behind it.
use vstd::prelude::*;

use crate::mem::{block_sizes, layout_to_size_index, required_block_size, Layout, BLOCK_SIZES};

verus! {

/// Alignment of a free-list node, which a freed block holds.
pub const LIST_NODE_ALIGN: usize = 8;

/// Whether `i` is the size class of `layout`: the smallest block size that fits it.
pub open spec fn is_size_class(layout: Layout, i: int) -> bool {
    &&& 0 <= i < 9
    &&& block_sizes()[i] >= required_block_size(layout)
    &&& forall|j: int| 0 <= j < i ==> block_sizes()[j] < required_block_size(layout)
}

/// Whether no block size fits `layout`.
pub open spec fn too_large(layout: Layout) -> bool {
    forall|j: int| 0 <= j < 9 ==> block_sizes()[j] < required_block_size(layout)
}

/// The free lists after block `addr` is put on list `i`: it becomes that list's head.
pub open spec fn freed(lists: Seq<Seq<usize>>, i: int, addr: usize) -> Seq<Seq<usize>> {
    lists.update(i, lists[i].push(addr))
}

/// The free lists after the head of list `i` is taken.
pub open spec fn taken(lists: Seq<Seq<usize>>, i: int) -> Seq<Seq<usize>> {
    lists.update(i, lists[i].drop_last())
}

/// Where an allocation is served from.
#[derive(Clone, Copy, Debug, PartialEq, Eq, Structural)]
pub enum AllocStep {
    /// The free block at this address.
    Block(usize),
    /// The heap behind, asked for this layout.
    Fallback(Layout),
}

/// The free lists, one per block size; the head of each list is its last element.
pub struct FixedSizeBlockAllocator {
    pub list_heads: Vec<Vec<usize>>,
}

impl FixedSizeBlockAllocator {
    /// The free blocks of each list, heads last.
    pub open spec fn lists(&self) -> Seq<Seq<usize>> {
        self.list_heads@.map_values(|l: Vec<usize>| l@)
    }

    /// The invariant: one list per block size.
    pub open spec fn wf(&self) -> bool {
        self.list_heads@.len() == 9
    }

    /// An allocator with every list empty.
    pub fn new() -> (r: FixedSizeBlockAllocator)
        ensures
            r.wf(),
            forall|i: int| 0 <= i < 9 ==> r.lists()[i] == Seq::<usize>::empty(),
    {
        let mut list_heads: Vec<Vec<usize>> = Vec::new();
        let mut i: usize = 0;
        while i < 9
            invariant
                i <= 9,
                list_heads@.len() == i,
                forall|j: int| 0 <= j < i ==> list_heads@[j]@ == Seq::<usize>::empty(),
            decreases 9 - i,
        {
            list_heads.push(Vec::new());
            i = i + 1;
        }
        FixedSizeBlockAllocator { list_heads }
    }

    /// Serves `layout`: from the head of its size class's list when that list has a block;
    /// from the heap, for a whole block of the class, when it has none; from the heap, as
    /// asked, when no block size fits.
    pub fn allocate(&mut self, layout: &Layout) -> (r: AllocStep)
        requires
            old(self).wf(),
        ensures
            final(self).wf(),
            too_large(*layout) ==> r == AllocStep::Fallback(*layout) && final(self).lists() == old(self).lists(),
            forall|i: int|
                #[trigger] is_size_class(*layout, i) ==> if old(self).lists()[i].len() > 0 {
                    r == AllocStep::Block(old(self).lists()[i].last()) && final(self).lists() == taken(
                        old(self).lists(),
                        i,
                    )
                } else {
                    r == AllocStep::Fallback(Layout { size: block_sizes()[i], align: block_sizes()[i] })
                        && final(self).lists() == old(self).lists()
                },
    {
        let index = match layout_to_size_index(layout) {
            None => {
                return AllocStep::Fallback(*layout);
            },
            Some(i) => i,
        };
        let ghost before = self.lists();
        let mut list = self.list_heads.remove(index);
        match list.pop() {
            Some(addr) => {
                self.list_heads.insert(index, list);
                assert(self.lists() =~= taken(before, index as int));
                AllocStep::Block(addr)
            },
            None => {
                self.list_heads.insert(index, list);
                assert(self.lists() =~= before);
                let sizes = BLOCK_SIZES;
                assert(sizes@ =~= block_sizes());
                let block_size = sizes[index];
                AllocStep::Fallback(Layout { size: block_size, align: block_size })
            },
        }
    }

    /// Takes back the block at `addr`, allocated for `layout`: it becomes the head of its size
    /// class's list. Says false, changing nothing, when no block size fits `layout`: such a
    /// block goes back to the heap.
    pub fn deallocate(&mut self, addr: usize, layout: &Layout) -> (r: bool)
        requires
            old(self).wf(),
            !too_large(*layout) ==> addr % LIST_NODE_ALIGN == 0,
        ensures
            final(self).wf(),
            too_large(*layout) ==> !r && final(self).lists() == old(self).lists(),
            forall|i: int|
                #[trigger] is_size_class(*layout, i) ==> r && final(self).lists() == freed(
                    old(self).lists(),
                    i,
                    addr,
                ),
    {
        let index = match layout_to_size_index(layout) {
            None => {
                return false;
            },
            Some(i) => i,
        };
        let ghost before = self.lists();
        let mut list = self.list_heads.remove(index);
        list.push(addr);
        self.list_heads.insert(index, list);
        assert(self.lists() =~= freed(before, index as int, addr));
        true
    }
}

/// A block freed and then asked for again with a layout of the same size class is the same
/// block, and the free lists are as they were before.
pub proof fn lemma_free_then_alloc(lists: Seq<Seq<usize>>, i: int, addr: usize)
    requires
        0 <= i < lists.len(),
    ensures
        freed(lists, i, addr)[i].len() > 0,
        freed(lists, i, addr)[i].last() == addr,
        taken(freed(lists, i, addr), i) == lists,
{
    assert(freed(lists, i, addr)[i].drop_last() =~= lists[i]);
    assert(taken(freed(lists, i, addr), i) =~= lists);
}

/// A layout has one size class at most.
pub proof fn lemma_size_class_unique(layout: Layout, i: int, j: int)
    requires
        is_size_class(layout, i),
        is_size_class(layout, j),
    ensures
        i == j,
{
}

} // verus!
