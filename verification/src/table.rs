//! The resource table: a single-ownership arena mapping guest-visible
//! integer handles to host objects, with parent links and a batched
//! multi-entry checkout.

use vstd::prelude::*;

use crate::context::{GraphicsContext, GraphicsContextBuffer};
use crate::error::GfxError;
use crate::frame_buffer::FrameBuffer;
use crate::gpu::{
    Adapter,
    CommandBuffer,
    CommandEncoderWithRenderPass,
    DeviceAndQueue,
    RenderPipeline,
    ShaderModule,
    SurfaceTexture,
    TextureView,
};
use crate::key_events::{KeyDownListener, KeyUpListener};

verus! {

/// `g` occurs among the first `k` elements of `handles`.
pub open spec fn among(handles: Seq<u32>, k: int, g: u32) -> bool {
    exists|j: int| 0 <= j < k && #[trigger] handles[j] == g
}

/// A host object a guest handle can refer to.
///
/// A tagged union in place of unconstrained type erasure: resolving a handle
/// against the wrong kind is a checked failure, not undefined downcasting.
pub enum HostObject {
    GraphicsContext(GraphicsContext),
    ContextBuffer(GraphicsContextBuffer),
    FrameBuffer(FrameBuffer),
    Adapter(Adapter),
    DeviceAndQueue(DeviceAndQueue),
    ShaderModule(ShaderModule),
    RenderPipeline(RenderPipeline),
    CommandEncoder(CommandEncoderWithRenderPass),
    CommandBuffer(CommandBuffer),
    SurfaceTexture(SurfaceTexture),
    TextureView(TextureView),
    KeyUpListener(KeyUpListener),
    KeyDownListener(KeyDownListener),
}

impl HostObject {
    pub open spec fn wf(&self) -> bool {
        match *self {
            HostObject::GraphicsContext(c) => c.wf(),
            HostObject::ContextBuffer(b) => b.wf(),
            HostObject::FrameBuffer(fb) => fb.wf(),
            HostObject::Adapter(a) => a.wf(),
            _ => true,
        }
    }
}

/// One table slot: the stored object and an optional parent handle.
///
/// The parent link is ownership-irrelevant; it only lets capability lookups
/// reach, say, the adapter a device was derived from.
pub struct TableEntry {
    pub parent: Option<u32>,
    pub value: HostObject,
}

/// The arena. A handle is an index that is never reused: deleting leaves a
/// permanently empty slot, so stale handles keep failing with
/// `HandleNotFound`, and entries never move (no reallocation a self-
/// referential native object could observe).
pub struct ResourceTable {
    pub entries: Vec<Option<TableEntry>>,
}

impl ResourceTable {
    /// How much of the handle space has been issued.
    pub open spec fn spec_len(&self) -> nat {
        self.entries@.len()
    }

    /// The entry behind a handle, if the handle was issued and not deleted.
    pub open spec fn lookup(&self, h: u32) -> Option<TableEntry> {
        if h < self.entries@.len() {
            self.entries@[h as int]
        } else {
            None
        }
    }

    pub open spec fn contains(&self, h: u32) -> bool {
        self.lookup(h) is Some
    }

    /// Every stored object is well-formed.
    pub open spec fn wf(&self) -> bool {
        forall|h: u32| (#[trigger] self.lookup(h)) matches Some(e) ==> e.value.wf()
    }

    /// Every handle in the sequence resolves, and no handle repeats: the
    /// condition under which a batched checkout succeeds.
    pub open spec fn spec_resolvable(&self, handles: Seq<u32>) -> bool {
        &&& forall|i: int| 0 <= i < handles.len() ==> self.contains(#[trigger] handles[i])
        &&& forall|i: int, j: int|
            0 <= i < j < handles.len() ==> #[trigger] handles[i] != #[trigger] handles[j]
    }

    /// Well-formedness survives any change confined to one slot whose new
    /// occupant, if any, is itself well-formed.
    proof fn lemma_wf_one_slot(pre: ResourceTable, post: ResourceTable, h: u32)
        requires
            pre.wf(),
            forall|g: u32| g != h ==> post.lookup(g) == pre.lookup(g),
            post.lookup(h) matches Some(e) ==> e.value.wf(),
        ensures
            post.wf(),
    {
        assert forall|g: u32| ((#[trigger] post.lookup(g)) matches Some(e) ==> e.value.wf()) by {
            if g != h {
                assert(post.lookup(g) == pre.lookup(g));
                assert(pre.lookup(g) matches Some(e2) ==> e2.value.wf());
            }
        }
    }

    /// An empty table.
    pub fn new() -> (r: ResourceTable)
        ensures
            r.spec_len() == 0,
            r.wf(),
            forall|h: u32| r.lookup(h) is None,
    {
        ResourceTable { entries: Vec::new() }
    }

    /// Store an object with no parent link; the new handle is returned.
    pub fn push(&mut self, value: HostObject) -> (h: u32)
        requires
            old(self).spec_len() < u32::MAX,
        ensures
            h == old(self).spec_len(),
            !old(self).contains(h),
            final(self).spec_len() == old(self).spec_len() + 1,
            final(self).lookup(h) == Some((TableEntry { parent: None, value })),
            forall|g: u32| g != h ==> final(self).lookup(g) == old(self).lookup(g),
            old(self).wf() && value.wf() ==> final(self).wf(),
    {
        let h = self.entries.len() as u32;
        self.entries.push(Some(TableEntry { parent: None, value }));
        proof {
            if old(self).wf() && value.wf() {
                ResourceTable::lemma_wf_one_slot(*old(self), *self, h);
            }
        }
        h
    }

    /// Store an object as a child of `parent`; the new handle is returned.
    pub fn push_child(&mut self, value: HostObject, parent: u32) -> (h: u32)
        requires
            old(self).spec_len() < u32::MAX,
            old(self).contains(parent),
        ensures
            h == old(self).spec_len(),
            !old(self).contains(h),
            final(self).spec_len() == old(self).spec_len() + 1,
            final(self).lookup(h) == Some((TableEntry { parent: Some(parent), value })),
            forall|g: u32| g != h ==> final(self).lookup(g) == old(self).lookup(g),
            old(self).wf() && value.wf() ==> final(self).wf(),
    {
        let h = self.entries.len() as u32;
        self.entries.push(Some(TableEntry { parent: Some(parent), value }));
        proof {
            if old(self).wf() && value.wf() {
                ResourceTable::lemma_wf_one_slot(*old(self), *self, h);
            }
        }
        h
    }

    /// Borrow the entry behind a handle.
    pub fn get(&self, h: u32) -> (r: Option<&TableEntry>)
        ensures
            match r {
                Some(e) => self.lookup(h) == Some(*e),
                None => self.lookup(h) is None,
            },
    {
        if (h as usize) < self.entries.len() {
            self.entries[h as usize].as_ref()
        } else {
            None
        }
    }

    /// Take the entry behind a handle out of the table, leaving the slot
    /// empty. Yields `None` for a handle that does not resolve.
    pub fn remove(&mut self, h: u32) -> (r: Option<TableEntry>)
        ensures
            final(self).spec_len() == old(self).spec_len(),
            r == old(self).lookup(h),
            final(self).lookup(h) is None,
            forall|g: u32| g != h ==> final(self).lookup(g) == old(self).lookup(g),
            old(self).wf() ==> final(self).wf(),
            old(self).lookup(h) is None ==> *final(self) == *old(self),
    {
        if (h as usize) < self.entries.len() {
            if self.entries[h as usize].is_some() {
                let slot = &mut self.entries[h as usize];
                let r = slot.take();
                proof {
                    if old(self).wf() {
                        ResourceTable::lemma_wf_one_slot(*old(self), *self, h);
                    }
                }
                r
            } else {
                None
            }
        } else {
            None
        }
    }

    /// Put an entry back into the empty slot it was taken from.
    pub fn put(&mut self, h: u32, e: TableEntry)
        requires
            h < old(self).spec_len(),
            old(self).lookup(h) is None,
        ensures
            final(self).spec_len() == old(self).spec_len(),
            final(self).lookup(h) == Some(e),
            forall|g: u32| g != h ==> final(self).lookup(g) == old(self).lookup(g),
            old(self).wf() && e.value.wf() ==> final(self).wf(),
    {
        let slot = &mut self.entries[h as usize];
        *slot = Some(e);
        proof {
            if old(self).wf() && e.value.wf() {
                ResourceTable::lemma_wf_one_slot(*old(self), *self, h);
            }
        }
    }

    /// Check out the entries behind a batch of handles in one lookup, so the
    /// caller holds several entries of the table at once — the multi-borrow
    /// that single-entry access could never grant. The result pairs with the
    /// request position for position: exactly one entry per requested handle.
    ///
    /// Fails with `HandleNotFound`, leaving the table unchanged, when a
    /// handle does not resolve or repeats: a slot can be checked out only
    /// once per batch. `restore_entries` checks a batch back in.
    pub fn take_entries(&mut self, handles: &Vec<u32>) -> (r: Result<
        Vec<TableEntry>,
        GfxError,
    >)
        ensures
            final(self).spec_len() == old(self).spec_len(),
            old(self).wf() ==> final(self).wf(),
            match r {
                Ok(es) => {
                    &&& old(self).spec_resolvable(handles@)
                    &&& es@.len() == handles@.len()
                    &&& forall|i: int|
                        0 <= i < handles@.len() ==> old(self).lookup(
                            #[trigger] handles@[i],
                        ) == Some(es@[i])
                    &&& forall|i: int|
                        0 <= i < handles@.len() ==> final(self).lookup(
                            #[trigger] handles@[i],
                        ) is None
                    &&& forall|g: u32|
                        !handles@.contains(g) ==> final(self).lookup(g) == old(self).lookup(g)
                },
                Err(e) => {
                    &&& !old(self).spec_resolvable(handles@)
                    &&& e == GfxError::HandleNotFound
                    &&& *final(self) == *old(self)
                },
            },
    {
        let n = handles.len();
        let mut i: usize = 0;
        while i < n
            invariant
                i <= n,
                n == handles@.len(),
                forall|k: int| 0 <= k < i ==> self.contains(#[trigger] handles@[k]),
                forall|k: int, l: int|
                    0 <= k < l < i ==> #[trigger] handles@[k] != #[trigger] handles@[l],
            decreases n - i,
        {
            let h = handles[i];
            match self.get(h) {
                Some(_) => {},
                None => {
                    proof {
                        assert(!self.contains(handles@[i as int]));
                    }
                    return Err(GfxError::HandleNotFound);
                },
            }
            let mut j: usize = 0;
            while j < i
                invariant
                    j <= i < n,
                    n == handles@.len(),
                    h == handles@[i as int],
                    forall|k: int| 0 <= k < j ==> #[trigger] handles@[k] != handles@[i as int],
                decreases i - j,
            {
                if handles[j] == h {
                    return Err(GfxError::HandleNotFound);
                }
                j = j + 1;
            }
            i = i + 1;
        }
        let mut out: Vec<TableEntry> = Vec::new();
        let mut k: usize = 0;
        while k < n
            invariant
                k <= n,
                n == handles@.len(),
                out@.len() == k,
                old(self).spec_resolvable(handles@),
                self.spec_len() == old(self).spec_len(),
                old(self).wf() ==> self.wf(),
                forall|m: int|
                    0 <= m < k ==> old(self).lookup(#[trigger] handles@[m]) == Some(out@[m]),
                forall|m: int| 0 <= m < k ==> self.lookup(#[trigger] handles@[m]) is None,
                forall|g: u32|
                    !among(handles@, k as int, g) ==> self.lookup(g) == old(self).lookup(g),
            decreases n - k,
        {
            let h = handles[k];
            proof {
                assert(!among(handles@, k as int, handles@[k as int]));
                assert(self.lookup(h) == old(self).lookup(h));
            }
            let e = self.remove(h).unwrap();
            out.push(e);
            k = k + 1;
            proof {
                assert forall|g: u32|
                    !among(handles@, k as int, g) implies self.lookup(g) == old(self).lookup(
                    g,
                ) by {
                    assert(!among(handles@, k - 1, g));
                    assert(g != handles@[k - 1]);
                }
            }
        }
        proof {
            assert forall|g: u32| !handles@.contains(g) implies !among(
                handles@,
                n as int,
                g,
            ) by {
                if among(handles@, n as int, g) {
                    let j = choose|j: int| 0 <= j < n && handles@[j] == g;
                    assert(handles@.contains(g));
                }
            }
        }
        Ok(out)
    }

    /// Check a batch taken by `take_entries` back in: entry by entry, each
    /// into the slot its handle names.
    pub fn restore_entries(&mut self, handles: &Vec<u32>, entries: Vec<TableEntry>)
        requires
            handles@.len() == entries@.len(),
            forall|i: int, j: int|
                0 <= i < j < handles@.len() ==> #[trigger] handles@[i] != #[trigger] handles@[j],
            forall|i: int|
                0 <= i < handles@.len() ==> #[trigger] handles@[i] < old(self).spec_len()
                    && old(self).lookup(handles@[i]) is None,
        ensures
            final(self).spec_len() == old(self).spec_len(),
            forall|i: int|
                0 <= i < handles@.len() ==> final(self).lookup(#[trigger] handles@[i]) == Some(
                    entries@[i],
                ),
            forall|g: u32|
                !handles@.contains(g) ==> final(self).lookup(g) == old(self).lookup(g),
            old(self).wf() && (forall|i: int|
                0 <= i < entries@.len() ==> (#[trigger] entries@[i]).value.wf())
                ==> final(self).wf(),
    {
        let ghost entries0 = entries@;
        let ghost all_wf = old(self).wf() && (forall|i: int|
            0 <= i < entries0.len() ==> (#[trigger] entries0[i]).value.wf());
        let n = handles.len();
        let mut entries = entries;
        let mut k: usize = n;
        while k > 0
            invariant
                k <= n,
                n == handles@.len(),
                entries0.len() == n,
                entries@ == entries0.take(k as int),
                self.spec_len() == old(self).spec_len(),
                forall|i: int, j: int|
                    0 <= i < j < handles@.len() ==> #[trigger] handles@[i] != #[trigger] handles@[j],
                forall|i: int|
                    0 <= i < handles@.len() ==> #[trigger] handles@[i] < old(self).spec_len(),
                forall|i: int| 0 <= i < k ==> self.lookup(#[trigger] handles@[i]) is None,
                forall|i: int|
                    k <= i < n ==> self.lookup(#[trigger] handles@[i]) == Some(entries0[i]),
                forall|g: u32|
                    !among(handles@, n as int, g) ==> self.lookup(g) == old(self).lookup(g),
                all_wf ==> self.wf(),
                all_wf == (old(self).wf() && (forall|i: int|
                    0 <= i < entries0.len() ==> (#[trigger] entries0[i]).value.wf())),
            decreases k,
        {
            k = k - 1;
            let h = handles[k];
            let e = entries.pop().unwrap();
            proof {
                assert(entries0.take((k + 1) as int).len() == k + 1);
                assert(e == entries0[k as int]);
                assert(entries@ =~= entries0.take(k as int));
                if among(handles@, n as int, handles@[k as int]) {
                }
            }
            self.put(h, e);
            proof {
                assert(among(handles@, n as int, handles@[k as int]));
            }
        }
        proof {
            assert forall|g: u32| !handles@.contains(g) implies !among(
                handles@,
                n as int,
                g,
            ) by {
                if among(handles@, n as int, g) {
                    let j = choose|j: int| 0 <= j < n && handles@[j] == g;
                    assert(handles@.contains(g));
                }
            }
        }
    }

    /// Delete the entry behind a handle, returning ownership of it.
    ///
    /// Fails with `HandleNotFound` exactly when the handle does not resolve.
    pub fn delete(&mut self, h: u32) -> (r: Result<TableEntry, GfxError>)
        ensures
            final(self).spec_len() == old(self).spec_len(),
            old(self).wf() ==> final(self).wf(),
            match r {
                Ok(e) => {
                    &&& old(self).lookup(h) == Some(e)
                    &&& final(self).lookup(h) is None
                    &&& forall|g: u32| g != h ==> final(self).lookup(g) == old(self).lookup(g)
                },
                Err(err) => {
                    &&& old(self).lookup(h) is None
                    &&& err == GfxError::HandleNotFound
                    &&& *final(self) == *old(self)
                },
            },
    {
        match self.remove(h) {
            Some(e) => Ok(e),
            None => Err(GfxError::HandleNotFound),
        }
    }
}

} // verus!
