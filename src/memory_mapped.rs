use vstd::prelude::*;
use core::marker::PhantomData;
use core::mem::MaybeUninit;
use crate::open_options::OpenOptions;
use crate::raw_memory_mapping::{
    remap_request_for, remaps_in_address_space, MapRegion, MappingView, RawMemoryMapping,
    RemapRequest,
};

verus! {

/// Why a mapping could not be made or resized.
#[derive(Clone, Copy, Debug, PartialEq, Eq)]
pub enum MapError {
    /// The OS call failed with this error code.
    Os(i32),
    /// The length was to be inferred, but the offset lies past the end of
    /// the file.
    OffsetPastEnd,
    /// A slice mapping whose byte length is no whole number of elements
    /// (or whose element type has no size).
    UnevenLength,
}

/// What an OS call handed back, read off a result of this library: the
/// mapping's address, or the OS error code. (Errors found before any OS
/// call read as code `0`; no contract applies this to them.)
pub open spec fn os_outcome<A>(r: Result<A, MapError>, addr: nat) -> Result<usize, i32> {
    match r {
        Ok(_) => Ok(addr as usize),
        Err(MapError::Os(e)) => Err(e),
        Err(_) => Err(0),
    }
}

/// Base address of the mapping in a result, `0` for an error.
pub open spec fn mapped_base<T: ?Sized>(r: Result<MemoryMapped<T>, MapError>) -> nat {
    match r {
        Ok(m) => m@.base,
        Err(_) => 0,
    }
}

/// A file region mapped as a `T`, or (as `MemoryMapped<[T]>`) as a slice
/// of `T`. `MemoryMapped<MaybeUninit<T>>` and
/// `MemoryMapped<[MaybeUninit<T>]>` are the views whose contents have not
/// been certified yet.
pub struct MemoryMapped<T: ?Sized> {
    mapping: RawMemoryMapping,
    _marker: PhantomData<T>,
}

impl<T: ?Sized> View for MemoryMapped<T> {
    type V = MappingView;

    closed spec fn view(&self) -> MappingView {
        self.mapping@
    }
}

impl<T: ?Sized> MemoryMapped<T> {
    /// The padding lies inside the mapping and the mapping inside the
    /// address space.
    pub open spec fn wf(&self) -> bool {
        &&& self@.padding <= self@.total
        &&& self@.base + self@.total <= usize::MAX
    }

    pub(crate) fn from_mapping(mapping: RawMemoryMapping) -> (r: Self)
        ensures
            r@ == mapping@,
    {
        MemoryMapped { mapping, _marker: PhantomData }
    }

    /// Options for a mapping of this type, with nothing asked for yet.
    pub fn options() -> (r: OpenOptions<T>)
        ensures
            r@ == OpenOptions::<T>::new_view(),
    {
        OpenOptions::new()
    }

    /// Length in bytes of the mapped region that the caller asked for.
    pub fn segment_byte_len(&self) -> (r: usize)
        requires
            self.wf(),
        ensures
            r == self@.segment_len(),
    {
        self.mapping.segment_byte_len()
    }

    /// Address of the first byte that the caller asked for.
    pub fn segment_ptr(&self) -> (r: usize)
        requires
            self.wf(),
        ensures
            r == self@.segment_addr(),
    {
        self.mapping.segment_ptr()
    }

    /// Ends the view and returns the whole region, padding included, that
    /// the OS has to unmap.
    pub fn close(self) -> (r: MapRegion)
        ensures
            r.addr == self@.base,
            r.length == self@.total,
    {
        self.mapping.close()
    }
}

impl<T> MemoryMapped<MaybeUninit<T>> {
    /// Certifies the mapped bytes as a `T`; the mapping itself is kept.
    pub fn assume_init(self) -> (r: MemoryMapped<T>)
        ensures
            r@ == self@,
    {
        MemoryMapped { mapping: self.mapping, _marker: PhantomData }
    }
}

impl<T> MemoryMapped<[MaybeUninit<T>]> {
    /// Certifies the mapped elements as `T`s; the mapping itself is kept.
    pub fn assume_init(self) -> (r: MemoryMapped<[T]>)
        requires
            self.elements_wf(),
        ensures
            r@ == self@,
            r.elements_wf(),
            r.spec_len() == self.spec_len(),
    {
        MemoryMapped { mapping: self.mapping, _marker: PhantomData }
    }

    /// Resizes the slice to `new_len` elements with one call of `remap`;
    /// elements past the old length are left uninitialised. On failure
    /// nothing changes.
    pub fn resize_uninit<R: FnOnce(RemapRequest) -> Result<usize, i32>>(
        &mut self,
        new_len: usize,
        remap: R,
    ) -> (r: Result<(), MapError>)
        requires
            old(self).elements_wf(),
            new_len * size_of::<MaybeUninit<T>>() + old(self)@.padding <= usize::MAX,
            remap.requires(
                (remap_request_for(old(self)@, new_len * size_of::<MaybeUninit<T>>()),),
            ),
            remaps_in_address_space(remap),
        ensures
            remap.ensures(
                (remap_request_for(old(self)@, new_len * size_of::<MaybeUninit<T>>()),),
                os_outcome(r, final(self)@.base),
            ),
            r matches Err(e) ==> e is Os && *final(self) == *old(self),
            r is Ok ==> final(self).elements_wf() && final(self).spec_len() == new_len
                && final(self)@.padding == old(self)@.padding,
    {
        self.resize_elements(new_len, remap)
    }
}

impl<E> MemoryMapped<[E]> {
    /// A slice view: its region holds a whole number of elements of a
    /// type that has a size.
    pub open spec fn elements_wf(&self) -> bool {
        &&& self.wf()
        &&& size_of::<E>() > 0
        &&& self@.segment_len() % (size_of::<E>() as nat) == 0
    }

    /// Number of elements in the slice.
    pub open spec fn spec_len(&self) -> nat {
        self@.segment_len() / (size_of::<E>() as nat)
    }

    /// Number of elements in the slice.
    pub fn len(&self) -> (r: usize)
        requires
            self.elements_wf(),
        ensures
            r == self.spec_len(),
    {
        self.mapping.segment_byte_len() / core::mem::size_of::<E>()
    }

    fn resize_elements<R: FnOnce(RemapRequest) -> Result<usize, i32>>(
        &mut self,
        new_len: usize,
        remap: R,
    ) -> (r: Result<(), MapError>)
        requires
            old(self).elements_wf(),
            new_len * size_of::<E>() + old(self)@.padding <= usize::MAX,
            remap.requires((remap_request_for(old(self)@, new_len * size_of::<E>()),)),
            remaps_in_address_space(remap),
        ensures
            remap.ensures(
                (remap_request_for(old(self)@, new_len * size_of::<E>()),),
                os_outcome(r, final(self)@.base),
            ),
            r matches Err(e) ==> e is Os && *final(self) == *old(self),
            r is Ok ==> final(self).elements_wf() && final(self).spec_len() == new_len
                && final(self)@.padding == old(self)@.padding,
    {
        let size = core::mem::size_of::<E>();
        let new_byte_len = new_len * size;
        proof {
            vstd::arithmetic::div_mod::lemma_mod_multiples_basic(new_len as int, size as int);
            vstd::arithmetic::div_mod::lemma_div_multiples_vanish(new_len as int, size as int);
        }
        match self.mapping.byte_resize(new_byte_len, remap) {
            Ok(()) => Ok(()),
            Err(e) => Err(MapError::Os(e)),
        }
    }

    /// Resizes the slice to `new_len` elements with one call of `remap`,
    /// taking the bytes past the old length as valid elements. On failure
    /// nothing changes.
    pub fn resize_assume_init<R: FnOnce(RemapRequest) -> Result<usize, i32>>(
        &mut self,
        new_len: usize,
        remap: R,
    ) -> (r: Result<(), MapError>)
        requires
            old(self).elements_wf(),
            new_len * size_of::<E>() + old(self)@.padding <= usize::MAX,
            remap.requires((remap_request_for(old(self)@, new_len * size_of::<E>()),)),
            remaps_in_address_space(remap),
        ensures
            remap.ensures(
                (remap_request_for(old(self)@, new_len * size_of::<E>()),),
                os_outcome(r, final(self)@.base),
            ),
            r matches Err(e) ==> e is Os && *final(self) == *old(self),
            r is Ok ==> final(self).elements_wf() && final(self).spec_len() == new_len
                && final(self)@.padding == old(self)@.padding,
    {
        self.resize_elements(new_len, remap)
    }

    /// Shrinks the slice to `new_len` elements, fewer than it has, with
    /// one call of `remap`. On failure nothing changes.
    pub fn shrink_to<R: FnOnce(RemapRequest) -> Result<usize, i32>>(
        &mut self,
        new_len: usize,
        remap: R,
    ) -> (r: Result<(), MapError>)
        requires
            old(self).elements_wf(),
            new_len < old(self).spec_len(),
            remap.requires((remap_request_for(old(self)@, new_len * size_of::<E>()),)),
            remaps_in_address_space(remap),
        ensures
            remap.ensures(
                (remap_request_for(old(self)@, new_len * size_of::<E>()),),
                os_outcome(r, final(self)@.base),
            ),
            r matches Err(e) ==> e is Os && *final(self) == *old(self),
            r is Ok ==> final(self).elements_wf() && final(self).spec_len() == new_len
                && final(self)@.padding == old(self)@.padding,
    {
        proof {
            let size = size_of::<E>() as int;
            let seg = self@.segment_len() as int;
            assert(new_len * size <= seg) by (nonlinear_arith)
                requires
                    new_len < seg / size,
                    size > 0,
                    seg >= 0,
            {
                assert(seg / size * size <= seg) by (nonlinear_arith) requires size > 0, seg >= 0;
                assert(new_len * size <= seg / size * size) by (nonlinear_arith) requires new_len < seg / size, size > 0;
            }
        }
        self.resize_elements(new_len, remap)
    }

    /// Hands the slice to an iterator over its elements.
    pub fn into_iter(self) -> (r: IntoIter<E>)
        ensures
            r.mapping()@ == self@,
            r.position() == 0,
    {
        IntoIter { mmap: self, cur_ix: 0 }
    }
}

/// Iteration over a slice mapping that it owns: the positions of its
/// elements from the first to the last, each once.
pub struct IntoIter<T> {
    mmap: MemoryMapped<[T]>,
    cur_ix: usize,
}

impl<T> IntoIter<T> {
    pub closed spec fn mapping(&self) -> MemoryMapped<[T]> {
        self.mmap
    }

    pub closed spec fn position(&self) -> nat {
        self.cur_ix as nat
    }

    /// The slice mapping iterated over.
    pub fn mmap(&self) -> (r: &MemoryMapped<[T]>)
        ensures
            *r == self.mapping(),
    {
        &self.mmap
    }

    /// Ends the iteration and gives the slice mapping back.
    pub fn into_mmap(self) -> (r: MemoryMapped<[T]>)
        ensures
            r == self.mapping(),
    {
        self.mmap
    }

    /// Index of the next element, or `None` once all have been visited.
    pub fn next_index(&mut self) -> (r: Option<usize>)
        requires
            old(self).mapping().elements_wf(),
        ensures
            final(self).mapping() == old(self).mapping(),
            old(self).position() < old(self).mapping().spec_len() ==> r == Some(
                old(self).position() as usize,
            ) && final(self).position() == old(self).position() + 1,
            old(self).position() >= old(self).mapping().spec_len() ==> r is None
                && final(self).position() == old(self).position(),
    {
        if self.cur_ix < self.mmap.len() {
            let old_ix = self.cur_ix;
            self.cur_ix = self.cur_ix + 1;
            Some(old_ix)
        } else {
            None
        }
    }
}

} // verus!
