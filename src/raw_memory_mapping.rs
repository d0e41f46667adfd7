use vstd::prelude::*;
use vstd::arithmetic::div_mod::{lemma_fundamental_div_mod, lemma_mod_decreases, lemma_mod_multiples_basic};
use crate::open_options::{OpenOptions, OptionsView};

verus! {

/// The arguments of one OS mapping call: `length` bytes of the file from
/// `file_offset` (a multiple of the page size), with the given protection
/// and visibility flags.
#[derive(Clone, Copy, Debug, PartialEq, Eq)]
pub struct MapRequest {
    pub length: usize,
    pub protection: i32,
    pub flags: i32,
    pub file_offset: usize,
}

/// The arguments of one OS remap call: the mapping at `addr` of
/// `old_length` bytes becomes `new_length` bytes long, possibly moving.
#[derive(Clone, Copy, Debug, PartialEq, Eq)]
pub struct RemapRequest {
    pub addr: usize,
    pub old_length: usize,
    pub new_length: usize,
}

/// A complete mapped region, padding included: what has to be unmapped.
#[derive(Clone, Copy, Debug, PartialEq, Eq)]
pub struct MapRegion {
    pub addr: usize,
    pub length: usize,
}

/// Mathematical model of a raw mapping.
pub struct MappingView {
    /// Address at which the OS placed the mapping.
    pub base: nat,
    /// Bytes mapped in all, alignment padding included.
    pub total: nat,
    /// Bytes mapped in front of the requested offset so that the
    /// OS call starts on a page boundary.
    pub padding: nat,
}

impl MappingView {
    /// Address of the first byte that the caller asked for.
    pub open spec fn segment_addr(self) -> nat {
        self.base + self.padding
    }

    /// Length of the region that the caller asked for.
    pub open spec fn segment_len(self) -> nat {
        (self.total - self.padding) as nat
    }
}

/// Padding in front of `byte_offset` so that the mapping starts on a page.
pub open spec fn padding_for(byte_offset: nat, page_size: nat) -> nat {
    byte_offset % page_size
}

/// The page-aligned file offset at which the OS mapping starts.
pub open spec fn aligned_file_offset(byte_offset: nat, page_size: nat) -> nat {
    (byte_offset - padding_for(byte_offset, page_size)) as nat
}

/// The OS call that maps what the options ask for.
pub open spec fn map_request_for(o: OptionsView, page_size: nat) -> MapRequest {
    MapRequest {
        length: (o.byte_len + padding_for(o.byte_offset, page_size)) as usize,
        protection: protection_bits(o.read, o.write),
        flags: visibility_flags(o.shared),
        file_offset: aligned_file_offset(o.byte_offset, page_size) as usize,
    }
}

/// The caller's region starts exactly at `byte_offset` in the file: the
/// OS mapping starts on the page boundary at or below it, and the padding,
/// less than a page, covers the distance.
pub proof fn lemma_segment_starts_at_byte_offset(o: OptionsView, page_size: nat)
    requires
        page_size > 0,
        o.byte_offset <= usize::MAX,
    ensures
        map_request_for(o, page_size).file_offset + padding_for(o.byte_offset, page_size)
            == o.byte_offset,
        (map_request_for(o, page_size).file_offset as nat) % page_size == 0,
        padding_for(o.byte_offset, page_size) < page_size,
{
    let off = o.byte_offset as int;
    let p = page_size as int;
    lemma_mod_decreases(o.byte_offset, page_size);
    lemma_fundamental_div_mod(off, p);
    lemma_mod_multiples_basic(off / p, p);
    assert((off - off % p) == (off / p) * p) by (nonlinear_arith)
        requires
            off == p * (off / p) + off % p,
    ;
}

/// No access, joined with read and write access as asked.
pub open spec fn protection_bits(read: bool, write: bool) -> i32 {
    let with_read = if read { 0i32 | PROT_READ_VALUE } else { 0i32 };
    if write { with_read | PROT_WRITE_VALUE } else { with_read }
}

/// Shared with the file and other mappings, or private copy-on-write.
pub open spec fn visibility_flags(shared: bool) -> i32 {
    if shared { MAP_SHARED_VALUE } else { MAP_PRIVATE_VALUE }
}

pub const PROT_READ_VALUE: i32 = 1;
pub const PROT_WRITE_VALUE: i32 = 2;
pub const MAP_SHARED_VALUE: i32 = 1;
pub const MAP_PRIVATE_VALUE: i32 = 2;

/// A call that maps `req` and returns a mapping that lies inside the
/// address space (`Ok(addr)`) or an OS error code.
pub open spec fn maps_in_address_space<F: FnOnce(MapRequest) -> Result<usize, i32>>(f: F) -> bool {
    forall|req: MapRequest, out: Result<usize, i32>|
        #[trigger] f.ensures((req,), out) ==> (out matches Ok(a) ==> a + req.length <= usize::MAX)
}

/// A remap call whose new mapping lies inside the address space.
pub open spec fn remaps_in_address_space<F: FnOnce(RemapRequest) -> Result<usize, i32>>(f: F) -> bool {
    forall|req: RemapRequest, out: Result<usize, i32>|
        #[trigger] f.ensures((req,), out) ==> (out matches Ok(a) ==> a + req.new_length <= usize::MAX)
}

/// The OS call that resizes the mapping `v` so that the caller's region
/// becomes `new_segment_len` bytes long.
pub open spec fn remap_request_for(v: MappingView, new_segment_len: int) -> RemapRequest {
    RemapRequest {
        addr: v.base as usize,
        old_length: v.total as usize,
        new_length: (new_segment_len + v.padding) as usize,
    }
}

/// What an OS call handed back, read off the call's result.
pub open spec fn outcome_of<A>(r: Result<A, i32>, addr: nat) -> Result<usize, i32> {
    match r {
        Ok(_) => Ok(addr as usize),
        Err(e) => Err(e),
    }
}

/// Owner of one OS mapping: its base address, its total size and the
/// alignment padding in front of the caller's region.
pub struct RawMemoryMapping {
    addr: usize,
    byte_size: usize,
    byte_offset: usize,
}

impl View for RawMemoryMapping {
    type V = MappingView;

    closed spec fn view(&self) -> MappingView {
        MappingView {
            base: self.addr as nat,
            total: self.byte_size as nat,
            padding: self.byte_offset as nat,
        }
    }
}

impl RawMemoryMapping {
    /// The padding lies inside the mapping and the mapping inside the
    /// address space.
    pub open spec fn wf(&self) -> bool {
        &&& self@.padding <= self@.total
        &&& self@.base + self@.total <= usize::MAX
    }

    /// Maps the byte range that `open_options` describes with one call of
    /// `map`, starting the OS mapping on the page boundary below the
    /// requested offset.
    pub fn open<T: ?Sized, F: FnOnce(MapRequest) -> Result<usize, i32>>(
        open_options: &OpenOptions<T>,
        page_size: usize,
        map: F,
    ) -> (r: Result<RawMemoryMapping, i32>)
        requires
            page_size > 0,
            open_options@.byte_len + padding_for(open_options@.byte_offset, page_size as nat)
                <= usize::MAX,
            map.requires((map_request_for(open_options@, page_size as nat),)),
            maps_in_address_space(map),
        ensures
            map.ensures(
                (map_request_for(open_options@, page_size as nat),),
                outcome_of(r, match r { Ok(m) => m@.base, Err(_) => 0 }),
            ),
            r matches Ok(m) ==> {
                &&& m.wf()
                &&& m@.padding == padding_for(open_options@.byte_offset, page_size as nat)
                &&& m@.segment_len() == open_options@.byte_len
            },
    {
        let offset_delta = open_options.byte_offset_value() % page_size;
        let mapping_size = open_options.byte_len_value() + offset_delta;
        proof {
            lemma_mod_decreases(open_options@.byte_offset, page_size as nat);
        }
        let req = MapRequest {
            length: mapping_size,
            protection: open_options.get_mmap_protection(),
            flags: open_options.get_mmap_flags(),
            file_offset: open_options.byte_offset_value() - offset_delta,
        };
        match map(req) {
            Ok(addr) => Ok(RawMemoryMapping { addr, byte_size: mapping_size, byte_offset: offset_delta }),
            Err(e) => Err(e),
        }
    }

    /// Gives up the mapping and returns the whole region, padding
    /// included, that the OS has to unmap.
    pub fn close(self) -> (r: MapRegion)
        ensures
            r.addr == self@.base,
            r.length == self@.total,
    {
        MapRegion { addr: self.addr, length: self.byte_size }
    }

    /// Address of the caller's region: the base past the padding.
    pub fn segment_ptr(&self) -> (r: usize)
        requires
            self.wf(),
        ensures
            r == self@.segment_addr(),
    {
        self.addr + self.byte_offset
    }

    /// Length of the caller's region: the mapping without its padding.
    pub fn segment_byte_len(&self) -> (r: usize)
        requires
            self.wf(),
        ensures
            r == self@.segment_len(),
    {
        self.byte_size - self.byte_offset
    }

    /// Resizes the caller's region to `new_byte_len` bytes with one call of
    /// `remap`, keeping the padding in front of it. On failure nothing
    /// changes.
    pub fn byte_resize<F: FnOnce(RemapRequest) -> Result<usize, i32>>(
        &mut self,
        new_byte_len: usize,
        remap: F,
    ) -> (r: Result<(), i32>)
        requires
            old(self).wf(),
            new_byte_len + old(self)@.padding <= usize::MAX,
            remap.requires((remap_request_for(old(self)@, new_byte_len as int),)),
            remaps_in_address_space(remap),
        ensures
            remap.ensures(
                (remap_request_for(old(self)@, new_byte_len as int),),
                outcome_of(r, final(self)@.base),
            ),
            final(self).wf(),
            final(self)@.padding == old(self)@.padding,
            r is Ok ==> final(self)@.segment_len() == new_byte_len,
            r is Err ==> *final(self) == *old(self),
    {
        let new_size = new_byte_len + self.byte_offset;
        let req = RemapRequest { addr: self.addr, old_length: self.byte_size, new_length: new_size };
        match remap(req) {
            Ok(new_addr) => {
                self.addr = new_addr;
                self.byte_size = new_size;
                Ok(())
            },
            Err(e) => Err(e),
        }
    }
}

} // verus!
