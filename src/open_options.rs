use vstd::prelude::*;
use core::marker::PhantomData;
use core::mem::MaybeUninit;
use crate::memory_mapped::{mapped_base, os_outcome, MapError, MemoryMapped};
use crate::raw_memory_mapping::{
    map_request_for, maps_in_address_space, padding_for, protection_bits, visibility_flags,
    MapRequest, RawMemoryMapping, MAP_PRIVATE_VALUE, MAP_SHARED_VALUE, PROT_READ_VALUE,
    PROT_WRITE_VALUE,
};

verus! {

/// Relies on libc::PROT_NONE, which is 0 on Linux.
#[verifier::external_body]
fn prot_none() -> (r: i32)
    ensures
        r == 0,
{
    libc::PROT_NONE
}

/// Relies on libc::PROT_READ, which is 1 on Linux.
#[verifier::external_body]
fn prot_read() -> (r: i32)
    ensures
        r == PROT_READ_VALUE,
{
    libc::PROT_READ
}

/// Relies on libc::PROT_WRITE, which is 2 on Linux.
#[verifier::external_body]
fn prot_write() -> (r: i32)
    ensures
        r == PROT_WRITE_VALUE,
{
    libc::PROT_WRITE
}

/// Relies on libc::MAP_SHARED, which is 1 on Linux.
#[verifier::external_body]
fn map_shared() -> (r: i32)
    ensures
        r == MAP_SHARED_VALUE,
{
    libc::MAP_SHARED
}

/// Relies on libc::MAP_PRIVATE, which is 2 on Linux.
#[verifier::external_body]
fn map_private() -> (r: i32)
    ensures
        r == MAP_PRIVATE_VALUE,
{
    libc::MAP_PRIVATE
}

/// How the backing file is to be opened: the flags that a file-open
/// facility needs, taken from the mapping options.
#[derive(Clone, Copy, Debug, PartialEq, Eq)]
pub struct FileAccess {
    pub read: bool,
    pub write: bool,
    pub create: bool,
    pub create_new: bool,
}

/// Mathematical model of a mapping request.
pub struct OptionsView {
    pub read: bool,
    pub write: bool,
    pub create: bool,
    pub create_new: bool,
    pub shared: bool,
    pub byte_offset: nat,
    /// `0` asks for the rest of the file from `byte_offset`.
    pub byte_len: nat,
}

/// The options with the length resolved against a file of `file_len`
/// bytes: a length of `0` becomes the rest of the file from the offset.
pub open spec fn resolved(o: OptionsView, file_len: nat) -> OptionsView {
    if o.byte_len == 0 {
        OptionsView { byte_len: (file_len - o.byte_offset) as nat, ..o }
    } else {
        o
    }
}

/// The length is to be inferred, but the offset lies past the end of the file.
pub open spec fn offset_past_end(o: OptionsView, file_len: nat) -> bool {
    o.byte_len == 0 && o.byte_offset > file_len
}

/// The mapping, padding included, has a length that fits in a `usize`.
pub open spec fn request_fits(o: OptionsView, page_size: nat) -> bool {
    o.byte_len + padding_for(o.byte_offset, page_size) <= usize::MAX
}

/// `byte_len` bytes hold a whole number of elements of `size` bytes.
pub open spec fn whole_elements(byte_len: nat, size: nat) -> bool {
    size > 0 && byte_len % size == 0
}

/// The same options with the shared mode on.
pub open spec fn shared_view(o: OptionsView) -> OptionsView {
    OptionsView { shared: true, ..o }
}

/// Describes a mapping of a byte range of a file as a `T` (or, for
/// `OpenOptions<[T]>`, as a slice of `T`): access, creation and sharing
/// mode, and the range.
pub struct OpenOptions<T: ?Sized> {
    read: bool,
    write: bool,
    create: bool,
    create_new: bool,
    shared: bool,
    byte_offset: usize,
    byte_len: usize,
    _marker: PhantomData<T>,
}

impl<T: ?Sized> View for OpenOptions<T> {
    type V = OptionsView;

    closed spec fn view(&self) -> OptionsView {
        OptionsView {
            read: self.read,
            write: self.write,
            create: self.create,
            create_new: self.create_new,
            shared: self.shared,
            byte_offset: self.byte_offset as nat,
            byte_len: self.byte_len as nat,
        }
    }
}

impl<T: ?Sized> OpenOptions<T> {
    /// The offset in bytes that the options ask for.
    pub fn byte_offset_value(&self) -> (r: usize)
        ensures
            r == self@.byte_offset,
    {
        self.byte_offset
    }

    /// The length in bytes that the options ask for; `0` for the rest of
    /// the file.
    pub fn byte_len_value(&self) -> (r: usize)
        ensures
            r == self@.byte_len,
    {
        self.byte_len
    }

    /// Protection bits of the OS mapping: readable and/or writable.
    pub(crate) fn get_mmap_protection(&self) -> (r: i32)
        ensures
            r == protection_bits(self@.read, self@.write),
    {
        let mut protection = prot_none();
        if self.read {
            protection = protection | prot_read();
        }
        if self.write {
            protection = protection | prot_write();
        }
        protection
    }

    /// Visibility of the OS mapping: shared with the file, or private.
    pub(crate) fn get_mmap_flags(&self) -> (r: i32)
        ensures
            r == visibility_flags(self@.shared),
    {
        if self.shared {
            map_shared()
        } else {
            map_private()
        }
    }

    /// The flags with which the backing file is to be opened.
    pub fn get_fs_open_options(&self) -> (r: FileAccess)
        ensures
            r.read == self@.read,
            r.write == self@.write,
            r.create == self@.create,
            r.create_new == self@.create_new,
    {
        FileAccess { read: self.read, write: self.write, create: self.create, create_new: self.create_new }
    }

    pub(crate) fn with_shared(&self, shared: bool) -> (r: Self)
        ensures
            r@ == (OptionsView { shared, ..self@ }),
    {
        OpenOptions {
            read: self.read,
            write: self.write,
            create: self.create,
            create_new: self.create_new,
            shared,
            byte_offset: self.byte_offset,
            byte_len: self.byte_len,
            _marker: PhantomData,
        }
    }

    /// These options with the length resolved against a file of
    /// `file_len` bytes, or `None` where the offset lies past its end.
    pub(crate) fn resolve(&self, file_len: usize) -> (r: Option<Self>)
        ensures
            offset_past_end(self@, file_len as nat) <==> r is None,
            r matches Some(o) ==> o@ == resolved(self@, file_len as nat),
    {
        if self.byte_len == 0 {
            if self.byte_offset > file_len {
                None
            } else {
                Some(OpenOptions {
                    read: self.read,
                    write: self.write,
                    create: self.create,
                    create_new: self.create_new,
                    shared: self.shared,
                    byte_offset: self.byte_offset,
                    byte_len: file_len - self.byte_offset,
                    _marker: PhantomData,
                })
            }
        } else {
            Some(self.with_shared(self.shared))
        }
    }

    /// Maps exactly what these options describe with one call of `map`.
    fn map_as<X: ?Sized, F: FnOnce(MapRequest) -> Result<usize, i32>>(
        &self,
        page_size: usize,
        map: F,
    ) -> (r: Result<MemoryMapped<X>, MapError>)
        requires
            page_size > 0,
            request_fits(self@, page_size as nat),
            map.requires((map_request_for(self@, page_size as nat),)),
            maps_in_address_space(map),
        ensures
            map.ensures((map_request_for(self@, page_size as nat),), os_outcome(r, mapped_base(r))),
            r matches Err(e) ==> e is Os,
            r matches Ok(m) ==> {
                &&& m.wf()
                &&& m@.segment_len() == self@.byte_len
                &&& m@.padding == padding_for(self@.byte_offset, page_size as nat)
            },
    {
        match RawMemoryMapping::open(self, page_size, map) {
            Ok(mapping) => Ok(MemoryMapped::from_mapping(mapping)),
            Err(e) => Err(MapError::Os(e)),
        }
    }

    /// The options that `new` returns.
    pub open spec fn new_view() -> OptionsView {
        OptionsView {
            read: false,
            write: false,
            create: false,
            create_new: false,
            shared: false,
            byte_offset: 0,
            byte_len: 0,
        }
    }

    /// Options that ask for nothing: no access, no creation, a private
    /// mapping of the whole file.
    pub fn new() -> (r: Self)
        ensures
            r@ == Self::new_view(),
    {
        OpenOptions {
            read: false,
            write: false,
            create: false,
            create_new: false,
            shared: false,
            byte_offset: 0,
            byte_len: 0,
            _marker: PhantomData,
        }
    }

    pub fn read(&mut self, read: bool) -> (r: &mut Self)
        ensures
            r@ == (OptionsView { read, ..old(self)@ }),
            *final(self) == *final(r),
    {
        self.read = read;
        self
    }

    pub fn write(&mut self, write: bool) -> (r: &mut Self)
        ensures
            r@ == (OptionsView { write, ..old(self)@ }),
            *final(self) == *final(r),
    {
        self.write = write;
        self
    }

    pub fn create(&mut self, create: bool) -> (r: &mut Self)
        ensures
            r@ == (OptionsView { create, ..old(self)@ }),
            *final(self) == *final(r),
    {
        self.create = create;
        self
    }

    pub fn create_new(&mut self, create_new: bool) -> (r: &mut Self)
        ensures
            r@ == (OptionsView { create_new, ..old(self)@ }),
            *final(self) == *final(r),
    {
        self.create_new = create_new;
        self
    }

    pub fn byte_offset(&mut self, byte_offset: usize) -> (r: &mut Self)
        ensures
            r@ == (OptionsView { byte_offset: byte_offset as nat, ..old(self)@ }),
            *final(self) == *final(r),
    {
        self.byte_offset = byte_offset;
        self
    }

    /// `0` asks for the rest of the file from the offset.
    pub fn byte_len(&mut self, byte_len: usize) -> (r: &mut Self)
        ensures
            r@ == (OptionsView { byte_len: byte_len as nat, ..old(self)@ }),
            *final(self) == *final(r),
    {
        self.byte_len = byte_len;
        self
    }
}

impl<T> OpenOptions<[T]> {
    /// Sets the offset in elements of `T`.
    pub fn offset(&mut self, element_offset: usize) -> (r: &mut Self)
        requires
            element_offset * size_of::<T>() <= usize::MAX,
        ensures
            r@ == (OptionsView { byte_offset: (element_offset * size_of::<T>()) as nat, ..old(self)@ }),
            *final(self) == *final(r),
    {
        self.byte_offset = element_offset * core::mem::size_of::<T>();
        self
    }

    /// Sets the length in elements of `T`; `0` asks for the rest of the file.
    pub fn len(&mut self, len: usize) -> (r: &mut Self)
        requires
            len * size_of::<T>() <= usize::MAX,
        ensures
            r@ == (OptionsView { byte_len: (len * size_of::<T>()) as nat, ..old(self)@ }),
            *final(self) == *final(r),
    {
        self.byte_len = len * core::mem::size_of::<T>();
        self
    }
}

impl<T> OpenOptions<T> {
    /// Maps a range of a file of `file_len` bytes as a `T`, with one call
    /// of `map`; a length of `0` maps the rest of the file from the offset.
    pub fn open_from_file<F: FnOnce(MapRequest) -> Result<usize, i32>>(
        &self,
        file_len: usize,
        page_size: usize,
        map: F,
    ) -> (r: Result<MemoryMapped<MaybeUninit<T>>, MapError>)
        requires
            page_size > 0,
            !offset_past_end(self@, file_len as nat) ==> {
                &&& request_fits(resolved(self@, file_len as nat), page_size as nat)
                &&& map.requires((map_request_for(resolved(self@, file_len as nat), page_size as nat),))
            },
            maps_in_address_space(map),
        ensures
            offset_past_end(self@, file_len as nat) ==> r == Err::<MemoryMapped<MaybeUninit<T>>, MapError>(MapError::OffsetPastEnd),
            !offset_past_end(self@, file_len as nat) ==> {
                &&& map.ensures(
                    (map_request_for(resolved(self@, file_len as nat), page_size as nat),),
                    os_outcome(r, mapped_base(r)),
                )
                &&& r matches Err(e) ==> e is Os
            },
            r matches Ok(m) ==> {
                &&& m.wf()
                &&& m@.segment_len() == resolved(self@, file_len as nat).byte_len
                &&& m@.segment_len() == if self@.byte_len == 0 {
                    file_len - self@.byte_offset
                } else {
                    self@.byte_len as int
                }
                &&& m@.padding == padding_for(self@.byte_offset, page_size as nat)
            },
    {
        match self.resolve(file_len) {
            Some(opts) => opts.map_as(page_size, map),
            None => Err(MapError::OffsetPastEnd),
        }
    }

    /// Maps a range of the file behind a descriptor, `file_len` bytes long,
    /// as a `T`, with one call of `map`; a length of `0` maps the rest of
    /// the file from the offset.
    pub fn open_from_fd<F: FnOnce(MapRequest) -> Result<usize, i32>>(
        &self,
        file_len: usize,
        page_size: usize,
        map: F,
    ) -> (r: Result<MemoryMapped<MaybeUninit<T>>, MapError>)
        requires
            page_size > 0,
            !offset_past_end(self@, file_len as nat) ==> {
                &&& request_fits(resolved(self@, file_len as nat), page_size as nat)
                &&& map.requires((map_request_for(resolved(self@, file_len as nat), page_size as nat),))
            },
            maps_in_address_space(map),
        ensures
            offset_past_end(self@, file_len as nat) ==> r == Err::<MemoryMapped<MaybeUninit<T>>, MapError>(MapError::OffsetPastEnd),
            !offset_past_end(self@, file_len as nat) ==> {
                &&& map.ensures(
                    (map_request_for(resolved(self@, file_len as nat), page_size as nat),),
                    os_outcome(r, mapped_base(r)),
                )
                &&& r matches Err(e) ==> e is Os
            },
            r matches Ok(m) ==> {
                &&& m.wf()
                &&& m@.segment_len() == resolved(self@, file_len as nat).byte_len
                &&& m@.segment_len() == if self@.byte_len == 0 {
                    file_len - self@.byte_offset
                } else {
                    self@.byte_len as int
                }
                &&& m@.padding == padding_for(self@.byte_offset, page_size as nat)
            },
    {
        self.open_from_file(file_len, page_size, map)
    }

    /// `open_from_file` with the shared mode on.
    pub fn open_shared_from_file<F: FnOnce(MapRequest) -> Result<usize, i32>>(
        &self,
        file_len: usize,
        page_size: usize,
        map: F,
    ) -> (r: Result<MemoryMapped<MaybeUninit<T>>, MapError>)
        requires
            page_size > 0,
            !offset_past_end(self@, file_len as nat) ==> {
                &&& request_fits(resolved(self@, file_len as nat), page_size as nat)
                &&& map.requires((map_request_for(resolved(shared_view(self@), file_len as nat), page_size as nat),))
            },
            maps_in_address_space(map),
        ensures
            offset_past_end(self@, file_len as nat) ==> r == Err::<MemoryMapped<MaybeUninit<T>>, MapError>(MapError::OffsetPastEnd),
            !offset_past_end(self@, file_len as nat) ==> {
                &&& map.ensures(
                    (map_request_for(resolved(shared_view(self@), file_len as nat), page_size as nat),),
                    os_outcome(r, mapped_base(r)),
                )
                &&& r matches Err(e) ==> e is Os
            },
            r matches Ok(m) ==> {
                &&& m.wf()
                &&& m@.segment_len() == resolved(self@, file_len as nat).byte_len
                &&& m@.segment_len() == if self@.byte_len == 0 {
                    file_len - self@.byte_offset
                } else {
                    self@.byte_len as int
                }
                &&& m@.padding == padding_for(self@.byte_offset, page_size as nat)
            },
    {
        self.with_shared(true).open_from_file(file_len, page_size, map)
    }

    /// `open_from_fd` with the shared mode on.
    pub fn open_shared_from_fd<F: FnOnce(MapRequest) -> Result<usize, i32>>(
        &self,
        file_len: usize,
        page_size: usize,
        map: F,
    ) -> (r: Result<MemoryMapped<MaybeUninit<T>>, MapError>)
        requires
            page_size > 0,
            !offset_past_end(self@, file_len as nat) ==> {
                &&& request_fits(resolved(self@, file_len as nat), page_size as nat)
                &&& map.requires((map_request_for(resolved(shared_view(self@), file_len as nat), page_size as nat),))
            },
            maps_in_address_space(map),
        ensures
            offset_past_end(self@, file_len as nat) ==> r == Err::<MemoryMapped<MaybeUninit<T>>, MapError>(MapError::OffsetPastEnd),
            !offset_past_end(self@, file_len as nat) ==> {
                &&& map.ensures(
                    (map_request_for(resolved(shared_view(self@), file_len as nat), page_size as nat),),
                    os_outcome(r, mapped_base(r)),
                )
                &&& r matches Err(e) ==> e is Os
            },
            r matches Ok(m) ==> {
                &&& m.wf()
                &&& m@.segment_len() == resolved(self@, file_len as nat).byte_len
                &&& m@.segment_len() == if self@.byte_len == 0 {
                    file_len - self@.byte_offset
                } else {
                    self@.byte_len as int
                }
                &&& m@.padding == padding_for(self@.byte_offset, page_size as nat)
            },
    {
        self.with_shared(true).open_from_fd(file_len, page_size, map)
    }
}

impl<T> OpenOptions<[T]> {
    /// Maps exactly what these options describe as a slice of `T`, after
    /// checking that it holds a whole number of elements.
    fn map_slice<F: FnOnce(MapRequest) -> Result<usize, i32>>(
        &self,
        page_size: usize,
        map: F,
    ) -> (r: Result<MemoryMapped<[MaybeUninit<T>]>, MapError>)
        requires
            page_size > 0,
            request_fits(self@, page_size as nat),
            map.requires((map_request_for(self@, page_size as nat),)),
            maps_in_address_space(map),
        ensures
            !whole_elements(self@.byte_len, size_of::<T>() as nat) ==> r == Err::<MemoryMapped<[MaybeUninit<T>]>, MapError>(MapError::UnevenLength),
            whole_elements(self@.byte_len, size_of::<T>() as nat) ==> {
                &&& map.ensures((map_request_for(self@, page_size as nat),), os_outcome(r, mapped_base(r)))
                &&& r matches Err(e) ==> e is Os
            },
            r matches Ok(m) ==> {
                &&& m.elements_wf()
                &&& m@.segment_len() == self@.byte_len
                &&& m.spec_len() == self@.byte_len / (size_of::<T>() as nat)
                &&& m@.padding == padding_for(self@.byte_offset, page_size as nat)
            },
    {
        let size = core::mem::size_of::<T>();
        if size == 0 || self.byte_len % size != 0 {
            return Err(MapError::UnevenLength);
        }
        self.map_as(page_size, map)
    }

    /// Maps a range of a file of `file_len` bytes as a slice of `T`, with one
    /// call of `map`; a length of `0` maps the rest of the file from the
    /// offset. A length that is no whole number of elements is refused
    /// before anything is mapped.
    pub fn open_slice_from_file<F: FnOnce(MapRequest) -> Result<usize, i32>>(
        &self,
        file_len: usize,
        page_size: usize,
        map: F,
    ) -> (r: Result<MemoryMapped<[MaybeUninit<T>]>, MapError>)
        requires
            page_size > 0,
            !offset_past_end(self@, file_len as nat) ==> {
                &&& request_fits(resolved(self@, file_len as nat), page_size as nat)
                &&& map.requires((map_request_for(resolved(self@, file_len as nat), page_size as nat),))
            },
            maps_in_address_space(map),
        ensures
            offset_past_end(self@, file_len as nat) ==> r == Err::<MemoryMapped<[MaybeUninit<T>]>, MapError>(MapError::OffsetPastEnd),
            !offset_past_end(self@, file_len as nat) && !whole_elements(resolved(self@, file_len as nat).byte_len, size_of::<T>() as nat) ==> r == Err::<MemoryMapped<[MaybeUninit<T>]>, MapError>(MapError::UnevenLength),
            !offset_past_end(self@, file_len as nat) && whole_elements(resolved(self@, file_len as nat).byte_len, size_of::<T>() as nat) ==> {
                &&& map.ensures(
                    (map_request_for(resolved(self@, file_len as nat), page_size as nat),),
                    os_outcome(r, mapped_base(r)),
                )
                &&& r matches Err(e) ==> e is Os
            },
            r matches Ok(m) ==> {
                &&& m.elements_wf()
                &&& m@.segment_len() == resolved(self@, file_len as nat).byte_len
                &&& m@.segment_len() == if self@.byte_len == 0 {
                    file_len - self@.byte_offset
                } else {
                    self@.byte_len as int
                }
                &&& m.spec_len() == resolved(self@, file_len as nat).byte_len / (size_of::<T>() as nat)
                &&& m@.padding == padding_for(self@.byte_offset, page_size as nat)
            },
    {
        match self.resolve(file_len) {
            Some(opts) => opts.map_slice(page_size, map),
            None => Err(MapError::OffsetPastEnd),
        }
    }

    /// Maps a range of the file behind a descriptor, `file_len` bytes long,
    /// as a slice of `T`, with one call of `map`; a length of `0` maps the
    /// rest of the file from the offset.
    pub fn open_slice_from_fd<F: FnOnce(MapRequest) -> Result<usize, i32>>(
        &self,
        file_len: usize,
        page_size: usize,
        map: F,
    ) -> (r: Result<MemoryMapped<[MaybeUninit<T>]>, MapError>)
        requires
            page_size > 0,
            !offset_past_end(self@, file_len as nat) ==> {
                &&& request_fits(resolved(self@, file_len as nat), page_size as nat)
                &&& map.requires((map_request_for(resolved(self@, file_len as nat), page_size as nat),))
            },
            maps_in_address_space(map),
        ensures
            offset_past_end(self@, file_len as nat) ==> r == Err::<MemoryMapped<[MaybeUninit<T>]>, MapError>(MapError::OffsetPastEnd),
            !offset_past_end(self@, file_len as nat) && !whole_elements(resolved(self@, file_len as nat).byte_len, size_of::<T>() as nat) ==> r == Err::<MemoryMapped<[MaybeUninit<T>]>, MapError>(MapError::UnevenLength),
            !offset_past_end(self@, file_len as nat) && whole_elements(resolved(self@, file_len as nat).byte_len, size_of::<T>() as nat) ==> {
                &&& map.ensures(
                    (map_request_for(resolved(self@, file_len as nat), page_size as nat),),
                    os_outcome(r, mapped_base(r)),
                )
                &&& r matches Err(e) ==> e is Os
            },
            r matches Ok(m) ==> {
                &&& m.elements_wf()
                &&& m@.segment_len() == resolved(self@, file_len as nat).byte_len
                &&& m@.segment_len() == if self@.byte_len == 0 {
                    file_len - self@.byte_offset
                } else {
                    self@.byte_len as int
                }
                &&& m.spec_len() == resolved(self@, file_len as nat).byte_len / (size_of::<T>() as nat)
                &&& m@.padding == padding_for(self@.byte_offset, page_size as nat)
            },
    {
        self.open_slice_from_file(file_len, page_size, map)
    }

    /// `open_slice_from_file` with the shared mode on.
    pub fn open_shared_slice_from_file<F: FnOnce(MapRequest) -> Result<usize, i32>>(
        &self,
        file_len: usize,
        page_size: usize,
        map: F,
    ) -> (r: Result<MemoryMapped<[MaybeUninit<T>]>, MapError>)
        requires
            page_size > 0,
            !offset_past_end(self@, file_len as nat) ==> {
                &&& request_fits(resolved(self@, file_len as nat), page_size as nat)
                &&& map.requires((map_request_for(resolved(shared_view(self@), file_len as nat), page_size as nat),))
            },
            maps_in_address_space(map),
        ensures
            offset_past_end(self@, file_len as nat) ==> r == Err::<MemoryMapped<[MaybeUninit<T>]>, MapError>(MapError::OffsetPastEnd),
            !offset_past_end(self@, file_len as nat) && !whole_elements(resolved(self@, file_len as nat).byte_len, size_of::<T>() as nat) ==> r == Err::<MemoryMapped<[MaybeUninit<T>]>, MapError>(MapError::UnevenLength),
            !offset_past_end(self@, file_len as nat) && whole_elements(resolved(self@, file_len as nat).byte_len, size_of::<T>() as nat) ==> {
                &&& map.ensures(
                    (map_request_for(resolved(shared_view(self@), file_len as nat), page_size as nat),),
                    os_outcome(r, mapped_base(r)),
                )
                &&& r matches Err(e) ==> e is Os
            },
            r matches Ok(m) ==> {
                &&& m.elements_wf()
                &&& m@.segment_len() == resolved(self@, file_len as nat).byte_len
                &&& m@.segment_len() == if self@.byte_len == 0 {
                    file_len - self@.byte_offset
                } else {
                    self@.byte_len as int
                }
                &&& m.spec_len() == resolved(self@, file_len as nat).byte_len / (size_of::<T>() as nat)
                &&& m@.padding == padding_for(self@.byte_offset, page_size as nat)
            },
    {
        self.with_shared(true).open_slice_from_file(file_len, page_size, map)
    }

    /// `open_slice_from_fd` with the shared mode on.
    pub fn open_shared_slice_from_fd<F: FnOnce(MapRequest) -> Result<usize, i32>>(
        &self,
        file_len: usize,
        page_size: usize,
        map: F,
    ) -> (r: Result<MemoryMapped<[MaybeUninit<T>]>, MapError>)
        requires
            page_size > 0,
            !offset_past_end(self@, file_len as nat) ==> {
                &&& request_fits(resolved(self@, file_len as nat), page_size as nat)
                &&& map.requires((map_request_for(resolved(shared_view(self@), file_len as nat), page_size as nat),))
            },
            maps_in_address_space(map),
        ensures
            offset_past_end(self@, file_len as nat) ==> r == Err::<MemoryMapped<[MaybeUninit<T>]>, MapError>(MapError::OffsetPastEnd),
            !offset_past_end(self@, file_len as nat) && !whole_elements(resolved(self@, file_len as nat).byte_len, size_of::<T>() as nat) ==> r == Err::<MemoryMapped<[MaybeUninit<T>]>, MapError>(MapError::UnevenLength),
            !offset_past_end(self@, file_len as nat) && whole_elements(resolved(self@, file_len as nat).byte_len, size_of::<T>() as nat) ==> {
                &&& map.ensures(
                    (map_request_for(resolved(shared_view(self@), file_len as nat), page_size as nat),),
                    os_outcome(r, mapped_base(r)),
                )
                &&& r matches Err(e) ==> e is Os
            },
            r matches Ok(m) ==> {
                &&& m.elements_wf()
                &&& m@.segment_len() == resolved(self@, file_len as nat).byte_len
                &&& m@.segment_len() == if self@.byte_len == 0 {
                    file_len - self@.byte_offset
                } else {
                    self@.byte_len as int
                }
                &&& m.spec_len() == resolved(self@, file_len as nat).byte_len / (size_of::<T>() as nat)
                &&& m@.padding == padding_for(self@.byte_offset, page_size as nat)
            },
    {
        self.with_shared(true).open_slice_from_fd(file_len, page_size, map)
    }
}

} // verus!
