// The mapping flags are pinned to the values that libc gives them on Linux
// (the remap call that resizes a mapping is Linux's own), and the proofs
// about the requests handed to the OS assume those values.

mod fill;
mod memory_mapped;
mod open_options;
mod raw_memory_mapping;

pub use fill::{fill_tail, fill_tail_with, lemma_grow_then_shrink_keeps_prefix, resized};
pub use open_options::{FileAccess, OpenOptions, OptionsView};
pub use raw_memory_mapping::{
    lemma_segment_starts_at_byte_offset, MapRegion, MapRequest, MappingView, RawMemoryMapping,
    RemapRequest,
};
pub use memory_mapped::{os_outcome, IntoIter, MapError, MemoryMapped};
