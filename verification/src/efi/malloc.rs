//! The firmware's memory map: its descriptors, the protocol by which the
//! map is obtained, and the memory that becomes free once boot services end.
use crate::efi::status::{EfiStatus, EFI_BUFFER_TOO_SMALL, EFI_INVALID_PARAMETER, EFI_SUCCESS};
use crate::efi::{EfiError, FirmwareHandle};
use crate::mem::{
    le_u32, le_u64, lemma_u32_le_roundtrip, lemma_u64_le_roundtrip, push_u32_le, push_u64_le,
    u32_at, u32_le_bytes, u64_at, u64_le_bytes,
};
use vstd::prelude::*;
use vstd::slice::slice_subrange;

verus! {

/// Size of the buffer first offered to the memory-map service.
pub const MEMORY_MAP_BUFFER_SIZE: usize = 8192;

/// Largest number of descriptors a snapshot holds.
pub const MAX_MEMORY_MAP_ENTRIES: usize = 1000;

/// Size in bytes of one page.
pub const EFI_PAGE_SIZE: u64 = 4096;

/// Number of bytes of a descriptor that are decoded. The firmware may use
/// larger descriptors; what follows the known fields is ignored.
pub const EFI_MEMORY_DESCRIPTOR_SIZE: usize = 40;

/// The kinds of memory that a memory map tells apart.
#[derive(Clone, Copy, Debug, PartialEq, Eq, Structural)]
pub enum EfiMemoryType {
    /// Not usable.
    ReservedMemoryType,
    /// Code of a loaded UEFI application; free for the loader and the
    /// operating system once boot services end.
    LoaderCode,
    /// Data of a loaded UEFI application; free for the loader and the
    /// operating system once boot services end.
    LoaderData,
    /// Code of a boot-service driver; free once boot services end.
    BootServicesCode,
    /// Data of a boot-service driver; free once boot services end.
    BootServicesData,
    /// Code of a runtime driver; to be preserved.
    RuntimeServicesCode,
    /// Data of a runtime driver; to be preserved.
    RuntimeServicesData,
    /// Free memory.
    ConventionalMemory,
    /// Memory in which errors have been detected.
    UnusableMemory,
    /// Memory that holds the ACPI tables.
    ACPIReclaimMemory,
    /// Address space reserved for use by the firmware.
    ACPIMemoryNVS,
    /// Memory-mapped input and output.
    MemoryMappedIO,
    /// Memory-mapped port space.
    MemoryMappedIOPortSpace,
    /// Reserved by the firmware for code that is part of the processor.
    PalCode,
    /// Works as conventional memory and keeps its content without power.
    PersistentMemory,
    /// Any value beyond the defined kinds.
    MaxMemoryType,
}

impl EfiMemoryType {
    /// Whether memory of this kind can be reused by the next stage once
    /// the firmware has handed over control.
    pub open spec fn reclaimable(self) -> bool {
        self is BootServicesCode || self is BootServicesData || self is ConventionalMemory
            || self is PersistentMemory || self is LoaderCode || self is LoaderData
    }

    /// The number that stands for this kind in a descriptor.
    pub open spec fn code(self) -> u32 {
        match self {
            EfiMemoryType::ReservedMemoryType => 0,
            EfiMemoryType::LoaderCode => 1,
            EfiMemoryType::LoaderData => 2,
            EfiMemoryType::BootServicesCode => 3,
            EfiMemoryType::BootServicesData => 4,
            EfiMemoryType::RuntimeServicesCode => 5,
            EfiMemoryType::RuntimeServicesData => 6,
            EfiMemoryType::ConventionalMemory => 7,
            EfiMemoryType::UnusableMemory => 8,
            EfiMemoryType::ACPIReclaimMemory => 9,
            EfiMemoryType::ACPIMemoryNVS => 10,
            EfiMemoryType::MemoryMappedIO => 11,
            EfiMemoryType::MemoryMappedIOPortSpace => 12,
            EfiMemoryType::PalCode => 13,
            EfiMemoryType::PersistentMemory => 14,
            EfiMemoryType::MaxMemoryType => 15,
        }
    }

    /// The kind that `value` stands for in a descriptor: 0 to 14 name the
    /// defined kinds in their order, every other value is `MaxMemoryType`.
    pub open spec fn from_code(value: u32) -> EfiMemoryType {
        if value == 0 {
            EfiMemoryType::ReservedMemoryType
        } else if value == 1 {
            EfiMemoryType::LoaderCode
        } else if value == 2 {
            EfiMemoryType::LoaderData
        } else if value == 3 {
            EfiMemoryType::BootServicesCode
        } else if value == 4 {
            EfiMemoryType::BootServicesData
        } else if value == 5 {
            EfiMemoryType::RuntimeServicesCode
        } else if value == 6 {
            EfiMemoryType::RuntimeServicesData
        } else if value == 7 {
            EfiMemoryType::ConventionalMemory
        } else if value == 8 {
            EfiMemoryType::UnusableMemory
        } else if value == 9 {
            EfiMemoryType::ACPIReclaimMemory
        } else if value == 10 {
            EfiMemoryType::ACPIMemoryNVS
        } else if value == 11 {
            EfiMemoryType::MemoryMappedIO
        } else if value == 12 {
            EfiMemoryType::MemoryMappedIOPortSpace
        } else if value == 13 {
            EfiMemoryType::PalCode
        } else if value == 14 {
            EfiMemoryType::PersistentMemory
        } else {
            EfiMemoryType::MaxMemoryType
        }
    }

    /// Whether memory of this kind can be reused once boot services end.
    pub fn is_reclaimable(&self) -> (r: bool)
        ensures
            r == self.reclaimable(),
    {
        match self {
            EfiMemoryType::BootServicesCode
            | EfiMemoryType::BootServicesData
            | EfiMemoryType::ConventionalMemory
            | EfiMemoryType::PersistentMemory
            | EfiMemoryType::LoaderCode
            | EfiMemoryType::LoaderData => true,
            _ => false,
        }
    }

    /// The number that stands for this kind in a descriptor.
    pub fn to_u32(&self) -> (r: u32)
        ensures
            r == self.code(),
    {
        match self {
            EfiMemoryType::ReservedMemoryType => 0,
            EfiMemoryType::LoaderCode => 1,
            EfiMemoryType::LoaderData => 2,
            EfiMemoryType::BootServicesCode => 3,
            EfiMemoryType::BootServicesData => 4,
            EfiMemoryType::RuntimeServicesCode => 5,
            EfiMemoryType::RuntimeServicesData => 6,
            EfiMemoryType::ConventionalMemory => 7,
            EfiMemoryType::UnusableMemory => 8,
            EfiMemoryType::ACPIReclaimMemory => 9,
            EfiMemoryType::ACPIMemoryNVS => 10,
            EfiMemoryType::MemoryMappedIO => 11,
            EfiMemoryType::MemoryMappedIOPortSpace => 12,
            EfiMemoryType::PalCode => 13,
            EfiMemoryType::PersistentMemory => 14,
            EfiMemoryType::MaxMemoryType => 15,
        }
    }
}

impl From<u32> for EfiMemoryType {
    fn from(value: u32) -> (r: Self)
        ensures
            r == Self::from_code(value),
    {
        match value {
            0 => EfiMemoryType::ReservedMemoryType,
            1 => EfiMemoryType::LoaderCode,
            2 => EfiMemoryType::LoaderData,
            3 => EfiMemoryType::BootServicesCode,
            4 => EfiMemoryType::BootServicesData,
            5 => EfiMemoryType::RuntimeServicesCode,
            6 => EfiMemoryType::RuntimeServicesData,
            7 => EfiMemoryType::ConventionalMemory,
            8 => EfiMemoryType::UnusableMemory,
            9 => EfiMemoryType::ACPIReclaimMemory,
            10 => EfiMemoryType::ACPIMemoryNVS,
            11 => EfiMemoryType::MemoryMappedIO,
            12 => EfiMemoryType::MemoryMappedIOPortSpace,
            13 => EfiMemoryType::PalCode,
            14 => EfiMemoryType::PersistentMemory,
            _ => EfiMemoryType::MaxMemoryType,
        }
    }
}

impl vstd::std_specs::convert::FromSpecImpl<u32> for EfiMemoryType {
    open spec fn obeys_from_spec() -> bool {
        true
    }

    open spec fn from_spec(value: u32) -> Self {
        Self::from_code(value)
    }
}

/// One entry of the memory map: a run of pages of one kind.
#[derive(Clone, Copy, Debug, PartialEq, Eq, Structural)]
pub struct EfiMemoryDescriptor {
    /// Kind of the region.
    pub mem_type: EfiMemoryType,
    /// Physical address of the first byte, on a page boundary.
    pub phys_start: u64,
    /// Virtual address of the first byte, on a page boundary.
    pub virt_start: u64,
    /// Number of pages in the region, never zero.
    pub number_pages: u64,
    /// Capabilities of the region, one bit each.
    pub attr_mask: u64,
}

impl EfiMemoryDescriptor {
    /// The descriptor stored in the first 40 bytes of `s`.
    pub open spec fn decode(s: Seq<u8>) -> EfiMemoryDescriptor {
        EfiMemoryDescriptor {
            mem_type: EfiMemoryType::from_code(le_u32(s, 0)),
            phys_start: le_u64(s, 8),
            virt_start: le_u64(s, 16),
            number_pages: le_u64(s, 24),
            attr_mask: le_u64(s, 32),
        }
    }

    /// The 40 bytes that store the descriptor.
    pub open spec fn encode(self) -> Seq<u8> {
        u32_le_bytes(self.mem_type.code()) + seq![0u8, 0u8, 0u8, 0u8] + u64_le_bytes(
            self.phys_start,
        ) + u64_le_bytes(self.virt_start) + u64_le_bytes(self.number_pages) + u64_le_bytes(
            self.attr_mask,
        )
    }

    /// Both addresses are on a page boundary, the region is not empty and
    /// its size in bytes fits the address space.
    pub open spec fn wf(self) -> bool {
        &&& self.phys_start % 4096 == 0
        &&& self.virt_start % 4096 == 0
        &&& self.number_pages > 0
        &&& self.number_pages * 4096 <= u64::MAX
    }

    /// What decoding `s` gives: the descriptor in its first 40 bytes, if
    /// there are that many and the descriptor is well formed.
    pub open spec fn parse(s: Seq<u8>) -> Result<EfiMemoryDescriptor, EfiError> {
        if s.len() < 40 {
            Err(EfiError::OutOfBounds)
        } else if !Self::decode(s).wf() {
            Err(EfiError::Validation)
        } else {
            Ok(Self::decode(s))
        }
    }

    /// Size of the region in bytes if memory of its kind is free once boot
    /// services end, zero otherwise.
    pub open spec fn reclaimable_size(self) -> nat {
        if self.mem_type.reclaimable() {
            (self.number_pages * 4096) as nat
        } else {
            0
        }
    }

    /// Whether the descriptor is well formed.
    pub fn is_valid(&self) -> (r: bool)
        ensures
            r == self.wf(),
    {
        self.phys_start % 4096 == 0 && self.virt_start % 4096 == 0 && self.number_pages > 0
            && self.number_pages <= 0xf_ffff_ffff_ffff
    }

    /// Decodes the descriptor at the start of `bytes`.
    pub fn from_bytes(bytes: &[u8]) -> (r: Result<Self, EfiError>)
        ensures
            r == Self::parse(bytes@),
    {
        if bytes.len() < EFI_MEMORY_DESCRIPTOR_SIZE {
            return Err(EfiError::OutOfBounds);
        }
        let descriptor = EfiMemoryDescriptor {
            mem_type: EfiMemoryType::from(u32_at(bytes, 0)),
            phys_start: u64_at(bytes, 8),
            virt_start: u64_at(bytes, 16),
            number_pages: u64_at(bytes, 24),
            attr_mask: u64_at(bytes, 32),
        };
        if descriptor.is_valid() {
            Ok(descriptor)
        } else {
            Err(EfiError::Validation)
        }
    }

    /// The 40 bytes that store the descriptor.
    pub fn to_bytes(&self) -> (bytes: Vec<u8>)
        ensures
            bytes@ == self.encode(),
    {
        let mut bytes: Vec<u8> = Vec::new();
        push_u32_le(&mut bytes, self.mem_type.to_u32());
        push_u32_le(&mut bytes, 0);
        assert(u32_le_bytes(0) =~= seq![0u8, 0u8, 0u8, 0u8]);
        push_u64_le(&mut bytes, self.phys_start);
        push_u64_le(&mut bytes, self.virt_start);
        push_u64_le(&mut bytes, self.number_pages);
        push_u64_le(&mut bytes, self.attr_mask);
        assert(bytes@ =~= self.encode());
        bytes
    }

    /// Encoding a descriptor and decoding the bytes gives the descriptor
    /// back.
    pub proof fn lemma_encode_decode(self)
        ensures
            self.encode().len() == 40,
            Self::decode(self.encode()) == self,
            self.wf() ==> Self::parse(self.encode()) == Ok::<EfiMemoryDescriptor, EfiError>(self),
    {
        let s = self.encode();
        assert(s.len() == 40);
        assert(s.subrange(0, 4) =~= u32_le_bytes(self.mem_type.code()));
        assert(s.subrange(8, 16) =~= u64_le_bytes(self.phys_start));
        assert(s.subrange(16, 24) =~= u64_le_bytes(self.virt_start));
        assert(s.subrange(24, 32) =~= u64_le_bytes(self.number_pages));
        assert(s.subrange(32, 40) =~= u64_le_bytes(self.attr_mask));
        lemma_u32_le_roundtrip(s, 0, self.mem_type.code());
        lemma_u64_le_roundtrip(s, 8, self.phys_start);
        lemma_u64_le_roundtrip(s, 16, self.virt_start);
        lemma_u64_le_roundtrip(s, 24, self.number_pages);
        lemma_u64_le_roundtrip(s, 32, self.attr_mask);
        assert(EfiMemoryType::from_code(self.mem_type.code()) == self.mem_type);
    }
}

/// Number of bytes that the regions of `map` free once boot services end:
/// the sizes of the regions of a reclaimable kind, added up.
pub open spec fn reclaimable_bytes(map: Seq<EfiMemoryDescriptor>) -> nat
    decreases map.len(),
{
    if map.len() == 0 {
        0
    } else {
        reclaimable_bytes(map.drop_last()) + map.last().reclaimable_size()
    }
}

/// The reclaimable memory of two maps joined is the sum of what each frees.
pub proof fn lemma_reclaimable_bytes_additive(
    a: Seq<EfiMemoryDescriptor>,
    b: Seq<EfiMemoryDescriptor>,
)
    ensures
        reclaimable_bytes(a + b) == reclaimable_bytes(a) + reclaimable_bytes(b),
    decreases b.len(),
{
    if b.len() == 0 {
        assert(a + b =~= a);
    } else {
        assert((a + b).drop_last() =~= a + b.drop_last());
        assert((a + b).last() == b.last());
        lemma_reclaimable_bytes_additive(a, b.drop_last());
    }
}

/// Taking one descriptor out of a map lowers the reclaimable memory by
/// what that descriptor frees.
pub proof fn lemma_reclaimable_bytes_remove(map: Seq<EfiMemoryDescriptor>, i: int)
    requires
        0 <= i < map.len(),
    ensures
        reclaimable_bytes(map) == reclaimable_bytes(map.remove(i)) + map[i].reclaimable_size(),
{
    let head = map.subrange(0, i);
    let one = seq![map[i]];
    let tail = map.subrange(i + 1, map.len() as int);
    assert(map =~= head + one + tail);
    assert(map.remove(i) =~= head + tail);
    lemma_reclaimable_bytes_additive(head + one, tail);
    lemma_reclaimable_bytes_additive(head, one);
    lemma_reclaimable_bytes_additive(head, tail);
    assert(one.drop_last().len() == 0);
    assert(reclaimable_bytes(one.drop_last()) == 0);
    assert(reclaimable_bytes(one) == map[i].reclaimable_size());
}

/// The reclaimable memory does not depend on the order of the descriptors:
/// two maps with the same descriptors, each as often, free as much.
pub proof fn lemma_reclaimable_bytes_permutation(
    a: Seq<EfiMemoryDescriptor>,
    b: Seq<EfiMemoryDescriptor>,
)
    requires
        a.to_multiset() == b.to_multiset(),
    ensures
        reclaimable_bytes(a) == reclaimable_bytes(b),
    decreases a.len(),
{
    vstd::seq_lib::to_multiset_len(a);
    vstd::seq_lib::to_multiset_len(b);
    if a.len() > 0 {
        let last = a.last();
        let rest = a.drop_last();
        assert(a.contains(last));
        vstd::seq_lib::to_multiset_contains(a, last);
        vstd::seq_lib::to_multiset_contains(b, last);
        let j = choose|j: int| 0 <= j < b.len() && b[j] == last;
        assert(rest =~= a.remove(a.len() - 1));
        vstd::seq_lib::to_multiset_remove(a, a.len() - 1);
        vstd::seq_lib::to_multiset_remove(b, j);
        lemma_reclaimable_bytes_permutation(rest, b.remove(j));
        lemma_reclaimable_bytes_remove(b, j);
    }
}

/// A part of a map frees no more than the whole map.
pub proof fn lemma_reclaimable_bytes_prefix(map: Seq<EfiMemoryDescriptor>, n: int)
    requires
        0 <= n <= map.len(),
    ensures
        reclaimable_bytes(map.take(n)) <= reclaimable_bytes(map),
{
    assert(map =~= map.take(n) + map.skip(n));
    lemma_reclaimable_bytes_additive(map.take(n), map.skip(n));
}

/// Which call of the memory-map service a reply answers.
#[derive(Clone, Copy, Debug, PartialEq, Eq, Structural)]
pub enum MapAttempt {
    /// The call with the buffer of `MEMORY_MAP_BUFFER_SIZE` bytes.
    First,
    /// The one further call, with a buffer of the size the firmware asked
    /// for.
    Retry,
}

/// What the memory-map service handed back from one call.
#[derive(Clone, Copy, Debug)]
pub struct MemoryMapReply<'a> {
    /// Status of the call.
    pub status: EfiStatus,
    /// Size in bytes of the map that was written, or of the buffer that
    /// would be needed.
    pub memory_map_size: usize,
    /// The buffer the firmware wrote the map to.
    pub memory_map: &'a [u8],
    /// Key of the map, to be presented when boot services are ended.
    pub map_key: usize,
    /// Size in bytes of one descriptor in the buffer.
    pub descriptor_size: usize,
    /// Version of the descriptor layout.
    pub descriptor_version: u32,
}

/// What is to happen after a reply of the memory-map service.
#[derive(Clone, Copy, Debug, PartialEq, Eq, Structural)]
pub enum MemoryMapStep {
    /// No system table is installed: nothing was done.
    Uninitialized,
    /// The buffer was too small: call once more, with a buffer of
    /// `buffer_size` bytes.
    Retry { buffer_size: usize },
    /// The snapshot holds the map. `capacity_exceeded` tells that the map
    /// had more descriptors than a snapshot holds, and that those beyond
    /// the limit were left out.
    Done { map_key: usize, capacity_exceeded: bool },
}

impl<'a> MemoryMapReply<'a> {
    /// Number of whole descriptors in the map.
    pub open spec fn descriptor_count(self) -> int {
        self.memory_map_size as int / self.descriptor_size as int
    }

    /// Number of descriptors that a snapshot takes from the map.
    pub open spec fn stored_count(self) -> int {
        if self.descriptor_count() <= MAX_MEMORY_MAP_ENTRIES {
            self.descriptor_count()
        } else {
            MAX_MEMORY_MAP_ENTRIES as int
        }
    }

    /// The bytes of descriptor `i`.
    pub open spec fn slot(self, i: int) -> Seq<u8> {
        self.memory_map@.subrange(i * self.descriptor_size, i * self.descriptor_size
            + self.descriptor_size)
    }

    /// The descriptors that a snapshot takes from the map, in the order in
    /// which the buffer holds them.
    pub open spec fn descriptors(self) -> Seq<EfiMemoryDescriptor> {
        Seq::new(self.stored_count() as nat, |i: int| EfiMemoryDescriptor::decode(self.slot(i)))
    }

    /// The snapshot that a successful reply gives, or why the reply is
    /// refused: descriptors smaller than the known fields, a map larger
    /// than the buffer, a descriptor that is not well formed, or more
    /// reclaimable memory than 64 bits can count.
    pub open spec fn snapshot(self) -> Result<Seq<EfiMemoryDescriptor>, EfiError> {
        if self.descriptor_size < EFI_MEMORY_DESCRIPTOR_SIZE {
            Err(EfiError::Validation)
        } else if self.memory_map_size > self.memory_map@.len() {
            Err(EfiError::OutOfBounds)
        } else if exists|i: int| 0 <= i < self.stored_count() && !(#[trigger] self.descriptors()[i]).wf() {
            Err(EfiError::Validation)
        } else if reclaimable_bytes(self.descriptors()) > u64::MAX {
            Err(EfiError::Validation)
        } else {
            Ok(self.descriptors())
        }
    }

    /// What a reply without success asks for: one further call after the
    /// first `EFI_BUFFER_TOO_SMALL`, and the end of the attempt otherwise.
    pub open spec fn refusal(self, attempt: MapAttempt) -> Result<MemoryMapStep, EfiError> {
        if self.status == EFI_BUFFER_TOO_SMALL && attempt is First {
            Ok(MemoryMapStep::Retry { buffer_size: self.memory_map_size })
        } else if self.status == EFI_INVALID_PARAMETER {
            Err(EfiError::InvalidParameter)
        } else {
            Err(EfiError::SizeNegotiation)
        }
    }
}

/// Decodes the descriptors of a successful reply, as many as a snapshot
/// holds.
fn decode_snapshot(reply: &MemoryMapReply) -> (r: Result<Vec<EfiMemoryDescriptor>, EfiError>)
    ensures
        match reply.snapshot() {
            Ok(map) => r matches Ok(pool) && pool@ == map,
            Err(e) => r matches Err(f) && f == e,
        },
        r matches Ok(pool) ==> {
            &&& reply.descriptor_size >= EFI_MEMORY_DESCRIPTOR_SIZE
            &&& pool@.len() <= MAX_MEMORY_MAP_ENTRIES
            &&& forall|i: int| 0 <= i < pool@.len() ==> (#[trigger] pool@[i]).wf()
            &&& reclaimable_bytes(pool@) <= u64::MAX
        },
{
    let size: usize = reply.descriptor_size;
    if size < EFI_MEMORY_DESCRIPTOR_SIZE {
        return Err(EfiError::Validation);
    }
    if reply.memory_map_size > reply.memory_map.len() {
        return Err(EfiError::OutOfBounds);
    }
    let count: usize = reply.memory_map_size / size;
    let stored: usize = if count <= MAX_MEMORY_MAP_ENTRIES {
        count
    } else {
        MAX_MEMORY_MAP_ENTRIES
    };
    assert(stored * size <= reply.memory_map_size) by (nonlinear_arith)
        requires
            size > 0,
            stored <= reply.memory_map_size / size,
    ;
    let ghost all = reply.descriptors();
    let mut pool: Vec<EfiMemoryDescriptor> = Vec::new();
    let mut total: u64 = 0;
    let mut index: usize = 0;
    let mut offset: usize = 0;
    while index < stored
        invariant
            index <= stored,
            stored == reply.stored_count(),
            stored <= MAX_MEMORY_MAP_ENTRIES,
            size == reply.descriptor_size,
            size >= EFI_MEMORY_DESCRIPTOR_SIZE,
            stored * size <= reply.memory_map_size <= reply.memory_map@.len(),
            offset == index * size,
            all == reply.descriptors(),
            all.len() == stored,
            pool@ == all.take(index as int),
            forall|i: int| 0 <= i < index ==> (#[trigger] all[i]).wf(),
            total == reclaimable_bytes(pool@),
        decreases stored - index,
    {
        assert((index + 1) * size <= stored * size && (index + 1) * size == index * size + size)
            by (nonlinear_arith)
            requires
                index + 1 <= stored,
        ;
        let bytes = slice_subrange(reply.memory_map, offset, offset + size);
        assert(bytes@ == reply.slot(index as int));
        let descriptor = match EfiMemoryDescriptor::from_bytes(bytes) {
            Ok(descriptor) => descriptor,
            Err(_) => {
                assert(!all[index as int].wf());
                return Err(EfiError::Validation);
            },
        };
        assert(descriptor == all[index as int]);
        assert(all.take(index + 1).drop_last() =~= all.take(index as int));
        let freed: u64 = if descriptor.mem_type.is_reclaimable() {
            descriptor.number_pages * EFI_PAGE_SIZE
        } else {
            0
        };
        total = match total.checked_add(freed) {
            Some(sum) => sum,
            None => {
                proof {
                    lemma_reclaimable_bytes_prefix(all, index + 1);
                }
                return Err(EfiError::Validation);
            },
        };
        pool.push(descriptor);
        assert(pool@ =~= all.take(index + 1));
        index = index + 1;
        offset = offset + size;
    }
    assert(pool@ =~= all);
    Ok(pool)
}

/// Holds the last memory map that was obtained from the firmware.
pub struct EfiMemoryManager {
    memory_pool: Vec<EfiMemoryDescriptor>,
}

impl View for EfiMemoryManager {
    type V = Seq<EfiMemoryDescriptor>;

    /// The descriptors of the snapshot, in the order of the firmware's map.
    closed spec fn view(&self) -> Seq<EfiMemoryDescriptor> {
        self.memory_pool@
    }
}

impl EfiMemoryManager {
    #[verifier::type_invariant]
    spec fn bounded(self) -> bool {
        &&& self.memory_pool@.len() <= MAX_MEMORY_MAP_ENTRIES
        &&& forall|i: int| 0 <= i < self.memory_pool@.len() ==> (#[trigger] self.memory_pool@[i]).wf()
        &&& reclaimable_bytes(self.memory_pool@) <= u64::MAX
    }

    /// A manager with an empty snapshot.
    pub fn new() -> (manager: Self)
        ensures
            manager@ == Seq::<EfiMemoryDescriptor>::empty(),
    {
        EfiMemoryManager { memory_pool: Vec::new() }
    }

    /// Number of descriptors in the snapshot, never more than
    /// `MAX_MEMORY_MAP_ENTRIES`.
    pub fn len(&self) -> (n: usize)
        ensures
            n == self@.len(),
            n <= MAX_MEMORY_MAP_ENTRIES,
    {
        proof {
            use_type_invariant(self);
        }
        self.memory_pool.len()
    }

    /// Descriptor `index` of the snapshot, which is well formed.
    pub fn get(&self, index: usize) -> (r: Option<EfiMemoryDescriptor>)
        ensures
            r == if index < self@.len() {
                Some(self@[index as int])
            } else {
                None
            },
            r matches Some(d) ==> d.wf(),
    {
        proof {
            use_type_invariant(self);
        }
        if index < self.memory_pool.len() {
            Some(self.memory_pool[index])
        } else {
            None
        }
    }

    /// Takes one reply of the memory-map service and says what follows.
    ///
    /// With no system table installed nothing is done. A successful reply
    /// is decoded and replaces the snapshot as a whole; any other outcome
    /// leaves the snapshot as it was.
    pub fn get_memory_map(
        &mut self,
        handle: &FirmwareHandle,
        attempt: MapAttempt,
        reply: &MemoryMapReply,
    ) -> (r: Result<MemoryMapStep, EfiError>)
        ensures
            handle@ is None ==> r == Ok::<MemoryMapStep, EfiError>(MemoryMapStep::Uninitialized)
                && final(self)@ == old(self)@,
            handle@ is Some && reply.status != EFI_SUCCESS ==> r == reply.refusal(attempt)
                && final(self)@ == old(self)@,
            handle@ is Some && reply.status == EFI_SUCCESS ==> match reply.snapshot() {
                Ok(map) => r == Ok::<MemoryMapStep, EfiError>(
                    MemoryMapStep::Done {
                        map_key: reply.map_key,
                        capacity_exceeded: reply.descriptor_count() > MAX_MEMORY_MAP_ENTRIES,
                    },
                ) && final(self)@ == map,
                Err(e) => r == Err::<MemoryMapStep, EfiError>(e) && final(self)@ == old(self)@,
            },
    {
        if !handle.is_installed() {
            return Ok(MemoryMapStep::Uninitialized);
        }
        if reply.status == EFI_BUFFER_TOO_SMALL {
            return match attempt {
                MapAttempt::First => Ok(MemoryMapStep::Retry { buffer_size: reply.memory_map_size }),
                MapAttempt::Retry => Err(EfiError::SizeNegotiation),
            };
        }
        if reply.status == EFI_INVALID_PARAMETER {
            return Err(EfiError::InvalidParameter);
        }
        if reply.status != EFI_SUCCESS {
            return Err(EfiError::SizeNegotiation);
        }
        let pool = match decode_snapshot(reply) {
            Ok(pool) => pool,
            Err(e) => {
                return Err(e);
            },
        };
        let count: usize = reply.memory_map_size / reply.descriptor_size;
        self.memory_pool = pool;
        Ok(
            MemoryMapStep::Done {
                map_key: reply.map_key,
                capacity_exceeded: count > MAX_MEMORY_MAP_ENTRIES,
            },
        )
    }

    /// Number of bytes of memory that are free once boot services end:
    /// the sizes of the regions of a reclaimable kind, added up.
    pub fn free_mem_after_exit_bs(&self) -> (total: u64)
        ensures
            total == reclaimable_bytes(self@),
    {
        proof {
            use_type_invariant(self);
        }
        let mut total: u64 = 0;
        let mut index: usize = 0;
        while index < self.memory_pool.len()
            invariant
                index <= self.memory_pool@.len(),
                total == reclaimable_bytes(self.memory_pool@.take(index as int)),
                reclaimable_bytes(self.memory_pool@) <= u64::MAX,
            decreases self.memory_pool@.len() - index,
        {
            let descriptor = self.memory_pool[index];
            proof {
                lemma_reclaimable_bytes_prefix(self.memory_pool@, index + 1);
                assert(self.memory_pool@.take(index + 1).drop_last() =~= self.memory_pool@.take(
                    index as int,
                ));
            }
            if descriptor.mem_type.is_reclaimable() {
                total = total + descriptor.number_pages * EFI_PAGE_SIZE;
            }
            index = index + 1;
        }
        assert(self.memory_pool@.take(index as int) =~= self.memory_pool@);
        total
    }
}

} // verus!
