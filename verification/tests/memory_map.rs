use efi_boot::efi::malloc::{
    EfiMemoryDescriptor, EfiMemoryManager, EfiMemoryType, MapAttempt, MemoryMapReply,
    MemoryMapStep, EFI_MEMORY_DESCRIPTOR_SIZE, EFI_PAGE_SIZE, MAX_MEMORY_MAP_ENTRIES,
    MEMORY_MAP_BUFFER_SIZE,
};
use efi_boot::efi::status::{
    EFI_BUFFER_TOO_SMALL, EFI_INVALID_PARAMETER, EFI_NOT_READY, EFI_SUCCESS,
};
use efi_boot::efi::{initialize_system_table, EfiError, FirmwareHandle, EFI_SYSTEM_TABLE_SIGNATURE};
use efi_boot::mem::PhysMem;

fn installed_handle() -> FirmwareHandle {
    let mut image = vec![0u8; 120];
    image[0..8].copy_from_slice(&EFI_SYSTEM_TABLE_SIGNATURE.to_le_bytes());
    let mem = PhysMem::new(0x1000, &image);
    let mut handle = FirmwareHandle::new();
    assert_eq!(initialize_system_table(&mut handle, &mem, 0x1000), Ok(true));
    handle
}

fn descriptor(kind: u32, phys: u64, virt: u64, pages: u64, attr: u64) -> Vec<u8> {
    let mut bytes = Vec::new();
    bytes.extend_from_slice(&kind.to_le_bytes());
    bytes.extend_from_slice(&[0u8; 4]);
    bytes.extend_from_slice(&phys.to_le_bytes());
    bytes.extend_from_slice(&virt.to_le_bytes());
    bytes.extend_from_slice(&pages.to_le_bytes());
    bytes.extend_from_slice(&attr.to_le_bytes());
    bytes
}

/// A buffer of `size` bytes that holds `descriptors`, each in a slot of
/// `slot` bytes.
fn map_buffer(descriptors: &[Vec<u8>], slot: usize, size: usize) -> Vec<u8> {
    let mut buffer = Vec::new();
    for d in descriptors {
        buffer.extend_from_slice(d);
        buffer.extend(std::iter::repeat(0xee).take(slot - d.len()));
    }
    buffer.resize(size, 0);
    buffer
}

fn reply<'a>(
    status: u64,
    memory_map_size: usize,
    memory_map: &'a [u8],
    map_key: usize,
    descriptor_size: usize,
) -> MemoryMapReply<'a> {
    MemoryMapReply {
        status,
        memory_map_size,
        memory_map,
        map_key,
        descriptor_size,
        descriptor_version: 1,
    }
}

const ALL_KINDS: [EfiMemoryType; 16] = [
    EfiMemoryType::ReservedMemoryType,
    EfiMemoryType::LoaderCode,
    EfiMemoryType::LoaderData,
    EfiMemoryType::BootServicesCode,
    EfiMemoryType::BootServicesData,
    EfiMemoryType::RuntimeServicesCode,
    EfiMemoryType::RuntimeServicesData,
    EfiMemoryType::ConventionalMemory,
    EfiMemoryType::UnusableMemory,
    EfiMemoryType::ACPIReclaimMemory,
    EfiMemoryType::ACPIMemoryNVS,
    EfiMemoryType::MemoryMappedIO,
    EfiMemoryType::MemoryMappedIOPortSpace,
    EfiMemoryType::PalCode,
    EfiMemoryType::PersistentMemory,
    EfiMemoryType::MaxMemoryType,
];

#[test]
fn constants_have_their_documented_values() {
    assert_eq!(MEMORY_MAP_BUFFER_SIZE, 8 * 1024);
    assert_eq!(MAX_MEMORY_MAP_ENTRIES, 1000);
    assert_eq!(EFI_PAGE_SIZE, 4096);
    assert_eq!(EFI_MEMORY_DESCRIPTOR_SIZE, 40);
}

#[test]
fn memory_type_from_number() {
    for (code, kind) in ALL_KINDS.iter().enumerate() {
        assert_eq!(EfiMemoryType::from(code as u32), *kind);
        assert_eq!(kind.to_u32(), code as u32);
    }
    assert_eq!(EfiMemoryType::from(16), EfiMemoryType::MaxMemoryType);
    assert_eq!(EfiMemoryType::from(0x7000_0000), EfiMemoryType::MaxMemoryType);
    assert_eq!(EfiMemoryType::from(u32::MAX), EfiMemoryType::MaxMemoryType);
}

#[test]
fn six_kinds_are_reclaimable() {
    let reclaimable: Vec<EfiMemoryType> = ALL_KINDS
        .iter()
        .copied()
        .filter(|kind| kind.is_reclaimable())
        .collect();
    assert_eq!(
        reclaimable,
        vec![
            EfiMemoryType::LoaderCode,
            EfiMemoryType::LoaderData,
            EfiMemoryType::BootServicesCode,
            EfiMemoryType::BootServicesData,
            EfiMemoryType::ConventionalMemory,
            EfiMemoryType::PersistentMemory,
        ]
    );
}

#[test]
fn descriptor_is_decoded_field_by_field() {
    let bytes = descriptor(7, 0x10_0000, 0xffff_8000_0010_0000, 0x20, 0x8000_0000_0000_000f);
    assert_eq!(
        EfiMemoryDescriptor::from_bytes(&bytes),
        Ok(EfiMemoryDescriptor {
            mem_type: EfiMemoryType::ConventionalMemory,
            phys_start: 0x10_0000,
            virt_start: 0xffff_8000_0010_0000,
            number_pages: 0x20,
            attr_mask: 0x8000_0000_0000_000f,
        })
    );
}

#[test]
fn descriptor_ignores_what_follows_the_known_fields() {
    let mut bytes = descriptor(2, 0x2000, 0, 1, 8);
    bytes.extend_from_slice(&[0xff; 8]);
    let decoded = EfiMemoryDescriptor::from_bytes(&bytes).unwrap();
    assert_eq!(decoded.mem_type, EfiMemoryType::LoaderData);
    assert_eq!(decoded.phys_start, 0x2000);
    assert_eq!(decoded.number_pages, 1);
    assert_eq!(decoded.attr_mask, 8);
}

#[test]
fn descriptor_shorter_than_its_fields_is_out_of_bounds() {
    let bytes = descriptor(7, 0x1000, 0, 1, 0);
    assert_eq!(
        EfiMemoryDescriptor::from_bytes(&bytes[..39]),
        Err(EfiError::OutOfBounds)
    );
    assert_eq!(EfiMemoryDescriptor::from_bytes(&[]), Err(EfiError::OutOfBounds));
}

#[test]
fn descriptor_that_breaks_an_invariant_is_invalid() {
    let misaligned_phys = descriptor(7, 0x1001, 0, 1, 0);
    let misaligned_virt = descriptor(7, 0x1000, 0x800, 1, 0);
    let no_pages = descriptor(7, 0x1000, 0, 0, 0);
    let too_many_pages = descriptor(7, 0x1000, 0, 1 << 52, 0);
    for bytes in [misaligned_phys, misaligned_virt, no_pages, too_many_pages] {
        assert_eq!(
            EfiMemoryDescriptor::from_bytes(&bytes),
            Err(EfiError::Validation)
        );
    }
    let most_pages = descriptor(7, 0x1000, 0, (1 << 52) - 1, 0);
    assert!(EfiMemoryDescriptor::from_bytes(&most_pages).is_ok());
}

#[test]
fn is_valid_tells_well_formed_descriptors() {
    let mut d = EfiMemoryDescriptor {
        mem_type: EfiMemoryType::LoaderCode,
        phys_start: 0x4000,
        virt_start: 0x8000,
        number_pages: 3,
        attr_mask: 0,
    };
    assert!(d.is_valid());
    d.number_pages = 0;
    assert!(!d.is_valid());
    d.number_pages = u64::MAX / 4096;
    assert!(d.is_valid());
    d.number_pages = u64::MAX / 4096 + 1;
    assert!(!d.is_valid());
    d.number_pages = 1;
    d.phys_start = 0x4fff;
    assert!(!d.is_valid());
    d.phys_start = 0;
    d.virt_start = 1;
    assert!(!d.is_valid());
}

#[test]
fn descriptor_round_trip() {
    for (i, kind) in ALL_KINDS.iter().enumerate() {
        let d = EfiMemoryDescriptor {
            mem_type: *kind,
            phys_start: 0x1000 * (i as u64 + 1),
            virt_start: 0xffff_ffff_ffff_f000 - 0x1000 * i as u64,
            number_pages: 0x0123_4567_89ab + i as u64,
            attr_mask: 0x8000_0000_0002_700f ^ (i as u64),
        };
        let bytes = d.to_bytes();
        assert_eq!(bytes.len(), 40);
        assert_eq!(EfiMemoryDescriptor::from_bytes(&bytes), Ok(d));
    }
}

#[test]
fn descriptor_encoding_is_the_firmware_layout() {
    let d = EfiMemoryDescriptor {
        mem_type: EfiMemoryType::PersistentMemory,
        phys_start: 0x0000_0001_0000_0000,
        virt_start: 0xffff_8000_0000_0000,
        number_pages: 0x1_0203,
        attr_mask: 0x8000_0000_0000_8008,
    };
    assert_eq!(
        d.to_bytes(),
        descriptor(14, 0x0000_0001_0000_0000, 0xffff_8000_0000_0000, 0x1_0203, 0x8000_0000_0000_8008)
    );
}

#[test]
fn new_manager_is_empty() {
    let manager = EfiMemoryManager::new();
    assert_eq!(manager.len(), 0);
    assert_eq!(manager.get(0), None);
    assert_eq!(manager.free_mem_after_exit_bs(), 0);
}

#[test]
fn buffer_too_small_then_success() {
    let handle = installed_handle();
    let mut manager = EfiMemoryManager::new();

    let first_buffer = vec![0u8; MEMORY_MAP_BUFFER_SIZE];
    let first = reply(EFI_BUFFER_TOO_SMALL, 4096, &first_buffer, 0, 0);
    assert_eq!(
        manager.get_memory_map(&handle, MapAttempt::First, &first),
        Ok(MemoryMapStep::Retry { buffer_size: 4096 })
    );
    assert_eq!(manager.len(), 0);

    let descriptors = [
        descriptor(7, 0x10_0000, 0, 10, 0xf),
        descriptor(0, 0x20_0000, 0, 5, 0xf),
    ];
    let second_buffer = map_buffer(&descriptors, 40, 4096);
    let second = reply(EFI_SUCCESS, 80, &second_buffer, 0x5a5a, 40);
    assert_eq!(
        manager.get_memory_map(&handle, MapAttempt::Retry, &second),
        Ok(MemoryMapStep::Done {
            map_key: 0x5a5a,
            capacity_exceeded: false,
        })
    );
    assert_eq!(manager.len(), 2);
    assert_eq!(
        manager.get(0).unwrap().mem_type,
        EfiMemoryType::ConventionalMemory
    );
    assert_eq!(
        manager.get(1).unwrap().mem_type,
        EfiMemoryType::ReservedMemoryType
    );
    assert_eq!(manager.free_mem_after_exit_bs(), 10 * 4096);
    assert_eq!(manager.free_mem_after_exit_bs(), 40960);
}

#[test]
fn second_buffer_too_small_is_fatal() {
    let handle = installed_handle();
    let mut manager = EfiMemoryManager::new();
    let buffer = vec![0u8; 64];
    let again = reply(EFI_BUFFER_TOO_SMALL, 16384, &buffer, 0, 0);
    assert_eq!(
        manager.get_memory_map(&handle, MapAttempt::Retry, &again),
        Err(EfiError::SizeNegotiation)
    );
}

#[test]
fn invalid_parameter_is_fatal() {
    let handle = installed_handle();
    let mut manager = EfiMemoryManager::new();
    let buffer = vec![0u8; 64];
    for attempt in [MapAttempt::First, MapAttempt::Retry] {
        let refused = reply(EFI_INVALID_PARAMETER, 64, &buffer, 0, 40);
        assert_eq!(
            manager.get_memory_map(&handle, attempt, &refused),
            Err(EfiError::InvalidParameter)
        );
    }
}

#[test]
fn unexpected_status_is_fatal() {
    let handle = installed_handle();
    let mut manager = EfiMemoryManager::new();
    let buffer = map_buffer(&[descriptor(7, 0x1000, 0, 1, 0)], 40, 40);
    for status in [EFI_NOT_READY, 1, 4, u64::MAX] {
        let odd = reply(status, 40, &buffer, 9, 40);
        assert_eq!(
            manager.get_memory_map(&handle, MapAttempt::First, &odd),
            Err(EfiError::SizeNegotiation)
        );
        assert_eq!(manager.len(), 0);
    }
}

#[test]
fn empty_handle_makes_acquisition_a_no_op() {
    let handle = FirmwareHandle::new();
    let mut manager = EfiMemoryManager::new();
    let buffer = map_buffer(&[descriptor(7, 0x1000, 0, 1, 0)], 40, 40);
    for status in [EFI_SUCCESS, EFI_BUFFER_TOO_SMALL, EFI_INVALID_PARAMETER] {
        let answer = reply(status, 40, &buffer, 9, 40);
        assert_eq!(
            manager.get_memory_map(&handle, MapAttempt::First, &answer),
            Ok(MemoryMapStep::Uninitialized)
        );
        assert_eq!(manager.len(), 0);
    }
}

#[test]
fn larger_descriptors_are_decoded_by_their_prefix() {
    let handle = installed_handle();
    let mut manager = EfiMemoryManager::new();
    let descriptors = [
        descriptor(3, 0x1000, 0, 2, 1),
        descriptor(4, 0x3000, 0, 3, 2),
        descriptor(5, 0x6000, 0, 4, 3),
    ];
    let buffer = map_buffer(&descriptors, 48, 8192);
    // 150 bytes hold three whole descriptors of 48 bytes and six more bytes.
    let answer = reply(EFI_SUCCESS, 150, &buffer, 77, 48);
    assert_eq!(
        manager.get_memory_map(&handle, MapAttempt::First, &answer),
        Ok(MemoryMapStep::Done {
            map_key: 77,
            capacity_exceeded: false,
        })
    );
    assert_eq!(manager.len(), 3);
    assert_eq!(
        manager.get(1),
        Some(EfiMemoryDescriptor {
            mem_type: EfiMemoryType::BootServicesData,
            phys_start: 0x3000,
            virt_start: 0,
            number_pages: 3,
            attr_mask: 2,
        })
    );
    assert_eq!(manager.get(2).unwrap().number_pages, 4);
    assert_eq!(manager.get(3), None);
    assert_eq!(manager.free_mem_after_exit_bs(), 5 * 4096);
}

#[test]
fn only_whole_descriptors_are_taken() {
    let handle = installed_handle();
    let mut manager = EfiMemoryManager::new();
    let descriptors = [
        descriptor(7, 0x1000, 0, 1, 0),
        descriptor(7, 0x2000, 0, 1, 0),
    ];
    let buffer = map_buffer(&descriptors, 40, 80);
    let answer = reply(EFI_SUCCESS, 79, &buffer, 1, 40);
    assert_eq!(
        manager.get_memory_map(&handle, MapAttempt::First, &answer),
        Ok(MemoryMapStep::Done {
            map_key: 1,
            capacity_exceeded: false,
        })
    );
    assert_eq!(manager.len(), 1);
    let answer = reply(EFI_SUCCESS, 39, &buffer, 2, 40);
    assert_eq!(
        manager.get_memory_map(&handle, MapAttempt::First, &answer),
        Ok(MemoryMapStep::Done {
            map_key: 2,
            capacity_exceeded: false,
        })
    );
    assert_eq!(manager.len(), 0);
}

#[test]
fn snapshot_is_replaced_not_appended() {
    let handle = installed_handle();
    let mut manager = EfiMemoryManager::new();
    let first = map_buffer(
        &[
            descriptor(7, 0x1000, 0, 1, 0),
            descriptor(7, 0x2000, 0, 2, 0),
            descriptor(7, 0x4000, 0, 4, 0),
        ],
        40,
        120,
    );
    let answer = reply(EFI_SUCCESS, 120, &first, 1, 40);
    manager
        .get_memory_map(&handle, MapAttempt::First, &answer)
        .unwrap();
    assert_eq!(manager.len(), 3);
    assert_eq!(manager.free_mem_after_exit_bs(), 7 * 4096);

    let second = map_buffer(&[descriptor(1, 0x9000, 0, 8, 0)], 40, 40);
    let answer = reply(EFI_SUCCESS, 40, &second, 2, 40);
    manager
        .get_memory_map(&handle, MapAttempt::First, &answer)
        .unwrap();
    assert_eq!(manager.len(), 1);
    assert_eq!(manager.get(0).unwrap().phys_start, 0x9000);
    assert_eq!(manager.free_mem_after_exit_bs(), 8 * 4096);
}

#[test]
fn refused_reply_keeps_the_snapshot() {
    let handle = installed_handle();
    let mut manager = EfiMemoryManager::new();
    let good = map_buffer(&[descriptor(7, 0x1000, 0, 6, 0)], 40, 40);
    let answer = reply(EFI_SUCCESS, 40, &good, 1, 40);
    manager
        .get_memory_map(&handle, MapAttempt::First, &answer)
        .unwrap();

    // Descriptors smaller than the known fields.
    let answer = reply(EFI_SUCCESS, 40, &good, 2, 39);
    assert_eq!(
        manager.get_memory_map(&handle, MapAttempt::First, &answer),
        Err(EfiError::Validation)
    );
    let answer = reply(EFI_SUCCESS, 40, &good, 2, 0);
    assert_eq!(
        manager.get_memory_map(&handle, MapAttempt::First, &answer),
        Err(EfiError::Validation)
    );
    // A map larger than the buffer.
    let answer = reply(EFI_SUCCESS, 41, &good, 2, 40);
    assert_eq!(
        manager.get_memory_map(&handle, MapAttempt::First, &answer),
        Err(EfiError::OutOfBounds)
    );
    // A descriptor that is not well formed, behind one that is.
    let bad = map_buffer(
        &[descriptor(7, 0x1000, 0, 1, 0), descriptor(7, 0x2000, 0, 0, 0)],
        40,
        80,
    );
    let answer = reply(EFI_SUCCESS, 80, &bad, 2, 40);
    assert_eq!(
        manager.get_memory_map(&handle, MapAttempt::First, &answer),
        Err(EfiError::Validation)
    );
    // Statuses other than success.
    let answer = reply(EFI_BUFFER_TOO_SMALL, 80, &bad, 2, 40);
    assert_eq!(
        manager.get_memory_map(&handle, MapAttempt::First, &answer),
        Ok(MemoryMapStep::Retry { buffer_size: 80 })
    );

    assert_eq!(manager.len(), 1);
    assert_eq!(manager.free_mem_after_exit_bs(), 6 * 4096);
}

#[test]
fn more_reclaimable_memory_than_64_bits_is_invalid() {
    let handle = installed_handle();
    let mut manager = EfiMemoryManager::new();
    let half = 1u64 << 51;
    let fits = map_buffer(
        &[
            descriptor(7, 0, 0, half, 0),
            descriptor(7, 0, 0, half - 1, 0),
            descriptor(0, 0, 0, half, 0),
        ],
        40,
        120,
    );
    let answer = reply(EFI_SUCCESS, 120, &fits, 1, 40);
    assert!(manager
        .get_memory_map(&handle, MapAttempt::First, &answer)
        .is_ok());
    assert_eq!(manager.free_mem_after_exit_bs(), u64::MAX - 4095);

    let overflows = map_buffer(
        &[descriptor(7, 0, 0, half, 0), descriptor(2, 0, 0, half, 0)],
        40,
        80,
    );
    let answer = reply(EFI_SUCCESS, 80, &overflows, 2, 40);
    assert_eq!(
        manager.get_memory_map(&handle, MapAttempt::First, &answer),
        Err(EfiError::Validation)
    );
    assert_eq!(manager.len(), 3);
}

#[test]
fn capacity_exceeded_is_signalled() {
    let handle = installed_handle();
    let mut manager = EfiMemoryManager::new();
    let descriptors: Vec<Vec<u8>> = (0..1001u64)
        .map(|i| descriptor(7, 0x1000 * i, 0, 1, 0))
        .collect();
    let buffer = map_buffer(&descriptors, 40, 1001 * 40);

    let exact = reply(EFI_SUCCESS, 1000 * 40, &buffer, 3, 40);
    assert_eq!(
        manager.get_memory_map(&handle, MapAttempt::First, &exact),
        Ok(MemoryMapStep::Done {
            map_key: 3,
            capacity_exceeded: false,
        })
    );
    assert_eq!(manager.len(), 1000);

    let over = reply(EFI_SUCCESS, 1001 * 40, &buffer, 4, 40);
    assert_eq!(
        manager.get_memory_map(&handle, MapAttempt::First, &over),
        Ok(MemoryMapStep::Done {
            map_key: 4,
            capacity_exceeded: true,
        })
    );
    assert_eq!(manager.len(), 1000);
    assert_eq!(manager.get(999).unwrap().phys_start, 0x1000 * 999);
    assert_eq!(manager.get(1000), None);
    assert_eq!(manager.free_mem_after_exit_bs(), 1000 * 4096);
}

fn acquire(descriptors: &[Vec<u8>]) -> EfiMemoryManager {
    let handle = installed_handle();
    let mut manager = EfiMemoryManager::new();
    let buffer = map_buffer(descriptors, 40, descriptors.len() * 40);
    let answer = reply(EFI_SUCCESS, buffer.len(), &buffer, 0, 40);
    manager
        .get_memory_map(&handle, MapAttempt::First, &answer)
        .unwrap();
    manager
}

#[test]
fn reclaimable_bytes_counts_the_six_kinds_only() {
    for code in 0..16u32 {
        let manager = acquire(&[descriptor(code, 0x1000, 0, 3, 0)]);
        let expected = match code {
            1 | 2 | 3 | 4 | 7 | 14 => 3 * 4096,
            _ => 0,
        };
        assert_eq!(manager.free_mem_after_exit_bs(), expected);
    }
}

#[test]
fn reclaimable_bytes_does_not_depend_on_order() {
    let a = descriptor(7, 0x1000, 0, 10, 0);
    let b = descriptor(0, 0x2000, 0, 5, 0);
    let c = descriptor(3, 0x3000, 0, 7, 0);
    let d = descriptor(9, 0x4000, 0, 11, 0);
    let e = descriptor(14, 0x5000, 0, 1, 0);
    let expected = (10 + 7 + 1) * 4096;
    let orders = [
        vec![a.clone(), b.clone(), c.clone(), d.clone(), e.clone()],
        vec![e.clone(), d.clone(), c.clone(), b.clone(), a.clone()],
        vec![c.clone(), a.clone(), e.clone(), b.clone(), d.clone()],
        vec![b.clone(), d.clone(), a.clone(), e.clone(), c.clone()],
    ];
    for order in orders {
        assert_eq!(acquire(&order).free_mem_after_exit_bs(), expected);
    }
}

#[test]
fn reclaimable_bytes_is_additive() {
    let left = [descriptor(7, 0x1000, 0, 10, 0), descriptor(2, 0x2000, 0, 4, 0)];
    let right = [
        descriptor(5, 0x3000, 0, 9, 0),
        descriptor(4, 0x4000, 0, 1, 0),
        descriptor(1, 0x5000, 0, 2, 0),
    ];
    let mut joined = left.to_vec();
    joined.extend_from_slice(&right);
    assert_eq!(acquire(&left).free_mem_after_exit_bs(), 14 * 4096);
    assert_eq!(acquire(&right).free_mem_after_exit_bs(), 3 * 4096);
    assert_eq!(
        acquire(&joined).free_mem_after_exit_bs(),
        acquire(&left).free_mem_after_exit_bs() + acquire(&right).free_mem_after_exit_bs()
    );
}
