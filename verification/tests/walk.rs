use efi_boot::efi::acpi::header::DescriptionHeader;
use efi_boot::efi::acpi::madt::int_ctrl::{IntCtrl, IntCtrlHeader};
use efi_boot::efi::acpi::madt::io_apic::InOutApic;
use efi_boot::efi::acpi::madt::proc_local::ProcLocalApic;
use efi_boot::efi::acpi::{read_acpi_table, read_rsdp, AcpiEvent, FADT_SIGNATURE, MAX_TABLE_DEPTH};
use efi_boot::efi::EfiError;
use efi_boot::mem::PhysMem;

const BASE: u64 = 0x7ffe_0000;

fn header_bytes(signature: &[u8; 4], length: u32) -> Vec<u8> {
    let mut bytes = Vec::new();
    bytes.extend_from_slice(signature);
    bytes.extend_from_slice(&length.to_le_bytes());
    bytes.push(1);
    bytes.push(0);
    bytes.extend_from_slice(b"VENDOR");
    bytes.extend_from_slice(b"PLATFORM");
    bytes.extend_from_slice(&1u32.to_le_bytes());
    bytes.extend_from_slice(&2u32.to_le_bytes());
    bytes.extend_from_slice(&3u32.to_le_bytes());
    bytes
}

fn header_of(signature: &[u8; 4], length: u32) -> DescriptionHeader {
    DescriptionHeader {
        signature: *signature,
        length,
        revision: 1,
        checksum: 0,
        oemid: *b"VENDOR",
        oem_table_id: *b"PLATFORM",
        oem_revision: 1,
        creator_id: 2,
        creator_revision: 3,
    }
}

fn xsdt(entries: &[u64]) -> Vec<u8> {
    let mut bytes = header_bytes(b"XSDT", 36 + 8 * entries.len() as u32);
    for entry in entries {
        bytes.extend_from_slice(&entry.to_le_bytes());
    }
    bytes
}

fn rsdt(entries: &[u32]) -> Vec<u8> {
    let mut bytes = header_bytes(b"RSDT", 36 + 4 * entries.len() as u32);
    for entry in entries {
        bytes.extend_from_slice(&entry.to_le_bytes());
    }
    bytes
}

fn madt(records: &[Vec<u8>]) -> Vec<u8> {
    let payload: usize = records.iter().map(|r| r.len()).sum();
    let mut bytes = header_bytes(b"APIC", 44 + payload as u32);
    bytes.extend_from_slice(&0xfee0_0000u32.to_le_bytes());
    bytes.extend_from_slice(&1u32.to_le_bytes());
    for record in records {
        bytes.extend_from_slice(record);
    }
    bytes
}

fn proc_local(uid: u8, apic_id: u8) -> Vec<u8> {
    vec![0, 8, uid, apic_id, 1, 0, 0, 0]
}

fn io_apic(id: u8) -> Vec<u8> {
    let mut r = vec![1, 12, id, 0];
    r.extend_from_slice(&0xfec0_0000u32.to_le_bytes());
    r.extend_from_slice(&0u32.to_le_bytes());
    r
}

fn rsdp(rsdt_addr: u32, xsdt_addr: u64) -> Vec<u8> {
    let mut bytes = Vec::new();
    bytes.extend_from_slice(b"RSD PTR ");
    bytes.push(0);
    bytes.extend_from_slice(b"VENDOR");
    bytes.push(2);
    bytes.extend_from_slice(&rsdt_addr.to_le_bytes());
    bytes.extend_from_slice(&36u32.to_le_bytes());
    bytes.extend_from_slice(&xsdt_addr.to_le_bytes());
    bytes.push(0);
    bytes.extend_from_slice(&[0, 0, 0]);
    bytes
}

/// Memory from `BASE` on, with each table at its offset.
fn image(tables: &[(u64, Vec<u8>)]) -> Vec<u8> {
    let size = tables
        .iter()
        .map(|(offset, bytes)| *offset as usize + bytes.len())
        .max()
        .unwrap_or(0);
    let mut image = vec![0u8; size];
    for (offset, bytes) in tables {
        let at = *offset as usize;
        image[at..at + bytes.len()].copy_from_slice(bytes);
    }
    image
}

fn proc_event(uid: u8, apic_id: u8) -> AcpiEvent {
    AcpiEvent::IntCtrl(IntCtrl::ProcLocalApic(ProcLocalApic {
        header: IntCtrlHeader {
            ctrl_type: 0,
            length: 8,
        },
        acpi_processor_uid: uid,
        apic_id,
        flags: 1,
    }))
}

fn io_apic_event(id: u8) -> AcpiEvent {
    AcpiEvent::IntCtrl(IntCtrl::InOutApic(InOutApic {
        header: IntCtrlHeader {
            ctrl_type: 1,
            length: 12,
        },
        io_apic_id: id,
        reserved: 0,
        io_apic_addr: 0xfec0_0000,
        global_system_int_base: 0,
    }))
}

#[test]
fn unknown_table_is_skipped_without_stopping_the_walk() {
    let memory = image(&[
        (
            0x0000,
            xsdt(&[BASE + 0x1000, BASE + 0x2000, BASE + 0x3000]),
        ),
        (0x1000, madt(&[proc_local(0, 0), io_apic(1)])),
        (0x2000, header_bytes(b"FACP", 244)),
        (0x3000, header_bytes(b"XYZZ", 36)),
    ]);
    let mem = PhysMem::new(BASE, &memory);
    let events = read_acpi_table(&mem, BASE, MAX_TABLE_DEPTH);
    assert_eq!(
        events,
        vec![
            AcpiEvent::EntryTable {
                addr: BASE,
                header: header_of(b"XSDT", 60),
                count: 3,
            },
            AcpiEvent::Madt {
                addr: BASE + 0x1000,
                header: header_of(b"APIC", 64),
                lic_addr: 0xfee0_0000,
                flags: 1,
            },
            proc_event(0, 0),
            io_apic_event(1),
            AcpiEvent::Fadt {
                addr: BASE + 0x2000,
                header: header_of(b"FACP", 244),
            },
            AcpiEvent::Unsupported {
                addr: BASE + 0x3000,
                header: header_of(b"XYZZ", 36),
            },
        ]
    );
}

#[test]
fn siblings_of_an_unknown_table_are_visited() {
    let memory = image(&[
        (
            0x0000,
            xsdt(&[BASE + 0x3000, BASE + 0x2000, BASE + 0x1000]),
        ),
        (0x1000, madt(&[proc_local(5, 6)])),
        (0x2000, header_bytes(b"FACP", 244)),
        (0x3000, header_bytes(b"XYZZ", 36)),
    ]);
    let mem = PhysMem::new(BASE, &memory);
    let events = read_acpi_table(&mem, BASE, 1);
    assert_eq!(events.len(), 5);
    assert!(matches!(events[1], AcpiEvent::Unsupported { addr, .. } if addr == BASE + 0x3000));
    assert!(matches!(events[2], AcpiEvent::Fadt { addr, .. } if addr == BASE + 0x2000));
    assert!(matches!(events[3], AcpiEvent::Madt { addr, .. } if addr == BASE + 0x1000));
    assert_eq!(events[4], proc_event(5, 6));
}

#[test]
fn single_tables() {
    let memory = image(&[
        (0x000, header_bytes(b"FACP", 36)),
        (0x100, header_bytes(b"HPET", 56)),
        (0x200, madt(&[])),
    ]);
    let mem = PhysMem::new(BASE, &memory);
    assert_eq!(FADT_SIGNATURE, *b"FACP");
    assert_eq!(
        read_acpi_table(&mem, BASE, 0),
        vec![AcpiEvent::Fadt {
            addr: BASE,
            header: header_of(b"FACP", 36),
        }]
    );
    assert_eq!(
        read_acpi_table(&mem, BASE + 0x100, 0),
        vec![AcpiEvent::Unsupported {
            addr: BASE + 0x100,
            header: header_of(b"HPET", 56),
        }]
    );
    assert_eq!(
        read_acpi_table(&mem, BASE + 0x200, 0),
        vec![AcpiEvent::Madt {
            addr: BASE + 0x200,
            header: header_of(b"APIC", 44),
            lic_addr: 0xfee0_0000,
            flags: 1,
        }]
    );
}

#[test]
fn unreadable_and_malformed_tables_are_reported() {
    let mut short_header = header_bytes(b"FACP", 20);
    short_header.truncate(36);
    let mut broken_madt = madt(&[proc_local(0, 0)]);
    broken_madt[45] = 0;
    let memory = image(&[
        (
            0x0000,
            xsdt(&[
                0x10,
                BASE + 0x1000,
                BASE + 0x2000,
                BASE + 0x3000,
                BASE + 0x4000,
                u64::MAX,
            ]),
        ),
        (0x1000, short_header),
        (0x2000, broken_madt),
        (0x3000, header_bytes(b"FACP", 36)),
        // An entry table that says it has more entries than memory holds.
        (0x4000, header_bytes(b"XSDT", 36 + 8 * 1000)),
    ]);
    let mem = PhysMem::new(BASE, &memory);
    let events = read_acpi_table(&mem, BASE, 3);
    assert_eq!(
        events,
        vec![
            AcpiEvent::EntryTable {
                addr: BASE,
                header: header_of(b"XSDT", 36 + 48),
                count: 6,
            },
            AcpiEvent::Failed {
                addr: 0x10,
                error: EfiError::OutOfBounds,
            },
            AcpiEvent::Failed {
                addr: BASE + 0x1000,
                error: EfiError::Validation,
            },
            AcpiEvent::Failed {
                addr: BASE + 0x2000,
                error: EfiError::Validation,
            },
            AcpiEvent::Fadt {
                addr: BASE + 0x3000,
                header: header_of(b"FACP", 36),
            },
            AcpiEvent::Failed {
                addr: BASE + 0x4000,
                error: EfiError::OutOfBounds,
            },
            AcpiEvent::Failed {
                addr: u64::MAX,
                error: EfiError::OutOfBounds,
            },
        ]
    );
}

#[test]
fn madt_beyond_capacity_is_reported_with_a_signal() {
    let records: Vec<Vec<u8>> = (0..33u8).map(|i| proc_local(i, i)).collect();
    let memory = image(&[(0, madt(&records))]);
    let mem = PhysMem::new(BASE, &memory);
    let events = read_acpi_table(&mem, BASE, 0);
    assert_eq!(events.len(), 1 + 32 + 1);
    assert!(matches!(events[0], AcpiEvent::Madt { addr, .. } if addr == BASE));
    for i in 0..32u8 {
        assert_eq!(events[1 + i as usize], proc_event(i, i));
    }
    assert_eq!(events[33], AcpiEvent::CapacityExceeded { addr: BASE });
}

#[test]
fn rsdt_entries_are_walked_as_32_bit_addresses() {
    let low: u64 = 0x000f_0000;
    let memory = image(&[
        (0x0000, rsdt(&[0x000f_1000, 0x000f_2000])),
        (0x1000, header_bytes(b"FACP", 116)),
        (0x2000, madt(&[io_apic(9)])),
    ]);
    let mem = PhysMem::new(low, &memory);
    assert_eq!(
        read_acpi_table(&mem, low, 2),
        vec![
            AcpiEvent::EntryTable {
                addr: low,
                header: header_of(b"RSDT", 44),
                count: 2,
            },
            AcpiEvent::Fadt {
                addr: low + 0x1000,
                header: header_of(b"FACP", 116),
            },
            AcpiEvent::Madt {
                addr: low + 0x2000,
                header: header_of(b"APIC", 56),
                lic_addr: 0xfee0_0000,
                flags: 1,
            },
            io_apic_event(9),
        ]
    );
}

#[test]
fn nested_entry_tables_are_walked_depth_first() {
    let memory = image(&[
        (0x0000, xsdt(&[BASE + 0x1000, BASE + 0x3000])),
        (0x1000, xsdt(&[BASE + 0x2000])),
        (0x2000, header_bytes(b"AAAA", 36)),
        (0x3000, header_bytes(b"BBBB", 36)),
    ]);
    let mem = PhysMem::new(BASE, &memory);
    assert_eq!(
        read_acpi_table(&mem, BASE, 2),
        vec![
            AcpiEvent::EntryTable {
                addr: BASE,
                header: header_of(b"XSDT", 52),
                count: 2,
            },
            AcpiEvent::EntryTable {
                addr: BASE + 0x1000,
                header: header_of(b"XSDT", 44),
                count: 1,
            },
            AcpiEvent::Unsupported {
                addr: BASE + 0x2000,
                header: header_of(b"AAAA", 36),
            },
            AcpiEvent::Unsupported {
                addr: BASE + 0x3000,
                header: header_of(b"BBBB", 36),
            },
        ]
    );
}

#[test]
fn entry_tables_below_the_depth_are_not_entered() {
    let memory = image(&[
        (0x0000, xsdt(&[BASE + 0x1000, BASE + 0x3000])),
        (0x1000, xsdt(&[BASE + 0x2000])),
        (0x2000, header_bytes(b"AAAA", 36)),
        (0x3000, header_bytes(b"BBBB", 36)),
    ]);
    let mem = PhysMem::new(BASE, &memory);
    assert_eq!(
        read_acpi_table(&mem, BASE, 0),
        vec![AcpiEvent::DepthExceeded { addr: BASE }]
    );
    assert_eq!(
        read_acpi_table(&mem, BASE, 1),
        vec![
            AcpiEvent::EntryTable {
                addr: BASE,
                header: header_of(b"XSDT", 52),
                count: 2,
            },
            AcpiEvent::DepthExceeded {
                addr: BASE + 0x1000,
            },
            AcpiEvent::Unsupported {
                addr: BASE + 0x3000,
                header: header_of(b"BBBB", 36),
            },
        ]
    );
}

#[test]
fn entry_table_that_lists_itself_ends_at_the_depth() {
    let memory = image(&[(0, xsdt(&[BASE, BASE + 0x100])), (0x100, header_bytes(b"FACP", 36))]);
    let mem = PhysMem::new(BASE, &memory);
    let events = read_acpi_table(&mem, BASE, 3);
    let entry_tables = events
        .iter()
        .filter(|e| matches!(e, AcpiEvent::EntryTable { .. }))
        .count();
    let limits = events
        .iter()
        .filter(|e| matches!(e, AcpiEvent::DepthExceeded { .. }))
        .count();
    let fadts = events
        .iter()
        .filter(|e| matches!(e, AcpiEvent::Fadt { .. }))
        .count();
    assert_eq!((entry_tables, limits, fadts), (3, 1, 3));
    assert_eq!(events.len(), 7);
    assert_eq!(events[3], AcpiEvent::DepthExceeded { addr: BASE });
}

#[test]
fn root_pointer_walks_the_xsdt_then_the_rsdt() {
    let low: u64 = 0x000e_0000;
    let memory = image(&[
        (0x0000, rsdp(0x000e_2000, low + 0x1000)),
        (0x1000, xsdt(&[low + 0x3000])),
        (0x2000, rsdt(&[0x000e_4000])),
        (0x3000, madt(&[proc_local(0, 0)])),
        (0x4000, header_bytes(b"FACP", 36)),
    ]);
    let mem = PhysMem::new(low, &memory);
    let (root, events) = read_rsdp(&mem, low, MAX_TABLE_DEPTH).unwrap();
    assert_eq!(root.signature, *b"RSD PTR ");
    assert_eq!(root.xsdt_addr, low + 0x1000);
    assert_eq!(root.rsdt_addr, 0x000e_2000);
    assert_eq!(root.revision, 2);
    assert_eq!(
        events,
        vec![
            AcpiEvent::EntryTable {
                addr: low + 0x1000,
                header: header_of(b"XSDT", 44),
                count: 1,
            },
            AcpiEvent::Madt {
                addr: low + 0x3000,
                header: header_of(b"APIC", 52),
                lic_addr: 0xfee0_0000,
                flags: 1,
            },
            proc_event(0, 0),
            AcpiEvent::EntryTable {
                addr: low + 0x2000,
                header: header_of(b"RSDT", 40),
                count: 1,
            },
            AcpiEvent::Fadt {
                addr: low + 0x4000,
                header: header_of(b"FACP", 36),
            },
        ]
    );
}

#[test]
fn root_pointer_with_a_missing_root_table_still_walks_the_other() {
    let low: u64 = 0x000e_0000;
    let memory = image(&[
        (0x0000, rsdp(0x000e_2000, 0)),
        (0x2000, rsdt(&[])),
    ]);
    let mem = PhysMem::new(low, &memory);
    let (_, events) = read_rsdp(&mem, low, 1).unwrap();
    assert_eq!(
        events,
        vec![
            AcpiEvent::Failed {
                addr: 0,
                error: EfiError::OutOfBounds,
            },
            AcpiEvent::EntryTable {
                addr: low + 0x2000,
                header: header_of(b"RSDT", 36),
                count: 0,
            },
        ]
    );
}

#[test]
fn root_pointer_that_is_refused_stops_the_walk() {
    let low: u64 = 0x000e_0000;
    let mut bad = rsdp(0x000e_2000, 0);
    bad[3] = b'_';
    let memory = image(&[(0x0000, bad), (0x2000, rsdt(&[]))]);
    let mem = PhysMem::new(low, &memory);
    assert_eq!(read_rsdp(&mem, low, 1).unwrap_err(), EfiError::Validation);
    assert_eq!(
        read_rsdp(&mem, low + 0x2000, 1).unwrap_err(),
        EfiError::Validation
    );
    assert_eq!(
        read_rsdp(&mem, low + 0x2010, 1).unwrap_err(),
        EfiError::OutOfBounds
    );
}
