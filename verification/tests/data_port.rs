//! Data-register accesses of a bus-backed host: device resolution, byte-lane
//! extraction, the all-ones no-device answer, and offset wraparound.

use pci_host::bus::PciBus;
use pci_host::bus::PciDevice;
use pci_host::host::PciHost;
use pci_host::ops::PciError;
use pci_host::ops::PioOps;

fn latch_for(bus: u32, devfn: u32, offset: u32) -> u32 {
    0x8000_0000 | (bus << 16) | (devfn << 8) | offset
}

fn host_with_devices(devices: &[(u8, u8)]) -> PciHost {
    let mut bus = PciBus::new();
    for (bus_num, devfn) in devices {
        assert!(bus.add_device(PciDevice::new(*bus_num, *devfn)));
    }
    PciHost::with_root_bus(bus)
}

#[test]
fn absent_device_reads_all_ones() {
    let mut host = host_with_devices(&[(0, 8)]);
    assert_eq!(host.write(0xcf8, 4, latch_for(0, 9, 0)), Ok(()));
    assert_eq!(host.read(0xcfc, 1), Ok(0xff));
    assert_eq!(host.read(0xcfc, 2), Ok(0xffff));
    assert_eq!(host.read(0xcfc, 4), Ok(0xffff_ffff));
    assert_eq!(host.write(0xcf8, 4, latch_for(5, 0, 0)), Ok(()));
    assert_eq!(host.read(0xcfc, 4), Ok(0xffff_ffff));
}

#[test]
fn absent_device_write_is_dropped() {
    let mut host = host_with_devices(&[(0, 8)]);
    // Write to an unpopulated slot: accepted and dropped.
    assert_eq!(host.write(0xcf8, 4, latch_for(0, 9, 0x10)), Ok(()));
    assert_eq!(host.write(0xcfc, 4, 0x0102_0304), Ok(()));
    assert_eq!(host.read(0xcfc, 4), Ok(0xffff_ffff));
    // The present device's window is untouched (it was all zero).
    assert_eq!(host.write(0xcf8, 4, latch_for(0, 8, 0x10)), Ok(()));
    assert_eq!(host.read(0xcfc, 4), Ok(0));
}

#[test]
fn device_write_read_round_trip_word() {
    let mut host = host_with_devices(&[(0, 0x10)]);
    assert_eq!(host.write(0xcf8, 4, latch_for(0, 0x10, 0x40)), Ok(()));
    assert_eq!(host.write(0xcfc, 4, 0xa1b2_c3d4), Ok(()));
    assert_eq!(host.read(0xcfc, 4), Ok(0xa1b2_c3d4));
    assert_eq!(host.read(0xcfc, 2), Ok(0xc3d4));
    assert_eq!(host.read(0xcfc, 1), Ok(0xd4));
    // The lanes next to it see the written bytes too.
    assert_eq!(host.read(0xcfd, 1), Ok(0xc3));
    assert_eq!(host.read(0xcff, 1), Ok(0xa1));
}

#[test]
fn device_write_read_round_trip_narrow() {
    let mut host = host_with_devices(&[(2, 0x33)]);
    assert_eq!(host.write(0xcf8, 4, latch_for(2, 0x33, 0x20)), Ok(()));
    assert_eq!(host.write(0xcfc, 2, 0xbeef), Ok(()));
    assert_eq!(host.read(0xcfc, 2), Ok(0xbeef));
    // A 2-byte write only touches its two lanes.
    assert_eq!(host.read(0xcfc, 4), Ok(0x0000_beef));
    // A 1-byte write through lane 2 of the data register.
    assert_eq!(host.write(0xcfe, 1, 0x55), Ok(()));
    assert_eq!(host.read(0xcfc, 4), Ok(0x0055_beef));
}

#[test]
fn enable_bit_clear_rejects_data_access() {
    let mut host = host_with_devices(&[(0, 0)]);
    assert_eq!(host.write(0xcf8, 4, 0x0000_0000), Ok(()));
    assert_eq!(host.read(0xcfc, 4), Err(PciError::InvalidPortRead));
    assert_eq!(host.write(0xcfc, 4, 1), Err(PciError::InvalidPortWrite));
    // With the enable bit set, the same target answers.
    assert_eq!(host.write(0xcf8, 4, latch_for(0, 0, 0)), Ok(()));
    assert_eq!(host.read(0xcfc, 4), Ok(0));
}

#[test]
fn invalid_width_data_access_rejected() {
    let mut host = host_with_devices(&[(0, 0)]);
    assert_eq!(host.write(0xcf8, 4, latch_for(0, 0, 0)), Ok(()));
    assert_eq!(host.read(0xcfc, 3), Err(PciError::InvalidPortRead));
    assert_eq!(host.read(0xcfd, 8), Err(PciError::InvalidPortRead));
    assert_eq!(host.write(0xcfc, 3, 1), Err(PciError::InvalidPortWrite));
    assert_eq!(host.write(0xcfc, 5, 1), Err(PciError::InvalidPortWrite));
    // The rejected accesses wrote nothing.
    assert_eq!(host.read(0xcfc, 4), Ok(0));
}

#[test]
fn effective_offset_wraps_into_same_window() {
    // Latch offset 0xff plus data-port lane 3 carries into the device/
    // function byte and wraps the register offset to 0x02.
    let mut host = host_with_devices(&[(0, 0), (0, 1)]);
    assert_eq!(host.write(0xcf8, 4, latch_for(0, 0, 0xff)), Ok(()));
    assert_eq!(host.write(0xcff, 1, 0xab), Ok(()));
    // The byte landed at offset 0x02 of devfn 1.
    assert_eq!(host.write(0xcf8, 4, latch_for(0, 1, 0x02)), Ok(()));
    assert_eq!(host.read(0xcfc, 1), Ok(0xab));
    // Devfn 0 is untouched, in particular at its own offsets 0xff and 0x02.
    assert_eq!(host.write(0xcf8, 4, latch_for(0, 0, 0xfc)), Ok(()));
    assert_eq!(host.read(0xcff, 1), Ok(0));
    assert_eq!(host.write(0xcf8, 4, latch_for(0, 0, 0x02)), Ok(()));
    assert_eq!(host.read(0xcfc, 1), Ok(0));
}

#[test]
fn window_edge_write_drops_excess_bytes() {
    // A 4-byte write at register offset 0xfe keeps its two in-window bytes;
    // the other two are dropped and read back as all-ones lanes.
    let mut host = host_with_devices(&[(0, 4)]);
    assert_eq!(host.write(0xcf8, 4, latch_for(0, 4, 0xfc)), Ok(()));
    assert_eq!(host.write(0xcfe, 2, 0xbeef), Ok(()));
    assert_eq!(host.read(0xcfe, 2), Ok(0xbeef));
    assert_eq!(host.write(0xcf8, 4, latch_for(0, 4, 0xfe)), Ok(()));
    assert_eq!(host.read(0xcfc, 4), Ok(0xffff_beef));
}

#[test]
fn bus_table_registration_and_lookup() {
    let mut bus = PciBus::new();
    assert!(bus.get_device(0, 0).is_none());
    let dev = PciDevice::new(0, 0x2a);
    assert_eq!(dev.bus_num(), 0);
    assert_eq!(dev.devfn(), 0x2a);
    assert!(bus.add_device(dev));
    // A second device with the same key is refused.
    assert!(!bus.add_device(PciDevice::new(0, 0x2a)));
    assert!(bus.add_device(PciDevice::new(1, 0x2a)));
    let found = bus.get_device(0, 0x2a).expect("device present");
    assert_eq!(found.byte_at(0), 0);
    assert_eq!(found.byte_at(255), 0);
    assert!(bus.get_device(0, 0x2b).is_none());
}

#[test]
fn device_storage_backed_config_access() {
    let mut dev = PciDevice::new(3, 7);
    let bytes = vec![0x11u8, 0x22, 0x33];
    dev.write_config(0x80, &bytes);
    let mut out = vec![0u8; 4];
    dev.read_config(0x80, &mut out);
    assert_eq!(out, vec![0x11, 0x22, 0x33, 0x00]);
    // A read straddling the top of the window leaves the excess lanes as
    // handed in.
    let mut edge = vec![0xaau8; 4];
    dev.write_config(0xfe, &bytes);
    dev.read_config(0xfe, &mut edge);
    assert_eq!(edge, vec![0x11, 0x22, 0xaa, 0xaa]);
}
