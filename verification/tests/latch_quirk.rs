//! Address-register latch and type-1 probe behavior of the quirk-only host.

use pci_host::host::PciHost;
use pci_host::ops::PciError;
use pci_host::ops::PioOps;

#[test]
fn port_range_covers_both_registers() {
    let host = PciHost::new();
    assert_eq!(host.port_range(), 0xcf8..0xd00);
}

#[test]
fn new_host_latch_starts_at_zero() {
    let mut host = PciHost::new();
    assert_eq!(host.read(0xcf8, 4), Ok(0));
}

#[test]
fn latch_write_read_round_trip() {
    let mut host = PciHost::new();
    assert_eq!(host.write(0xcf8, 4, 0x8000_1234), Ok(()));
    assert_eq!(host.read(0xcf8, 4), Ok(0x8000_1234));
    assert_eq!(host.write(0xcf8, 4, 0), Ok(()));
    assert_eq!(host.read(0xcf8, 4), Ok(0));
}

#[test]
fn latch_read_widths_little_endian() {
    let mut host = PciHost::new();
    assert_eq!(host.write(0xcf8, 4, 0x89ab_cdef), Ok(()));
    assert_eq!(host.read(0xcf8, 1), Ok(0xef));
    assert_eq!(host.read(0xcf8, 2), Ok(0xcdef));
    assert_eq!(host.read(0xcf8, 4), Ok(0x89ab_cdef));
    // Sub-ports of the address register answer with the same low bytes.
    assert_eq!(host.read(0xcf9, 1), Ok(0xef));
    assert_eq!(host.read(0xcfb, 2), Ok(0xcdef));
}

#[test]
fn invalid_address_port_writes_rejected_and_latch_kept() {
    let mut host = PciHost::new();
    assert_eq!(host.write(0xcf8, 4, 0x1111_2222), Ok(()));
    // Wrong sub-port.
    assert_eq!(host.write(0xcf9, 2, 7), Err(PciError::InvalidPortWrite));
    assert_eq!(host.write(0xcfa, 4, 7), Err(PciError::InvalidPortWrite));
    // Wrong width at the base.
    assert_eq!(host.write(0xcf8, 1, 1), Err(PciError::InvalidPortWrite));
    assert_eq!(host.write(0xcf8, 2, 7), Err(PciError::InvalidPortWrite));
    // A 1-byte probe-port write of a value other than 1 does not arm; it
    // falls through to ordinary latch-write validation and is rejected.
    assert_eq!(host.write(0xcfb, 1, 2), Err(PciError::InvalidPortWrite));
    // Nothing above touched the latch.
    assert_eq!(host.read(0xcf8, 4), Ok(0x1111_2222));
}

#[test]
fn invalid_width_reads_rejected_and_latch_kept() {
    let mut host = PciHost::new();
    assert_eq!(host.write(0xcf8, 4, 0x1357_9bdf), Ok(()));
    assert_eq!(host.read(0xcf8, 3), Err(PciError::InvalidPortRead));
    assert_eq!(host.read(0xcf8, 8), Err(PciError::InvalidPortRead));
    assert_eq!(host.read(0xcfa, 0), Err(PciError::InvalidPortRead));
    assert_eq!(host.read(0xcf8, 4), Ok(0x1357_9bdf));
}

#[test]
fn type1_probe_sequence_returns_sentinel_once() {
    let mut host = PciHost::new();
    assert_eq!(host.write(0xcf8, 4, 0x1234), Ok(()));
    // Arm: 1-byte write of 1 to 0xcfb.
    assert_eq!(host.write(0xcfb, 1, 1), Ok(()));
    // Re-latch attempt while armed: accepted, advances the probe, but the
    // value is not stored.
    assert_eq!(host.write(0xcf8, 4, 0xdead_beef), Ok(()));
    // Armed 4-byte read of the base: the sentinel, then back to idle.
    assert_eq!(host.read(0xcf8, 4), Ok(0x8000_0000));
    // Without re-arming, the ordinary latch value comes back.
    assert_eq!(host.read(0xcf8, 4), Ok(0x1234));
}

#[test]
fn armed_word_still_latches_ordinary_writes() {
    let mut host = PciHost::new();
    assert_eq!(host.write(0xcfb, 1, 1), Ok(()));
    assert_eq!(host.write(0xcf8, 4, 0x0101_0101), Ok(()));
    // The probe now awaits its read; a further 4-byte write latches normally
    // and leaves the probe armed.
    assert_eq!(host.write(0xcf8, 4, 0x0202_0202), Ok(()));
    assert_eq!(host.read(0xcf8, 4), Ok(0x8000_0000));
    assert_eq!(host.read(0xcf8, 4), Ok(0x0202_0202));
}

#[test]
fn narrow_armed_read_does_not_consume_probe() {
    let mut host = PciHost::new();
    assert_eq!(host.write(0xcf8, 4, 0x4455_6677), Ok(()));
    assert_eq!(host.write(0xcfb, 1, 1), Ok(()));
    assert_eq!(host.write(0xcf8, 4, 0), Ok(()));
    // A 1-byte read of the base is an ordinary latch read; the probe stays
    // armed for the 4-byte read after it.
    assert_eq!(host.read(0xcf8, 1), Ok(0x77));
    assert_eq!(host.read(0xcf8, 4), Ok(0x8000_0000));
}

#[test]
fn quirk_only_data_reads_are_all_ones() {
    let mut host = PciHost::new();
    assert_eq!(host.write(0xcf8, 4, 0x8000_0000), Ok(()));
    assert_eq!(host.read(0xcfc, 1), Ok(0xff));
    assert_eq!(host.read(0xcfd, 2), Ok(0xffff));
    assert_eq!(host.read(0xcfc, 4), Ok(0xffff_ffff));
    assert_eq!(host.read(0xcfc, 3), Err(PciError::InvalidPortRead));
}

#[test]
fn quirk_only_data_writes_are_no_ops() {
    let mut host = PciHost::new();
    assert_eq!(host.write(0xcf8, 4, 0x8000_0000), Ok(()));
    assert_eq!(host.write(0xcfc, 4, 0x5555_aaaa), Ok(()));
    // Deliberate no-op even for an odd width: no table is configured.
    assert_eq!(host.write(0xcfe, 7, 1), Ok(()));
    assert_eq!(host.read(0xcfc, 4), Ok(0xffff_ffff));
}
