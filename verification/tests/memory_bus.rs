use zmu_cortex_m::bus::{
    AHBLite, Bus, BusMatrix, InternalBus, SYST_CALIB_ADDR, SYST_CSR_ADDR, SYST_CVR_ADDR,
    SYST_RVR_ADDR,
};
use zmu_cortex_m::fault::Fault;
use zmu_cortex_m::memory::{FlashMemory, RAM};

fn flash_with(code: &[u8]) -> FlashMemory {
    let mut flash = FlashMemory::new(0, 32768);
    flash.load(code);
    flash
}

fn matrix(code: &[u8]) -> BusMatrix {
    BusMatrix::new(
        InternalBus::new(),
        AHBLite::new(flash_with(code), RAM::new(0x2000_0000, 128 * 1024)),
    )
}

#[test]
fn ram_starts_zero_and_keeps_what_is_written() {
    let mut ram = RAM::new(0x2000_0000, 1024);
    assert_eq!(ram.size(), 1024);
    assert_eq!(ram.start_address(), 0x2000_0000);
    assert_eq!(ram.read32(0x2000_0000), Ok(0));
    assert_eq!(ram.read8(0x2000_03ff), Ok(0));
    assert_eq!(ram.write32(0x2000_0010, 0x1234_5678), Ok(()));
    assert_eq!(ram.read32(0x2000_0010), Ok(0x1234_5678));
    assert_eq!(ram.write16(0x2000_0020, 0xbeef), Ok(()));
    assert_eq!(ram.read16(0x2000_0020), Ok(0xbeef));
    assert_eq!(ram.write8(0x2000_0030, 0x5a), Ok(()));
    assert_eq!(ram.read8(0x2000_0030), Ok(0x5a));
}

#[test]
fn words_are_little_endian() {
    let mut ram = RAM::new(0x2000_0000, 64);
    ram.write32(0x2000_0000, 0x1234_5678).unwrap();
    assert_eq!(ram.read8(0x2000_0000), Ok(0x78));
    assert_eq!(ram.read8(0x2000_0001), Ok(0x56));
    assert_eq!(ram.read8(0x2000_0002), Ok(0x34));
    assert_eq!(ram.read8(0x2000_0003), Ok(0x12));
    assert_eq!(ram.read16(0x2000_0000), Ok(0x5678));
    assert_eq!(ram.read16(0x2000_0002), Ok(0x1234));
    ram.write16(0x2000_0008, 0xa1b2).unwrap();
    assert_eq!(ram.read8(0x2000_0008), Ok(0xb2));
    assert_eq!(ram.read8(0x2000_0009), Ok(0xa1));
    ram.write8(0x2000_0010, 0x11).unwrap();
    ram.write8(0x2000_0011, 0x22).unwrap();
    ram.write8(0x2000_0012, 0x33).unwrap();
    ram.write8(0x2000_0013, 0x44).unwrap();
    assert_eq!(ram.read32(0x2000_0010), Ok(0x4433_2211));
}

#[test]
fn unaligned_accesses_are_served() {
    let mut ram = RAM::new(0x2000_0000, 64);
    ram.write32(0x2000_0001, 0xaabb_ccdd).unwrap();
    assert_eq!(ram.read32(0x2000_0001), Ok(0xaabb_ccdd));
    assert_eq!(ram.read16(0x2000_0003), Ok(0xaabb));
    assert_eq!(ram.read8(0x2000_0000), Ok(0));
}

#[test]
fn accesses_outside_a_device_fault() {
    let mut ram = RAM::new(0x2000_0000, 16);
    assert_eq!(ram.read8(0x1fff_ffff), Err(Fault::BusFault));
    assert_eq!(ram.read8(0x2000_0010), Err(Fault::BusFault));
    assert_eq!(ram.read16(0x2000_000f), Err(Fault::BusFault));
    assert_eq!(ram.read32(0x2000_000d), Err(Fault::BusFault));
    assert_eq!(ram.read32(0x2000_000c), Ok(0));
    assert_eq!(ram.write32(0x2000_000e, 1), Err(Fault::BusFault));
    assert_eq!(ram.read16(0x2000_000e), Ok(0));
    assert_eq!(ram.write8(0xffff_ffff, 1), Err(Fault::BusFault));
    assert!(ram.in_range(0x2000_000f));
    assert!(!ram.in_range(0x2000_0010));
}

#[test]
fn device_at_the_top_of_the_address_space() {
    let mut ram = RAM::new(0xffff_fff0, 16);
    assert_eq!(ram.write32(0xffff_fffc, 0x0102_0304), Ok(()));
    assert_eq!(ram.read32(0xffff_fffc), Ok(0x0102_0304));
    assert_eq!(ram.read32(0xffff_fffd), Err(Fault::BusFault));
    assert_eq!(ram.read8(0xffff_ffff), Ok(0x01));
}

#[test]
fn flash_holds_the_image_and_zero_behind_it() {
    let flash = flash_with(&[1, 2, 3, 4, 5]);
    assert_eq!(flash.size(), 32768);
    assert_eq!(flash.read32(0), Ok(0x0403_0201));
    assert_eq!(flash.read8(4), Ok(5));
    assert_eq!(flash.read8(5), Ok(0));
    assert_eq!(flash.read32(32764), Ok(0));
    assert_eq!(flash.read32(32765), Err(Fault::BusFault));
}

#[test]
fn flash_refuses_writes_and_keeps_its_contents() {
    let mut flash = flash_with(&[0xaa, 0xbb, 0xcc, 0xdd]);
    assert_eq!(flash.write8(0, 1), Err(Fault::BusFault));
    assert_eq!(flash.write16(0, 1), Err(Fault::BusFault));
    assert_eq!(flash.write32(0, 1), Err(Fault::BusFault));
    assert_eq!(flash.read32(0), Ok(0xddcc_bbaa));
}

#[test]
fn a_write_through_the_bus_to_flash_is_a_bus_fault() {
    let mut bus = matrix(&[0x11, 0x22, 0x33, 0x44]);
    for addr in [0u32, 1, 2, 100, 32767] {
        let before = bus.read8(addr);
        assert_eq!(bus.write8(addr, 0xff), Err(Fault::BusFault));
        assert_eq!(bus.read8(addr), before);
    }
    assert_eq!(bus.write32(0, 0xffff_ffff), Err(Fault::BusFault));
    assert_eq!(bus.write16(2, 0xffff), Err(Fault::BusFault));
    assert_eq!(bus.read32(0), Ok(0x4433_2211));
}

#[test]
fn the_bus_routes_by_address() {
    let mut bus = matrix(&[0x11, 0x22, 0x33, 0x44]);
    assert_eq!(bus.read16(0), Ok(0x2211));
    assert_eq!(bus.write32(0x2000_0000, 0xcafe_f00d), Ok(()));
    assert_eq!(bus.read32(0x2000_0000), Ok(0xcafe_f00d));
    assert_eq!(bus.read8(0x2001_ffff), Ok(0));
    assert_eq!(bus.read8(0x2002_0000), Err(Fault::BusFault));
    assert_eq!(bus.read32(0x1000_0000), Err(Fault::BusFault));
    assert_eq!(bus.write32(0x4000_0000, 1), Err(Fault::BusFault));
    assert!(bus.in_range(0));
    assert!(bus.in_range(0x2000_0000));
    assert!(bus.in_range(SYST_CSR_ADDR));
    assert!(!bus.in_range(0x8000));
    assert!(!bus.in_range(0xE000_E020));
}

#[test]
fn timer_registers_live_on_the_internal_bus() {
    let mut bus = matrix(&[]);
    assert_eq!(bus.read32(SYST_CSR_ADDR), Ok(0));
    assert_eq!(bus.write32(SYST_RVR_ADDR, 0xff12_3456), Ok(()));
    assert_eq!(bus.read32(SYST_RVR_ADDR), Ok(0x0012_3456));
    assert_eq!(bus.write32(SYST_CSR_ADDR, 0xffff_ffff), Ok(()));
    assert_eq!(bus.read32(SYST_CSR_ADDR), Ok(7));
    assert_eq!(bus.read32(SYST_CVR_ADDR), Ok(0x0012_3456));
    assert_eq!(bus.write32(SYST_CVR_ADDR, 99), Ok(()));
    assert_eq!(bus.read32(SYST_CVR_ADDR), Ok(0));
    assert_eq!(bus.write32(SYST_CALIB_ADDR, 99), Ok(()));
    assert_eq!(bus.read32(SYST_CALIB_ADDR), Ok(0));
    assert_eq!(bus.read8(SYST_CSR_ADDR), Err(Fault::BusFault));
    assert_eq!(bus.read16(SYST_CSR_ADDR), Err(Fault::BusFault));
    assert_eq!(bus.write8(SYST_CSR_ADDR, 1), Err(Fault::BusFault));
    assert_eq!(bus.write16(SYST_CSR_ADDR, 1), Err(Fault::BusFault));
    assert_eq!(bus.read32(SYST_CSR_ADDR + 1), Err(Fault::BusFault));
    assert_eq!(bus.write32(SYST_CSR_ADDR + 2, 1), Err(Fault::BusFault));
}

#[test]
fn blocks_of_words_and_bytes() {
    let mut bus = matrix(&[1, 2, 3, 4, 5, 6, 7, 8]);
    assert_eq!(bus.read_words(0, 2), Ok(vec![0x0403_0201, 0x0807_0605]));
    assert_eq!(bus.read_words(0, 0), Ok(vec![]));
    assert_eq!(bus.read_bytes(2, 3), Ok(vec![3, 4, 5]));
    assert_eq!(bus.read_bytes(32766, 3), Err(Fault::BusFault));
    assert_eq!(bus.write_words(0x2000_0100, &vec![10, 20, 30]), Ok(()));
    assert_eq!(bus.read_words(0x2000_0100, 3), Ok(vec![10, 20, 30]));
    assert_eq!(bus.write_words(0x2001_fff8, &vec![1, 2, 3]), Err(Fault::BusFault));
    assert_eq!(bus.read_words(0x2001_fff8, 2), Ok(vec![1, 2]));
    assert_eq!(bus.read_words(0x2001_fff8, 3), Err(Fault::BusFault));
}
