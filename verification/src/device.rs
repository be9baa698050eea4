//! Device profiles: which memories a simulated microcontroller has.

use crate::bus::AHBLite;
use crate::bus::AhbView;
use crate::bus::BusMatrix;
use crate::bus::BusView;
use crate::bus::InternalBus;
use crate::fault::Fault;
use crate::memory::FlashMemory;
use crate::memory::Region;
use crate::memory::RAM;
use crate::processor::Core;
use crate::processor::CoreState;
use crate::psr::Profile;
use vstd::prelude::*;

verus! {

/// Address of the flash of the Cortex-M0 device.
pub const CORTEX_M0_FLASH_BASE: u32 = 0;

/// Size in bytes of the flash of the Cortex-M0 device.
pub const CORTEX_M0_FLASH_SIZE: usize = 32768;

/// Address of the RAM of the Cortex-M0 device.
pub const CORTEX_M0_RAM_BASE: u32 = 0x2000_0000;

/// Size in bytes of the RAM of the Cortex-M0 device.
pub const CORTEX_M0_RAM_SIZE: usize = 131072;

/// The buses of the Cortex-M0 device with `code` loaded at the start of the
/// flash, the RAM zero and the timer off.
pub open spec fn spec_cortex_m0_bus(code: Seq<u8>) -> BusView {
    BusView {
        internal: InternalBus { syst_rvr: 0, syst_cvr: 0, syst_csr: 0 },
        ahb: AhbView {
            flash: (Region {
                base: CORTEX_M0_FLASH_BASE,
                bytes: Seq::new(CORTEX_M0_FLASH_SIZE as nat, |i: int| 0u8),
            }).with_bytes(CORTEX_M0_FLASH_BASE, code),
            ram: Region {
                base: CORTEX_M0_RAM_BASE,
                bytes: Seq::new(CORTEX_M0_RAM_SIZE as nat, |i: int| 0u8),
            },
        },
    }
}

/// Builds the Cortex-M0 device around a firmware image and resets it: 32 KiB
/// of flash at address 0 with the image, 128 KiB of RAM at `0x2000_0000`, and
/// the processor reset from the image's vector table.
pub fn cortex_m0_core(code: &[u8]) -> (core: Core)
    requires
        code@.len() <= CORTEX_M0_FLASH_SIZE,
    ensures
        CoreState::fresh(spec_cortex_m0_bus(code@), Profile::ArmV6M).reset() == Ok::<
            CoreState,
            Fault,
        >(core@),
        core@.wf(),
{
    let mut flash = FlashMemory::new(CORTEX_M0_FLASH_BASE, CORTEX_M0_FLASH_SIZE);
    let ram = RAM::new(CORTEX_M0_RAM_BASE, CORTEX_M0_RAM_SIZE);
    flash.load(code);
    let bus = BusMatrix::new(InternalBus::new(), AHBLite::new(flash, ram));
    let mut core = Core::new(bus, Profile::ArmV6M);
    let _ = core.reset();
    proof {
        assert(core@.r0_12.len() == 13);
    }
    core
}

} // verus!
