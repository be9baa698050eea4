//! The system timer as the processor sees it.

use crate::bus::InternalBus;
use crate::exception::Exception;
use crate::exception::ExceptionHandling;
use crate::processor::Core;
use crate::processor::CoreState;
use crate::bus::BusView;
use vstd::prelude::*;

verus! {

/// Register interface of the system timer.
pub trait SysTick {
    /// Writes SYST_RVR, the reload value register.
    fn write_syst_rvr(&mut self, value: u32);

    /// Writes SYST_CVR, the current value register.
    fn write_syst_cvr(&mut self, _value: u32);

    /// Writes SYST_CSR, the control and status register.
    fn write_syst_csr(&mut self, value: u32);

    /// Reads the control and status register.
    fn read_syst_csr(&self) -> u32;

    /// Reads the reload value register.
    fn read_syst_rvr(&self) -> u32;

    /// Reads the current value register.
    fn read_syst_cvr(&self) -> u32;

    /// Reads the calibration register.
    fn read_syst_calib(&self) -> u32;

    /// Steps the timer one clock cycle forward.
    fn syst_step(&mut self);
}

impl CoreState {
    /// The state with the timer's registers replaced.
    pub open spec fn with_timer(self, timer: InternalBus) -> CoreState {
        CoreState { bus: BusView { internal: timer, ..self.bus }, ..self }
    }

    /// The state after one clock tick of the timer: the count moves, and the
    /// timer's exception becomes pending where the count expires with
    /// TICKINT set.
    pub open spec fn ticked(self) -> CoreState {
        let stepped = self.with_timer(self.bus.internal.ticked());
        if self.bus.internal.raises() {
            stepped.with_pending(Exception::SysTick, true)
        } else {
            stepped
        }
    }
}

impl SysTick for Core {
    fn write_syst_rvr(&mut self, value: u32)
        ensures
            final(self)@ == old(self)@.with_timer(old(self)@.bus.internal.with_rvr_written(value)),
    {
        self.bus.internal.write_syst_rvr(value);
    }

    fn write_syst_cvr(&mut self, _value: u32)
        ensures
            final(self)@ == old(self)@.with_timer(old(self)@.bus.internal.with_cvr_written()),
    {
        self.bus.internal.write_syst_cvr(_value);
    }

    fn write_syst_csr(&mut self, value: u32)
        ensures
            final(self)@ == old(self)@.with_timer(old(self)@.bus.internal.with_csr_written(value)),
    {
        self.bus.internal.write_syst_csr(value);
    }

    fn read_syst_csr(&self) -> (value: u32)
        ensures
            value == self@.bus.internal.syst_csr,
    {
        self.bus.internal.syst_csr
    }

    fn read_syst_rvr(&self) -> (value: u32)
        ensures
            value == self@.bus.internal.syst_rvr,
    {
        self.bus.internal.syst_rvr
    }

    fn read_syst_cvr(&self) -> (value: u32)
        ensures
            value == self@.bus.internal.syst_cvr,
    {
        self.bus.internal.syst_cvr
    }

    fn read_syst_calib(&self) -> (value: u32)
        ensures
            value == 0,
    {
        0
    }

    fn syst_step(&mut self)
        ensures
            final(self)@ == old(self)@.ticked(),
    {
        if self.bus.internal.syst_step() {
            self.set_exception_pending(Exception::SysTick);
        }
    }
}

} // verus!
