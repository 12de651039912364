//! Single-owner access to the bus: a driver acquires the handle for one
//! logical transaction and releases it afterwards; a second acquisition
//! fails at once instead of waiting.
use vstd::prelude::*;

use crate::twi::{read_frame, ping_frame, ping_status, acknowledged, write_frame, ping_frame_len, TwiController, TwiError, TwiPort, WireEvent};

verus! {

/// What `acquire` answers, given whether the bus was already held.
pub open spec fn acquire_outcome(held: bool) -> Result<(), TwiError> {
    if held {
        Err(TwiError::BusBusy)
    } else {
        Ok(())
    }
}

/// A second acquisition while the first is still held fails with `BusBusy`;
/// once the holder releases (which leaves the bus not held), the next
/// acquisition succeeds.
pub proof fn lemma_acquire_fails_until_release<P: TwiPort>(
    acquired: SharedBusHandle<P>,
    released: SharedBusHandle<P>,
)
    requires
        acquired.is_held(),
        !released.is_held(),
    ensures
        acquire_outcome(acquired.is_held()) == Err::<(), TwiError>(TwiError::BusBusy),
        acquire_outcome(released.is_held()) == Ok::<(), TwiError>(()),
{
}

/// The bus controller together with the flag of its single holder.
pub struct SharedBusHandle<P: TwiPort> {
    bus: TwiController<P>,
    held: bool,
}

impl<P: TwiPort> SharedBusHandle<P> {
    /// Whether a holder has acquired the bus and not yet released it.
    pub closed spec fn is_held(&self) -> bool {
        self.held
    }

    /// Everything done on the bus's registers since the controller was made.
    pub closed spec fn events(&self) -> Seq<WireEvent> {
        self.bus.events()
    }

    /// Wraps a controller; nobody holds it yet.
    pub fn new(bus: TwiController<P>) -> (r: Self)
        ensures
            !r.is_held(),
            r.events() == bus.events(),
    {
        SharedBusHandle { bus, held: false }
    }

    /// Takes exclusive use of the bus; fails with `BusBusy`, changing
    /// nothing, while another holder has it.
    pub fn acquire(&mut self) -> (r: Result<(), TwiError>)
        ensures
            r == acquire_outcome(old(self).is_held()),
            final(self).is_held(),
            old(self).is_held() ==> r == Err::<(), TwiError>(TwiError::BusBusy) && *final(self) == *old(self),
            !old(self).is_held() ==> r is Ok && final(self).is_held() && final(self).events() == old(self).events(),
    {
        if self.held {
            Err(TwiError::BusBusy)
        } else {
            self.held = true;
            Ok(())
        }
    }

    /// Gives the bus back.
    pub fn release(&mut self)
        ensures
            !final(self).is_held(),
            final(self).events() == old(self).events(),
    {
        self.held = false;
    }

    /// One write transaction, by the current holder.
    pub fn write_reg(&mut self, slave_address: u8, buffer: &[u8])
        requires
            old(self).is_held(),
        ensures
            final(self).is_held(),
            final(self).events() == old(self).events() + write_frame(slave_address, buffer@),
    {
        self.bus.write_reg(slave_address, buffer);
    }

    /// One register read, by the current holder.
    pub fn read_reg(&mut self, slave_address: u8, start_register: u8, buffer: &mut [u8])
        requires
            old(self).is_held(),
            old(buffer)@.len() > 0,
        ensures
            final(self).is_held(),
            final(buffer)@.len() == old(buffer)@.len(),
            final(self).events() == old(self).events() + read_frame(
                slave_address,
                start_register,
                final(buffer)@,
            ),
    {
        self.bus.read_reg(slave_address, start_register, buffer);
    }

    /// A ping, by the current holder.
    pub fn ping_device(&mut self, slave_address: u8) -> (r: bool)
        requires
            old(self).is_held(),
        ensures
            final(self).is_held(),
            final(self).events().len() == old(self).events().len() + ping_frame_len(),
            final(self).events() == old(self).events() + ping_frame(
                slave_address,
                ping_status(final(self).events().skip(old(self).events().len() as int)),
            ),
            r == acknowledged(ping_status(final(self).events().skip(old(self).events().len() as int))),
    {
        self.bus.ping_device(slave_address)
    }

    /// A pause; it needs no hold on the bus.
    pub fn delay_us(&mut self, us: u32)
        ensures
            final(self).is_held() == old(self).is_held(),
            final(self).events() == old(self).events().push(WireEvent::Delay(us)),
    {
        self.bus.delay_us(us);
    }
}

} // verus!
