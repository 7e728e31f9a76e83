//! Guard for the shared two-wire bus of the power path: only the charging
//! front-end IC and the buck-boost regulator may ever be addressed.

use vstd::prelude::*;

verus! {

/// 7-bit bus address of the SW2303 charging front-end IC.
pub const SW2303_ADDR_7BIT: u8 = 0x3C;
/// 7-bit bus address of the TPS55288 buck-boost regulator.
pub const TPS55288_ADDR_7BIT: u8 = 0x74;

/// The two devices that the guarded power bus may address.
#[derive(Clone, Copy, Debug, PartialEq, Eq, Structural)]
pub enum PdI2cAddr {
    Sw2303,
    Tps55288,
}

impl PdI2cAddr {
    /// The device's 7-bit bus address.
    pub fn as_7bit(self) -> (addr: u8)
        ensures
            self is Sw2303 ==> addr == SW2303_ADDR_7BIT,
            self is Tps55288 ==> addr == TPS55288_ADDR_7BIT,
    {
        match self {
            Self::Sw2303 => SW2303_ADDR_7BIT,
            Self::Tps55288 => TPS55288_ADDR_7BIT,
        }
    }
}

/// Failure of a guarded bus transaction: either the target address is not on
/// the allow-list (the underlying bus was never touched), or the bus itself
/// reported an error of its own type `E`.
#[derive(Clone, Copy, Debug, PartialEq, Eq)]
pub enum I2cAllowlistError<E> {
    NotAllowedAddress(u8),
    Bus(E),
}

/// Whether a 7-bit address may be used on the guarded power bus.
pub open spec fn spec_address_allowed(address: u8) -> bool {
    address == SW2303_ADDR_7BIT || address == TPS55288_ADDR_7BIT
}

/// Reject any transaction target that is not the charging IC or the
/// regulator, before the underlying bus is touched.
pub fn ensure_allowed_address<E>(address: u8) -> (r: Result<(), I2cAllowlistError<E>>)
    ensures
        r is Ok <==> spec_address_allowed(address),
        r matches Err(e) ==> e == I2cAllowlistError::<E>::NotAllowedAddress(address),
{
    if address == SW2303_ADDR_7BIT || address == TPS55288_ADDR_7BIT {
        Ok(())
    } else {
        Err(I2cAllowlistError::NotAllowedAddress(address))
    }
}

/// Wrapper that owns the underlying power bus; every transaction made through
/// it must first pass [`ensure_allowed_address`].
pub struct I2cAllowlist<I2C> {
    inner: I2C,
}

impl<I2C> I2cAllowlist<I2C> {
    /// The wrapped bus, for use in contracts.
    pub closed spec fn bus(self) -> I2C {
        self.inner
    }

    pub fn new(inner: I2C) -> (r: Self)
        ensures
            r.bus() == inner,
    {
        Self { inner }
    }

    pub fn into_inner(self) -> (r: I2C)
        ensures
            r == self.bus(),
    {
        self.inner
    }

    pub fn inner_mut(&mut self) -> (r: &mut I2C)
        ensures
            *r == old(self).bus(),
            final(self).bus() == *final(r),
    {
        &mut self.inner
    }
}

} // verus!
