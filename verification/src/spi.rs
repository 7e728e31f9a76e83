//! Owner of a raw SPI bus together with its chip-select line; the driver
//! that performs transactions over the pair lives with the hardware, outside
//! the library.

use vstd::prelude::*;

verus! {

/// An SPI bus paired with the chip-select output that frames its
/// transactions.
pub struct CsSpiDevice<BUS, CS> {
    bus: BUS,
    cs: CS,
}

impl<BUS, CS> CsSpiDevice<BUS, CS> {
    /// The wrapped bus, for use in contracts.
    pub closed spec fn spec_bus(self) -> BUS {
        self.bus
    }

    /// The wrapped chip-select line, for use in contracts.
    pub closed spec fn spec_cs(self) -> CS {
        self.cs
    }

    pub fn new(bus: BUS, cs: CS) -> (r: Self)
        ensures
            r.spec_bus() == bus,
            r.spec_cs() == cs,
    {
        Self { bus, cs }
    }

    pub fn into_inner(self) -> (r: (BUS, CS))
        ensures
            r.0 == self.spec_bus(),
            r.1 == self.spec_cs(),
    {
        (self.bus, self.cs)
    }
}

} // verus!
