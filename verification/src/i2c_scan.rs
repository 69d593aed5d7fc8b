//! The I2C scanner example: the bus addresses it probes.

use vstd::prelude::*;

verus! {

/// The addresses probed, in order: 1 through 127.
pub fn scan_addresses() -> (addrs: Vec<u8>)
    ensures
        addrs@.len() == 127,
        forall|i: int| 0 <= i < 127 ==> #[trigger] addrs@[i] == i + 1,
{
    let mut addrs: Vec<u8> = Vec::new();
    let mut addr: u8 = 1;
    while addr <= 127
        invariant
            1 <= addr <= 128,
            addrs@.len() == addr - 1,
            forall|i: int| 0 <= i < addrs@.len() ==> #[trigger] addrs@[i] == i + 1,
        decreases 128 - addr,
    {
        addrs.push(addr);
        addr += 1;
    }
    addrs
}

} // verus!
