//! WETH9 call data.

use vstd::prelude::*;

verus! {

/// Selector of `deposit()`, which turns the ETH sent along into WETH.
pub const DEPOSIT_SELECTOR: [u8; 4] = [0xd0, 0xe3, 0x0d, 0xb0];

/// Call data of `deposit()`: the selector alone.
pub fn encode_deposit() -> (data: Vec<u8>)
    ensures
        data@ == seq![0xd0u8, 0xe3u8, 0x0du8, 0xb0u8],
{
    let mut data: Vec<u8> = Vec::new();
    let mut i: usize = 0;
    while i < 4
        invariant
            i <= 4,
            DEPOSIT_SELECTOR@ == seq![0xd0u8, 0xe3u8, 0x0du8, 0xb0u8],
            data@ == DEPOSIT_SELECTOR@.subrange(0, i as int),
        decreases 4 - i,
    {
        data.push(DEPOSIT_SELECTOR[i]);
        i = i + 1;
        assert(data@ =~= DEPOSIT_SELECTOR@.subrange(0, i as int));
    }
    assert(data@ =~= DEPOSIT_SELECTOR@);
    data
}

} // verus!
