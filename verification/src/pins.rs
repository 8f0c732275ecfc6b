//! The lines that may be driven as outputs.

use vstd::prelude::*;
use crate::error::Error;

verus! {

/// The output lines of the board that are safe to drive.
pub const ALLOWED_PINS: [u8; 10] = [5, 6, 12, 13, 16, 17, 19, 20, 21, 26];

/// Whether `pin` is on the allow-list.
pub open spec fn allowed(pin: u8) -> bool {
    ALLOWED_PINS@.contains(pin)
}

/// Whether every pin of `pins` is on the allow-list.
pub open spec fn all_allowed(pins: Seq<u8>) -> bool {
    forall|i: int| 0 <= i < pins.len() ==> allowed(#[trigger] pins[i])
}

/// Whether `pin` is on the allow-list.
pub fn is_allowed(pin: u8) -> (yes: bool)
    ensures
        yes == allowed(pin),
{
    let mut i: usize = 0;
    while i < 10
        invariant
            i <= 10,
            forall|j: int| 0 <= j < i ==> ALLOWED_PINS@[j] != pin,
        decreases 10 - i,
    {
        if ALLOWED_PINS[i] == pin {
            return true;
        }
        i += 1;
    }
    false
}

/// Accepts `pins` if every one of them is on the allow-list, and refuses the
/// whole request with `InvalidPin` if any is not.
pub fn check_pins(pins: &Vec<u8>) -> (checked: Result<(), Error>)
    ensures
        all_allowed(pins@) ==> checked == Ok::<(), Error>(()),
        !all_allowed(pins@) ==> checked == Err::<(), Error>(Error::InvalidPin),
{
    let mut i: usize = 0;
    while i < pins.len()
        invariant
            i <= pins@.len(),
            forall|j: int| 0 <= j < i ==> allowed(#[trigger] pins@[j]),
        decreases pins@.len() - i,
    {
        if !is_allowed(pins[i]) {
            return Err(Error::InvalidPin);
        }
        i += 1;
    }
    Ok(())
}

/// The allow-list, pin by pin.
pub proof fn lemma_allowed(pin: u8)
    ensures
        allowed(pin) <==> (pin == 5 || pin == 6 || pin == 12 || pin == 13 || pin == 16 || pin == 17
            || pin == 19 || pin == 20 || pin == 21 || pin == 26),
{
    let list = ALLOWED_PINS@;
    assert(list[0] == 5 && list[1] == 6 && list[2] == 12 && list[3] == 13 && list[4] == 16
        && list[5] == 17 && list[6] == 19 && list[7] == 20 && list[8] == 21 && list[9] == 26);
}

} // verus!
