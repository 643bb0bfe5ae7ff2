//! The GPIO words: addresses outside memory whose access is only reported.

use vstd::prelude::*;

verus! {

/// Pins 0 to 9.
pub const GPIO_10: usize = 0x2020_0000;

/// Pins 10 to 19.
pub const GPIO_20: usize = 0x2020_0004;

/// Pins 20 to 29.
pub const GPIO_30: usize = 0x2020_0008;

/// Clears a pin.
pub const PIN_OFF: usize = 0x2020_0028;

/// Sets a pin.
pub const PIN_ON: usize = 0x2020_001c;

/// The five addresses that are recognised as GPIO words.
pub open spec fn is_gpio_address(mem_address: int) -> bool {
    mem_address == GPIO_10 || mem_address == GPIO_20 || mem_address == GPIO_30 || mem_address
        == PIN_OFF || mem_address == PIN_ON
}

/// The message that an access to a GPIO word is reported with.
pub open spec fn gpio_message_spec(mem_address: int) -> Seq<char> {
    if mem_address == GPIO_10 {
        "One GPIO pin from 0 to 9 has been accessed"@
    } else if mem_address == GPIO_20 {
        "One GPIO pin from 10 to 19 has been accessed"@
    } else if mem_address == GPIO_30 {
        "One GPIO pin from 20 to 29 has been accessed"@
    } else if mem_address == PIN_OFF {
        "PIN OFF"@
    } else {
        "PIN ON"@
    }
}

/// Whether `mem_address` is a GPIO word.
pub fn gpio_accessed(mem_address: usize) -> (accessed: bool)
    ensures
        accessed == is_gpio_address(mem_address as int),
{
    mem_address == GPIO_10 || mem_address == GPIO_20 || mem_address == GPIO_30 || mem_address
        == PIN_OFF || mem_address == PIN_ON
}

/// The message for an access to the GPIO word at `mem_address`.
pub fn gpio_message(mem_address: usize) -> (message: &'static str)
    requires
        is_gpio_address(mem_address as int),
    ensures
        message@ == gpio_message_spec(mem_address as int),
{
    if mem_address == GPIO_10 {
        "One GPIO pin from 0 to 9 has been accessed"
    } else if mem_address == GPIO_20 {
        "One GPIO pin from 10 to 19 has been accessed"
    } else if mem_address == GPIO_30 {
        "One GPIO pin from 20 to 29 has been accessed"
    } else if mem_address == PIN_OFF {
        "PIN OFF"
    } else {
        "PIN ON"
    }
}

} // verus!
