//! Bus clock rates the adapter can be set to.

use vstd::prelude::*;

verus! {

/// Clock rate of the I2C bus.
#[derive(Clone, Copy, Debug, PartialEq, Eq, Structural)]
pub enum I2CSpeed {
    /// 20 kHz.
    Low,
    /// 100 kHz, the rate a session starts with.
    Standard,
    /// 400 kHz.
    Fast,
    /// 750 kHz.
    High,
}

impl I2CSpeed {
    /// The two-bit code that selects this rate in a set-speed command.
    pub open spec fn spec_code(self) -> u8 {
        match self {
            I2CSpeed::Low => 0,
            I2CSpeed::Standard => 1,
            I2CSpeed::Fast => 2,
            I2CSpeed::High => 3,
        }
    }

    /// The clock rate in kHz.
    pub open spec fn spec_khz(self) -> u16 {
        match self {
            I2CSpeed::Low => 20,
            I2CSpeed::Standard => 100,
            I2CSpeed::Fast => 400,
            I2CSpeed::High => 750,
        }
    }

    /// The two-bit code that selects this rate in a set-speed command.
    #[verifier::when_used_as_spec(spec_code)]
    pub fn code(self) -> (c: u8)
        ensures
            c == self.spec_code(),
            c <= 3,
    {
        match self {
            I2CSpeed::Low => 0,
            I2CSpeed::Standard => 1,
            I2CSpeed::Fast => 2,
            I2CSpeed::High => 3,
        }
    }

    /// The clock rate in kHz.
    #[verifier::when_used_as_spec(spec_khz)]
    pub fn khz(self) -> (f: u16)
        ensures
            f == self.spec_khz(),
    {
        match self {
            I2CSpeed::Low => 20,
            I2CSpeed::Standard => 100,
            I2CSpeed::Fast => 400,
            I2CSpeed::High => 750,
        }
    }
}

impl Default for I2CSpeed {
    /// A session starts at the standard rate.
    fn default() -> (s: I2CSpeed)
        ensures
            s == I2CSpeed::Standard,
    {
        I2CSpeed::Standard
    }
}

/// Distinct rates have distinct codes, and a faster rate has a larger code.
pub proof fn law_speed_code_orders_rates(a: I2CSpeed, b: I2CSpeed)
    ensures
        a.spec_code() == b.spec_code() <==> a == b,
        a.spec_code() < b.spec_code() <==> a.spec_khz() < b.spec_khz(),
{
}

} // verus!
