use vstd::prelude::*;

verus! {

/// Largest value of `u32`, as an integer.
pub open spec fn u32_limit() -> int {
    0xffff_ffff
}

/// Relies on `stm32f3xx_hal::time::Hertz::from(KiloHertz)`: the value in
/// kilohertz times one thousand.
#[verifier::external_body]
pub(crate) fn khz_to_hz(khz: u32) -> (r: u32)
    requires
        khz as int * 1000 <= u32_limit(),
    ensures
        r as int == khz as int * 1000,
{
    stm32f3xx_hal::time::Hertz::from(stm32f3xx_hal::time::KiloHertz(khz)).0
}

/// Relies on `stm32f3xx_hal::time::Hertz::from(MegaHertz)`: the value in
/// megahertz times one million.
#[verifier::external_body]
pub(crate) fn mhz_to_hz(mhz: u32) -> (r: u32)
    requires
        mhz as int * 1_000_000 <= u32_limit(),
    ensures
        r as int == mhz as int * 1_000_000,
{
    stm32f3xx_hal::time::Hertz::from(stm32f3xx_hal::time::MegaHertz(mhz)).0
}

} // verus!
