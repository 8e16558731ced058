//! Motor abstraction: the register descriptor every motor catalog
//! populates. Adding support for a new motor model only requires a new
//! submodule with its registers.

use vstd::prelude::*;

#[allow(non_snake_case)]
pub mod XL_320;

verus! {

/// Register descriptor shared by all motor registers: a 16-bit bus address
/// and a payload width in bytes. The widths this driver carries on the wire
/// are 1 and 2; every operation rejects any other width with
/// `UnsupportedRegister`.
pub trait Register {
    /// The bus address, as `address` returns it. A catalog entry overrides
    /// this with its own address; the default stands for an otherwise
    /// unspecified descriptor.
    open spec fn spec_address(&self) -> u16 {
        0
    }

    /// The payload width in bytes, as `width` returns it. A catalog entry
    /// overrides this with its own width.
    open spec fn spec_width(&self) -> u16 {
        0
    }

    /// Address of the register.
    fn address(&self) -> (r: u16)
        ensures
            r == self.spec_address(),
    ;

    /// Width of the register in bytes (1 or 2 for the common registers).
    fn width(&self) -> (r: u16)
        ensures
            r == self.spec_width(),
    ;
}

} // verus!
