//! The parts of the Direct3D side that only compute.
use vstd::prelude::*;

pub mod bmp;
pub mod constants;
pub mod staging;

verus! {

/// A failed call, by its result code.
#[derive(Debug, Clone, Copy, PartialEq, Eq, Structural)]
pub struct DxError {
    pub hresult: i32,
}

/// The result code `E_UNEXPECTED`, 0x8000FFFF.
pub const E_UNEXPECTED: i32 = -2_147_418_113;

/// The result code `E_INVALIDARG`, 0x80070057.
pub const E_INVALIDARG: i32 = -2_147_024_809;

/// A call succeeded and handed out no object.
pub fn missing_object() -> (error: DxError)
    ensures
        error.hresult == E_UNEXPECTED,
        error.hresult + 0x1_0000_0000 == 0x8000_FFFF,
{
    DxError { hresult: E_UNEXPECTED }
}

/// An argument is out of its range.
pub fn invalid_argument() -> (error: DxError)
    ensures
        error.hresult == E_INVALIDARG,
        error.hresult + 0x1_0000_0000 == 0x8007_0057,
{
    DxError { hresult: E_INVALIDARG }
}

/// Nothing can be created without an extent in both directions.
pub fn check_dimensions(width: u32, height: u32) -> (checked: Result<(), DxError>)
    ensures
        checked == if width == 0 || height == 0 {
            Err::<(), DxError>(DxError { hresult: E_INVALIDARG })
        } else {
            Ok(())
        },
{
    if width == 0 || height == 0 {
        return Err(invalid_argument());
    }
    Ok(())
}

pub const D3DCOMPILE_DEBUG: u32 = 0x1;

pub const D3DCOMPILE_SKIP_OPTIMIZATION: u32 = 0x2000;

/// Shaders of a debug build carry debug information and are not optimised.
pub fn compile_flags(debug_build: bool) -> (flags: u32)
    ensures
        flags == if debug_build {
            D3DCOMPILE_DEBUG + D3DCOMPILE_SKIP_OPTIMIZATION
        } else {
            0
        },
{
    if debug_build {
        assert(0x1u32 | 0x2000u32 == 0x2001u32) by (bit_vector);
        D3DCOMPILE_DEBUG | D3DCOMPILE_SKIP_OPTIMIZATION
    } else {
        0
    }
}

/// The drivers that a device can run on.
#[derive(Debug, Clone, Copy, PartialEq, Eq, Structural)]
pub enum DriverKind {
    Hardware,
    Warp,
}

/// The driver to try first, and after `failed` did not work; none when all have been tried.
pub fn next_driver(failed: Option<DriverKind>) -> (next: Option<DriverKind>)
    ensures
        next == match failed {
            None => Some(DriverKind::Hardware),
            Some(DriverKind::Hardware) => Some(DriverKind::Warp),
            Some(DriverKind::Warp) => None,
        },
{
    match failed {
        None => Some(DriverKind::Hardware),
        Some(DriverKind::Hardware) => Some(DriverKind::Warp),
        Some(DriverKind::Warp) => None,
    }
}

} // verus!
