//! Values of the CONTROL register, through `cortex_m`'s `Control` type.
use cortex_m::register::control::{Control, Npriv, Spsel};
use vstd::prelude::*;

verus! {

#[verifier::external_type_specification]
#[verifier::external_body]
pub struct ExControl(Control);

/// The raw bits of a CONTROL register value, as `Control::bits` returns them.
pub uninterp spec fn control_bits(control: Control) -> u32;

/// `Control::from_bits`: a register value holding exactly `bits`.
#[verifier::external_body]
pub(crate) fn control_from_bits(bits: u32) -> (control: Control)
    ensures
        control_bits(control) == bits,
{
    Control::from_bits(bits)
}

/// `Control::bits`: the raw bits of the value.
#[verifier::external_body]
pub(crate) fn control_into_bits(control: Control) -> (bits: u32)
    ensures
        bits == control_bits(control),
{
    control.bits()
}

/// `Control::set_spsel(Spsel::Psp)`: sets bit 1 (SPSEL), selecting the
/// process stack pointer, and leaves the other bits as they were.
#[verifier::external_body]
pub(crate) fn control_select_process_stack(control: &mut Control)
    ensures
        control_bits(*final(control)) == control_bits(*old(control)) | 2,
{
    control.set_spsel(Spsel::Psp)
}

/// `Control::set_npriv(Npriv::Unprivileged)`: sets bit 0 (nPRIV), dropping
/// thread-mode privileges, and leaves the other bits as they were.
#[verifier::external_body]
pub(crate) fn control_drop_privilege(control: &mut Control)
    ensures
        control_bits(*final(control)) == control_bits(*old(control)) | 1,
{
    control.set_npriv(Npriv::Unprivileged)
}

/// `Control::npriv`: privileged exactly when bit 0 is clear.
#[verifier::external_body]
pub(crate) fn control_is_privileged(control: Control) -> (privileged: bool)
    ensures
        privileged == (control_bits(control) & 1 == 0),
{
    match control.npriv() {
        Npriv::Privileged => true,
        Npriv::Unprivileged => false,
    }
}

/// `Control::spsel`: the main stack pointer is in use exactly when bit 1 is
/// clear.
#[verifier::external_body]
pub(crate) fn control_uses_main_stack(control: Control) -> (main: bool)
    ensures
        main == (control_bits(control) & 2 == 0),
{
    match control.spsel() {
        Spsel::Msp => true,
        Spsel::Psp => false,
    }
}

} // verus!
