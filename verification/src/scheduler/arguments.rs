//! Values handed back to a task in its argument registers `r0`-`r3`.
use vstd::prelude::*;

verus! {

/// The four argument registers of a task, of which the first `U` have been
/// filled in by [`push`](AbiArguments::push).
pub struct AbiArguments<const U: usize> {
    args: [u32; 4],
}

impl<const U: usize> View for AbiArguments<U> {
    type V = Seq<u32>;

    /// All four register values, `r0` first.
    closed spec fn view(&self) -> Seq<u32> {
        self.args@
    }
}

impl<const U: usize> AbiArguments<U> {
    /// The values pushed so far, `r0` first.
    pub fn pushed(&self) -> (r: &[u32])
        requires
            U <= 4,
        ensures
            self@.len() == 4,
            r@ == self@.subrange(0, U as int),
    {
        vstd::slice::slice_subrange(self.args.as_slice(), 0, U)
    }
}

impl AbiArguments<0> {
    /// No value pushed yet; all registers read 0.
    pub fn new() -> (r: Self)
        ensures
            r@ == seq![0u32, 0u32, 0u32, 0u32],
    {
        Self { args: [0u32; 4] }
    }

    /// Sets `r0` to `arg`.
    pub fn push(self, arg: u32) -> (r: AbiArguments<1>)
        ensures
            r@ == self@.update(0, arg),
    {
        let mut args = self.args;
        args[0] = arg;
        AbiArguments { args }
    }
}

impl AbiArguments<1> {
    /// Sets `r1` to `arg`.
    pub fn push(self, arg: u32) -> (r: AbiArguments<2>)
        ensures
            r@ == self@.update(1, arg),
    {
        let mut args = self.args;
        args[1] = arg;
        AbiArguments { args }
    }
}

impl AbiArguments<2> {
    /// Sets `r2` to `arg`.
    pub fn push(self, arg: u32) -> (r: AbiArguments<3>)
        ensures
            r@ == self@.update(2, arg),
    {
        let mut args = self.args;
        args[2] = arg;
        AbiArguments { args }
    }
}

} // verus!
