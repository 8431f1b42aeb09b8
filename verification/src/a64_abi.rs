use vstd::prelude::*;

verus! {

/// The register file of an AArch64 guest CPU context, as far as the calling
/// convention reads and writes it.
pub struct A64Context {
    pub regs: [u64; 31],
}

impl A64Context {
    /// A context whose registers are all zero.
    pub fn new() -> (ctx: A64Context)
        ensures
            forall|i: int| 0 <= i < 31 ==> ctx.regs@[i] == 0,
    {
        A64Context { regs: [0u64; 31] }
    }
}

/// Accessors for the AArch64 procedure-call standard: arguments arrive in
/// X0..X7 (and beyond, by index), results leave in X0 and X1.
pub struct A64Abi;

impl A64Abi {
    /// The value of argument register `index`.
    pub fn arg(context: &A64Context, index: usize) -> (value: u64)
        requires
            index < 31,
        ensures
            value == context.regs@[index as int],
    {
        context.regs[index]
    }

    /// Writes a single return value to X0; every other register keeps its value.
    pub fn set_return(context: &mut A64Context, value: u64)
        ensures
            final(context).regs@ == old(context).regs@.update(0, value),
    {
        context.regs[0] = value;
    }

    /// Writes a 128-bit return value: the low half to X0, the high half to X1.
    pub fn set_return_pair(context: &mut A64Context, low: u64, high: u64)
        ensures
            final(context).regs@ == old(context).regs@.update(0, low).update(1, high),
    {
        context.regs[0] = low;
        context.regs[1] = high;
    }
}

} // verus!
