//! Register snapshots: ordered name and value pairs.
use vstd::prelude::*;

verus! {

/// One register in a snapshot.
pub struct RegisterState {
    pub name: String,
    pub value: u16,
}

/// A register in the model: its name and its value.
pub type RegisterView = (Seq<char>, u16);

impl RegisterState {
    pub open spec fn register(&self) -> RegisterView {
        (self.name@, self.value)
    }

    pub fn new(name: String, value: u16) -> (r: Self)
        ensures
            r.register() == (name@, value),
    {
        RegisterState { name, value }
    }

    pub fn name(&self) -> (r: String)
        ensures
            r@ == self.name@,
    {
        self.name.clone()
    }

    pub fn value(&self) -> (r: u16)
        ensures
            r == self.value,
    {
        self.value
    }
}

/// The registers of a snapshot, in order.
pub open spec fn registers_of(regs: Seq<RegisterState>) -> Seq<RegisterView> {
    regs.map_values(|r: RegisterState| r.register())
}

/// Appends a register named `name` with `value` to a snapshot.
pub fn push_register(regs: &mut Vec<RegisterState>, name: &str, value: u16)
    ensures
        registers_of(final(regs)@) == registers_of(old(regs)@).push((name@, value)),
{
    regs.push(RegisterState::new(name.to_string(), value));
    assert(registers_of(final(regs)@) =~= registers_of(old(regs)@).push((name@, value)));
}

} // verus!
