//! Architectures and the raw register numbers that carry the four roles a
//! debugger asks for by name.

use vstd::prelude::*;

verus! {

/// Raw number of the frame pointer on Arm.
pub const ARM_FRAME_POINTER: u32 = 7;

/// Raw number of the program counter on Arm.
pub const ARM_PROGRAM_COUNTER: u32 = 15;

/// Raw number of the stack pointer on Arm.
pub const ARM_STACK_POINTER: u32 = 13;

/// Raw number of the return address (link register) on Arm.
pub const ARM_RETURN_ADDRESS: u32 = 14;

/// Raw number of the frame pointer on Riscv.
pub const RISCV_FRAME_POINTER: u32 = 8;

/// Raw number used for the program counter on Riscv.
///
/// This is the number of the return-address register, so on Riscv the two
/// roles share one entry of a snapshot. The program counter is a register of
/// its own on the hardware; until its number is settled, this constant is the
/// single place to change.
pub const RISCV_PROGRAM_COUNTER: u32 = 1;

/// Raw number of the stack pointer on Riscv.
pub const RISCV_STACK_POINTER: u32 = 2;

/// Raw number of the return address on Riscv.
pub const RISCV_RETURN_ADDRESS: u32 = 1;

/// The architecture family of the core a snapshot was taken from.
#[derive(Clone, Copy, Debug, PartialEq, Eq, Structural)]
pub enum Architecture {
    /// An Arm core.
    Arm,
    /// A RISC-V core.
    Riscv,
}

/// A role that one register plays on every architecture.
#[derive(Clone, Copy, Debug, PartialEq, Eq, Structural)]
pub enum Role {
    /// The canonical frame address of the current frame.
    FramePointer,
    /// The address of the instruction to execute next.
    ProgramCounter,
    /// The top of the stack.
    StackPointer,
    /// The address to which the current function returns.
    ReturnAddress,
}

impl Architecture {
    /// The raw register number that carries `role` on this architecture.
    pub open spec fn spec_register_number(self, role: Role) -> u32 {
        match self {
            Architecture::Arm => match role {
                Role::FramePointer => ARM_FRAME_POINTER,
                Role::ProgramCounter => ARM_PROGRAM_COUNTER,
                Role::StackPointer => ARM_STACK_POINTER,
                Role::ReturnAddress => ARM_RETURN_ADDRESS,
            },
            Architecture::Riscv => match role {
                Role::FramePointer => RISCV_FRAME_POINTER,
                Role::ProgramCounter => RISCV_PROGRAM_COUNTER,
                Role::StackPointer => RISCV_STACK_POINTER,
                Role::ReturnAddress => RISCV_RETURN_ADDRESS,
            },
        }
    }

    /// The raw register number that carries `role` on this architecture.
    #[verifier::when_used_as_spec(spec_register_number)]
    pub fn register_number(self, role: Role) -> (number: u32)
        ensures
            number == self.spec_register_number(role),
    {
        match self {
            Architecture::Arm => match role {
                Role::FramePointer => ARM_FRAME_POINTER,
                Role::ProgramCounter => ARM_PROGRAM_COUNTER,
                Role::StackPointer => ARM_STACK_POINTER,
                Role::ReturnAddress => ARM_RETURN_ADDRESS,
            },
            Architecture::Riscv => match role {
                Role::FramePointer => RISCV_FRAME_POINTER,
                Role::ProgramCounter => RISCV_PROGRAM_COUNTER,
                Role::StackPointer => RISCV_STACK_POINTER,
                Role::ReturnAddress => RISCV_RETURN_ADDRESS,
            },
        }
    }
}

} // verus!
