//! The snapshot of a core's registers.

use crate::architecture::{Architecture, Role};
use crate::register_file::RegisterFile;
use std::collections::hash_map::Iter;
use std::collections::HashMap;
use vstd::prelude::*;
use vstd::std_specs::iter::IteratorSpec;

verus! {

broadcast use vstd::std_specs::hash::group_hash_axioms;

/// The entries that a capture keeps: register `number` is present exactly
/// where read `number` gave a value, and holds that value.
pub open spec fn captured(reads: Seq<Option<u32>>) -> Map<u32, u32> {
    Map::new(
        |number: u32| number < reads.len() && reads[number as int] is Some,
        |number: u32| reads[number as int]->0,
    )
}

/// The entries after register `number` was given `value`: `Some` stores the
/// value in place of any earlier one, `None` takes the entry away. No other
/// entry changes.
pub open spec fn assigned(entries: Map<u32, u32>, number: u32, value: Option<u32>) -> Map<
    u32,
    u32,
> {
    match value {
        Some(word) => entries.insert(number, word),
        None => entries.remove(number),
    }
}

/// All the register values that are known at one halt of a core.
///
/// A register that is absent is unknown: it was not read, its read failed,
/// or it was cleared afterwards. The snapshot does not tell these apart.
#[derive(Debug, PartialEq)]
pub struct Registers<'a> {
    register_description: &'a RegisterFile,
    values: HashMap<u32, u32>,
    architecture: Architecture,
}

impl<'a> View for Registers<'a> {
    type V = Map<u32, u32>;

    /// The known values, by raw register number.
    closed spec fn view(&self) -> Map<u32, u32> {
        self.values@
    }
}

impl<'a> Clone for Registers<'a> {
    /// A snapshot of its own with the same entries, architecture and catalog.
    fn clone(&self) -> (copy: Self)
        ensures
            copy@ == self@,
            copy.architecture() == self.architecture(),
            copy.register_description() == self.register_description(),
    {
        Registers {
            register_description: self.register_description,
            values: self.values.clone(),
            architecture: self.architecture,
        }
    }
}

impl<'a> Registers<'a> {
    /// The architecture that the snapshot was taken under.
    pub closed spec fn spec_architecture(&self) -> Architecture {
        self.architecture
    }

    /// The catalog that names the snapshot's registers.
    pub closed spec fn spec_register_description(&self) -> &'a RegisterFile {
        self.register_description
    }

    /// The architecture that the snapshot was taken under.
    #[verifier::when_used_as_spec(spec_architecture)]
    pub fn architecture(&self) -> (architecture: Architecture)
        ensures
            architecture == self.spec_architecture(),
    {
        self.architecture
    }

    /// The catalog that names the snapshot's registers.
    #[verifier::when_used_as_spec(spec_register_description)]
    pub fn register_description(&self) -> (register_description: &'a RegisterFile)
        ensures
            register_description == self.spec_register_description(),
    {
        self.register_description
    }

    /// The value of the register that carries `role`, if it is known.
    pub open spec fn role_value(&self, role: Role) -> Option<u32> {
        self@.get(self.architecture().register_number(role))
    }

    /// The snapshot of one capture, in which `reads[n]` is the outcome of the
    /// read of platform register `n`: its value, or `None` where the read
    /// failed. A failed read leaves its register absent and takes nothing
    /// from the others.
    ///
    /// Raw numbers end at `u32::MAX`: an outcome further back in `reads`
    /// belongs to no register and is left out.
    pub fn from_core(
        register_description: &'a RegisterFile,
        architecture: Architecture,
        reads: &[Option<u32>],
    ) -> (registers: Self)
        ensures
            registers@ == captured(reads@),
            registers.architecture() == architecture,
            registers.register_description() == register_description,
    {
        let mut values: HashMap<u32, u32> = HashMap::new();
        let mut i: usize = 0;
        while i < reads.len() && i <= u32::MAX as usize
            invariant
                i <= reads.len(),
                i <= u32::MAX + 1,
                values@ == captured(reads@.take(i as int)),
            decreases reads.len() - i,
        {
            if let Some(value) = reads[i] {
                values.insert(i as u32, value);
            }
            i = i + 1;
        }
        Registers { register_description, values, architecture }
    }

    /// The canonical frame address of the current frame, if it is known.
    pub fn get_frame_pointer(&self) -> (value: Option<u32>)
        ensures
            value == self.role_value(Role::FramePointer),
    {
        self.get_value_by_dwarf_register_number(
            self.architecture.register_number(Role::FramePointer),
        )
    }

    /// Stores the canonical frame address, or with `None` marks it unknown.
    pub fn set_frame_pointer(&mut self, value: Option<u32>)
        ensures
            final(self)@ == assigned(
                old(self)@,
                old(self).architecture().register_number(Role::FramePointer),
                value,
            ),
            final(self).architecture() == old(self).architecture(),
            final(self).register_description() == old(self).register_description(),
    {
        let register_number = self.architecture.register_number(Role::FramePointer);
        self.set_by_dwarf_register_number(register_number, value);
    }

    /// The program counter, if it is known.
    pub fn get_program_counter(&self) -> (value: Option<u32>)
        ensures
            value == self.role_value(Role::ProgramCounter),
    {
        self.get_value_by_dwarf_register_number(
            self.architecture.register_number(Role::ProgramCounter),
        )
    }

    /// Stores the program counter, or with `None` marks it unknown.
    pub fn set_program_counter(&mut self, value: Option<u32>)
        ensures
            final(self)@ == assigned(
                old(self)@,
                old(self).architecture().register_number(Role::ProgramCounter),
                value,
            ),
            final(self).architecture() == old(self).architecture(),
            final(self).register_description() == old(self).register_description(),
    {
        let register_number = self.architecture.register_number(Role::ProgramCounter);
        self.set_by_dwarf_register_number(register_number, value);
    }

    /// The stack pointer, if it is known.
    pub fn get_stack_pointer(&self) -> (value: Option<u32>)
        ensures
            value == self.role_value(Role::StackPointer),
    {
        self.get_value_by_dwarf_register_number(
            self.architecture.register_number(Role::StackPointer),
        )
    }

    /// Stores the stack pointer, or with `None` marks it unknown.
    pub fn set_stack_pointer(&mut self, value: Option<u32>)
        ensures
            final(self)@ == assigned(
                old(self)@,
                old(self).architecture().register_number(Role::StackPointer),
                value,
            ),
            final(self).architecture() == old(self).architecture(),
            final(self).register_description() == old(self).register_description(),
    {
        let register_number = self.architecture.register_number(Role::StackPointer);
        self.set_by_dwarf_register_number(register_number, value);
    }

    /// The return address, if it is known.
    pub fn get_return_address(&self) -> (value: Option<u32>)
        ensures
            value == self.role_value(Role::ReturnAddress),
    {
        self.get_value_by_dwarf_register_number(
            self.architecture.register_number(Role::ReturnAddress),
        )
    }

    /// Stores the return address, or with `None` marks it unknown, as for the
    /// outermost frame, which returns nowhere.
    pub fn set_return_address(&mut self, value: Option<u32>)
        ensures
            final(self)@ == assigned(
                old(self)@,
                old(self).architecture().register_number(Role::ReturnAddress),
                value,
            ),
            final(self).architecture() == old(self).architecture(),
            final(self).register_description() == old(self).register_description(),
    {
        let register_number = self.architecture.register_number(Role::ReturnAddress);
        self.set_by_dwarf_register_number(register_number, value);
    }

    /// The value of register `register_number`, if it is known.
    pub fn get_value_by_dwarf_register_number(&self, register_number: u32) -> (value: Option<u32>)
        ensures
            value == self@.get(register_number),
    {
        match self.values.get(&register_number) {
            Some(word) => Some(*word),
            None => None,
        }
    }

    /// The name that the catalog gives to register `register_number`, or
    /// `None` where the catalog has no such register. Whether the register's
    /// value is known plays no part.
    pub fn get_name_by_dwarf_register_number(&self, register_number: u32) -> (name: Option<String>)
        ensures
            name is Some <==> register_number < self.register_description()@.len(),
            name matches Some(text) ==> text@ == self.register_description()@[register_number
                as int],
    {
        match self.register_description.get_platform_register(register_number as usize) {
            Some(text) => Some(text.to_owned()),
            None => None,
        }
    }

    /// Stores `value` for register `register_number`, or with `None` marks
    /// the register unknown.
    pub fn set_by_dwarf_register_number(&mut self, register_number: u32, value: Option<u32>)
        ensures
            final(self)@ == assigned(old(self)@, register_number, value),
            final(self).architecture() == old(self).architecture(),
            final(self).register_description() == old(self).register_description(),
    {
        if let Some(word) = value {
            self.values.insert(register_number, word);
        } else {
            self.values.remove(&register_number);
        }
    }

    /// Walks the known registers, each once, as pairs of raw number and
    /// value, in no particular order. Each call starts a fresh walk over the
    /// snapshot as it then is.
    ///
    /// `remaining` is what the walk will yield. The last two clauses are
    /// what a `for` loop over the walk asks of it.
    pub fn registers(&self) -> (entries: Iter<'_, u32, u32>)
        ensures
            entries.remaining().no_duplicates(),
            entries.remaining().unref().to_set() == self@.kv_pairs(),
            entries.remaining().len() == self@.len(),
            entries.initial_value_relation(&entries),
            entries.decrease() is Some,
    {
        self.values.iter()
    }
}

/// After register `number` was given `value`, a lookup of `number` gives
/// `value` back, the value or `None`, and a lookup of any other register
/// gives what it gave before.
pub proof fn lemma_assigned_lookup(
    entries: Map<u32, u32>,
    number: u32,
    value: Option<u32>,
    other: u32,
)
    ensures
        assigned(entries, number, value).get(number) == value,
        other != number ==> assigned(entries, number, value).get(other) == entries.get(other),
{
}

/// Of two assignments to one register in a row only the second counts.
pub proof fn lemma_last_assignment_counts(
    entries: Map<u32, u32>,
    number: u32,
    first: Option<u32>,
    second: Option<u32>,
)
    ensures
        assigned(assigned(entries, number, first), number, second) == assigned(
            entries,
            number,
            second,
        ),
{
}

/// Marking a register unknown twice in a row leaves the entries as marking it
/// once does.
pub proof fn lemma_clearing_is_idempotent(entries: Map<u32, u32>, number: u32)
    ensures
        assigned(assigned(entries, number, None), number, None) == assigned(entries, number, None),
        !assigned(entries, number, None).contains_key(number),
{
}

/// A role reads back what it was last set to: where `after` is `before` with
/// `role` set to `value`, on either architecture, `after` gives `value` for
/// `role`, the value or `None`.
pub proof fn lemma_role_round_trip(
    before: Registers<'_>,
    after: Registers<'_>,
    role: Role,
    value: Option<u32>,
)
    requires
        after.architecture() == before.architecture(),
        after@ == assigned(before@, before.architecture().register_number(role), value),
    ensures
        after.role_value(role) == value,
{
}

/// Setting one role leaves every role that is carried by another register as
/// it was.
pub proof fn lemma_role_untouched(
    before: Registers<'_>,
    after: Registers<'_>,
    role: Role,
    value: Option<u32>,
    other: Role,
)
    requires
        after.architecture() == before.architecture(),
        after@ == assigned(before@, before.architecture().register_number(role), value),
        before.architecture().register_number(other)
            != before.architecture().register_number(role),
    ensures
        after.role_value(other) == before.role_value(other),
{
}

/// On Riscv the program counter and the return address are one entry: they
/// always read the same, and setting either sets both.
pub proof fn lemma_riscv_program_counter_is_return_address(registers: Registers<'_>)
    requires
        registers.architecture() == Architecture::Riscv,
    ensures
        registers.role_value(Role::ProgramCounter) == registers.role_value(Role::ReturnAddress),
{
}

/// What a walk over a fresh capture yields: the pair of `number` and `word`
/// exactly where read `number` gave `word`.
pub proof fn lemma_captured_pairs(reads: Seq<Option<u32>>)
    ensures
        captured(reads).kv_pairs() == Set::new(
            |pair: (u32, u32)| pair.0 < reads.len() && reads[pair.0 as int] == Some(pair.1),
        ),
{
    assert(captured(reads).kv_pairs() =~= Set::new(
        |pair: (u32, u32)| pair.0 < reads.len() && reads[pair.0 as int] == Some(pair.1),
    ));
}

/// What a walk yields after register `number` was given `value`: for
/// `number` the pair with the new value and no other, or none after `None`;
/// for every other register the pair it yielded before.
pub proof fn lemma_assigned_pairs(entries: Map<u32, u32>, number: u32, value: Option<u32>)
    ensures
        assigned(entries, number, value).kv_pairs() == Set::new(
            |pair: (u32, u32)|
                if pair.0 == number {
                    value == Some(pair.1)
                } else {
                    entries.kv_pairs().contains(pair)
                },
        ),
{
    assert(assigned(entries, number, value).kv_pairs() =~= Set::new(
        |pair: (u32, u32)|
            if pair.0 == number {
                value == Some(pair.1)
            } else {
                entries.kv_pairs().contains(pair)
            },
    ));
}

} // verus!
