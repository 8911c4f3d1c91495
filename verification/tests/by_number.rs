use core_registers::architecture::Architecture;
use core_registers::register_file::RegisterFile;
use core_registers::registers::Registers;
use std::collections::HashSet;

fn catalog(names: &[&str]) -> RegisterFile {
    RegisterFile::new(names.iter().map(|name| name.to_string()).collect())
}

fn pairs(registers: &Registers) -> HashSet<(u32, u32)> {
    registers.registers().map(|(number, value)| (*number, *value)).collect()
}

fn built(file: &RegisterFile, architecture: Architecture, entries: &[(u32, u32)]) -> HashSet<(u32, u32)> {
    let mut registers = Registers::from_core(file, architecture, &[]);
    for (number, value) in entries {
        registers.set_by_dwarf_register_number(*number, Some(*value));
    }
    pairs(&registers)
}

#[test]
fn walk_yields_exactly_what_was_stored() {
    let file = catalog(&[]);
    let entries = [(0, 0), (3, 0xdead_beef), (15, 1), (1000, 2), (u32::MAX, u32::MAX)];
    let expected: HashSet<(u32, u32)> = entries.iter().copied().collect();
    assert_eq!(built(&file, Architecture::Arm, &entries), expected);
    assert_eq!(built(&file, Architecture::Riscv, &entries), expected);
    assert!(built(&file, Architecture::Arm, &[]).is_empty());
}

#[test]
fn walk_yields_each_register_once() {
    let file = catalog(&[]);
    let mut registers = Registers::from_core(&file, Architecture::Arm, &[]);
    registers.set_by_dwarf_register_number(4, Some(1));
    registers.set_by_dwarf_register_number(4, Some(2));
    registers.set_by_dwarf_register_number(9, Some(2));
    let walked: Vec<(u32, u32)> =
        registers.registers().map(|(number, value)| (*number, *value)).collect();
    assert_eq!(walked.len(), 2);
    assert!(walked.contains(&(4, 2)));
    assert!(walked.contains(&(9, 2)));
}

#[test]
fn walk_starts_afresh_on_each_call() {
    let file = catalog(&[]);
    let mut registers = Registers::from_core(&file, Architecture::Riscv, &[Some(5), Some(6)]);
    let first = pairs(&registers);
    let second = pairs(&registers);
    assert_eq!(first, second);
    assert_eq!(first.len(), 2);

    let mut walk = registers.registers();
    assert!(walk.next().is_some());
    assert_eq!(registers.registers().count(), 2);

    registers.set_by_dwarf_register_number(0, None);
    registers.set_by_dwarf_register_number(7, Some(8));
    let expected: HashSet<(u32, u32)> = [(1, 6), (7, 8)].into_iter().collect();
    assert_eq!(pairs(&registers), expected);
}

#[test]
fn set_by_number_stores_and_overwrites() {
    let file = catalog(&[]);
    let mut registers = Registers::from_core(&file, Architecture::Arm, &[Some(1), Some(2)]);
    registers.set_by_dwarf_register_number(1, Some(20));
    registers.set_by_dwarf_register_number(5, Some(50));
    assert_eq!(registers.get_value_by_dwarf_register_number(0), Some(1));
    assert_eq!(registers.get_value_by_dwarf_register_number(1), Some(20));
    assert_eq!(registers.get_value_by_dwarf_register_number(5), Some(50));
    assert_eq!(registers.get_value_by_dwarf_register_number(2), None);
    assert_eq!(registers.registers().count(), 3);
}

#[test]
fn set_by_number_with_none_removes_only_that_register() {
    let file = catalog(&[]);
    let mut registers =
        Registers::from_core(&file, Architecture::Arm, &[Some(1), Some(2), Some(3)]);
    registers.set_by_dwarf_register_number(1, None);
    assert_eq!(registers.get_value_by_dwarf_register_number(1), None);
    assert_eq!(registers.get_value_by_dwarf_register_number(0), Some(1));
    assert_eq!(registers.get_value_by_dwarf_register_number(2), Some(3));
    let expected: HashSet<(u32, u32)> = [(0, 1), (2, 3)].into_iter().collect();
    assert_eq!(pairs(&registers), expected);
}

#[test]
fn clearing_twice_is_clearing_once() {
    let file = catalog(&[]);
    let mut once = Registers::from_core(&file, Architecture::Arm, &[Some(1), Some(2)]);
    once.set_by_dwarf_register_number(1, None);
    let mut twice = once.clone();
    twice.set_by_dwarf_register_number(1, None);
    assert_eq!(once, twice);
    assert_eq!(twice.get_value_by_dwarf_register_number(1), None);
    assert_eq!(twice.get_value_by_dwarf_register_number(0), Some(1));
    assert_eq!(twice.registers().count(), 1);
}

#[test]
fn clearing_an_absent_register_changes_nothing() {
    let file = catalog(&[]);
    let before = Registers::from_core(&file, Architecture::Riscv, &[Some(1), None]);
    let mut after = before.clone();
    after.set_by_dwarf_register_number(1, None);
    after.set_by_dwarf_register_number(400, None);
    after.set_frame_pointer(None);
    assert_eq!(before, after);
}

#[test]
fn storing_after_clearing_brings_the_register_back() {
    let file = catalog(&[]);
    let mut registers = Registers::from_core(&file, Architecture::Arm, &[Some(1)]);
    registers.set_by_dwarf_register_number(0, None);
    registers.set_by_dwarf_register_number(0, Some(9));
    assert_eq!(registers.get_value_by_dwarf_register_number(0), Some(9));
}

#[test]
fn largest_register_number_is_an_entry_like_any_other() {
    let file = catalog(&[]);
    let mut registers = Registers::from_core(&file, Architecture::Arm, &[]);
    registers.set_by_dwarf_register_number(u32::MAX, Some(3));
    assert_eq!(registers.get_value_by_dwarf_register_number(u32::MAX), Some(3));
    assert_eq!(registers.get_value_by_dwarf_register_number(u32::MAX - 1), None);
    registers.set_by_dwarf_register_number(u32::MAX, None);
    assert_eq!(registers.get_value_by_dwarf_register_number(u32::MAX), None);
}

#[test]
fn clone_is_a_snapshot_of_its_own() {
    let file = catalog(&["R0", "R1"]);
    let source = Registers::from_core(&file, Architecture::Riscv, &[Some(1), Some(2)]);
    let mut copy = source.clone();
    assert_eq!(copy, source);
    assert_eq!(copy.architecture(), Architecture::Riscv);
    assert_eq!(copy.register_description(), &file);
    copy.set_by_dwarf_register_number(0, Some(100));
    copy.set_stack_pointer(None);
    assert_eq!(source.get_value_by_dwarf_register_number(0), Some(1));
    assert_eq!(source.get_stack_pointer(), None);
    assert_eq!(source.get_value_by_dwarf_register_number(1), Some(2));
    assert_eq!(copy.get_value_by_dwarf_register_number(0), Some(100));
    assert_ne!(copy, source);
}

#[test]
fn name_of_a_register_in_the_catalog() {
    let file = catalog(&["R0", "R1", "SP", "LR", "PC"]);
    let registers = Registers::from_core(&file, Architecture::Arm, &[]);
    assert_eq!(registers.get_name_by_dwarf_register_number(0), Some("R0".to_string()));
    assert_eq!(registers.get_name_by_dwarf_register_number(2), Some("SP".to_string()));
    assert_eq!(registers.get_name_by_dwarf_register_number(4), Some("PC".to_string()));
}

#[test]
fn name_of_a_register_past_the_catalog_is_absent() {
    let file = catalog(&["R0", "R1", "SP", "LR", "PC"]);
    let mut registers = Registers::from_core(&file, Architecture::Arm, &[]);
    assert_eq!(registers.get_name_by_dwarf_register_number(5), None);
    assert_eq!(registers.get_name_by_dwarf_register_number(6), None);
    assert_eq!(registers.get_name_by_dwarf_register_number(u32::MAX), None);
    registers.set_by_dwarf_register_number(5, Some(1));
    assert_eq!(registers.get_name_by_dwarf_register_number(5), None);
}

#[test]
fn name_does_not_depend_on_the_value_being_known() {
    let file = catalog(&["X0", "X1"]);
    let mut registers = Registers::from_core(&file, Architecture::Riscv, &[None, Some(4)]);
    assert_eq!(registers.get_name_by_dwarf_register_number(0), Some("X0".to_string()));
    assert_eq!(registers.get_name_by_dwarf_register_number(1), Some("X1".to_string()));
    registers.set_by_dwarf_register_number(1, None);
    assert_eq!(registers.get_name_by_dwarf_register_number(1), Some("X1".to_string()));
}

#[test]
fn catalog_gives_count_and_names() {
    let file = catalog(&["A", "", "C"]);
    assert_eq!(file.platform_register_count(), 3);
    assert_eq!(file.get_platform_register(0), Some("A"));
    assert_eq!(file.get_platform_register(1), Some(""));
    assert_eq!(file.get_platform_register(2), Some("C"));
    assert_eq!(file.get_platform_register(3), None);
    assert_eq!(file.get_platform_register(usize::MAX), None);
    let empty = catalog(&[]);
    assert_eq!(empty.platform_register_count(), 0);
    assert_eq!(empty.get_platform_register(0), None);
    assert_eq!(file.clone(), file);
    assert_ne!(file, empty);
}
