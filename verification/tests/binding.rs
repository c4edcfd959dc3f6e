use aya::binder::{bind_call, bind_maps, BindError, Symbol, SymbolRef, PSEUDO_MAP_MARKER};
use aya::insn::Instruction;

fn mov_imm(imm: i32) -> Instruction {
    Instruction {
        opcode: 0xB7,
        dst_reg: 0,
        src_reg: 0,
        offset: 0,
        imm,
    }
}

fn sym(name: &str, section_index: u32, value: u64) -> Symbol {
    Symbol {
        name: name.as_bytes().to_vec(),
        section_index,
        value,
        size: 0,
    }
}

/// Three call sites naming one map, spread over two programs, bind to one
/// handle index.
#[test]
fn same_map_binds_to_one_handle() {
    let symbols = vec![sym("counters", 3, 0), sym("other_map", 3, 32)];
    let map_names = vec![b"counters".to_vec(), b"other_map".to_vec()];
    let mut table: Vec<Vec<u8>> = Vec::new();

    let mut prog1 = vec![mov_imm(0), mov_imm(0), mov_imm(0)];
    let refs1 = vec![
        SymbolRef { insn_index: 0, symbol_index: 0 },
        SymbolRef { insn_index: 2, symbol_index: 0 },
    ];
    let report1 = bind_maps(&mut prog1, &refs1, &symbols, &map_names, &mut table).unwrap();

    let mut prog2 = vec![mov_imm(0), mov_imm(0)];
    let refs2 = vec![
        SymbolRef { insn_index: 1, symbol_index: 0 },
        SymbolRef { insn_index: 0, symbol_index: 1 },
    ];
    let report2 = bind_maps(&mut prog2, &refs2, &symbols, &map_names, &mut table).unwrap();

    assert_eq!(report1[0].handle, report1[1].handle);
    assert_eq!(report1[0].handle, report2[0].handle);
    assert_ne!(report2[1].handle, report2[0].handle);

    assert_eq!(prog1[0].src_reg, PSEUDO_MAP_MARKER);
    assert_eq!(prog1[0].imm, report1[0].handle as i32);
    assert_eq!(prog1[2].imm, report1[0].handle as i32);
    assert_eq!(prog2[1].imm, report1[0].handle as i32);
    // The untouched instruction keeps its operands.
    assert_eq!(prog1[1], mov_imm(0));
}

/// An unresolved map symbol fails the whole program without patching it.
#[test]
fn unknown_map_symbol_is_a_hard_error() {
    let symbols = vec![sym("missing", 3, 0)];
    let map_names = vec![b"counters".to_vec()];
    let mut table: Vec<Vec<u8>> = Vec::new();
    let mut prog = vec![mov_imm(5)];
    let refs = vec![SymbolRef { insn_index: 0, symbol_index: 0 }];
    assert!(bind_maps(&mut prog, &refs, &symbols, &map_names, &mut table).is_err());
    assert_eq!(prog[0], mov_imm(5));
    assert!(table.is_empty());
}

/// A bound call carries the relative displacement to its target.
#[test]
fn call_displacement_is_relative() {
    let mut prog = vec![mov_imm(0), mov_imm(0), mov_imm(0), mov_imm(0)];
    bind_call(&mut prog, 1, 3).unwrap();
    assert_eq!(prog[1].imm, 1);
    bind_call(&mut prog, 3, 0).unwrap();
    assert_eq!(prog[3].imm, -4);
    assert!(matches!(
        bind_call(&mut prog, 9, 0),
        Err(BindError::MissingInstruction { index: 9 })
    ));
    // A displacement past the immediate's range is refused and writes nothing.
    let before = prog[0];
    assert!(matches!(
        bind_call(&mut prog, 0, 0x8000_0002),
        Err(BindError::DisplacementTooLarge { index: 0 })
    ));
    assert_eq!(prog[0], before);
}

/// Binding an empty reference list always succeeds and changes nothing.
#[test]
fn binding_nothing_is_ok() {
    let symbols = vec![sym("counters", 3, 0)];
    let map_names = vec![b"counters".to_vec()];
    let mut table: Vec<Vec<u8>> = Vec::new();
    let mut prog = vec![mov_imm(3)];
    let report = bind_maps(&mut prog, &Vec::new(), &symbols, &map_names, &mut table).unwrap();
    assert!(report.is_empty());
    assert_eq!(prog[0], mov_imm(3));
    assert!(table.is_empty());
}
