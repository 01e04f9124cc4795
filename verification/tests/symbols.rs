use shape_vm::draw_mode::{DrawMode, INST_BASE};
use shape_vm::i386::bytecode::ByteCode;
use shape_vm::i386::driver::{known_returns, return_value, DriveError, DriveExit, Return};
use shape_vm::i386::interp::Interpreter;
use shape_vm::i386::memory::{Region, RuntimeError};
use shape_vm::i386::symbols::{SymbolKind, SymbolTable};

fn mode() -> DrawMode {
    DrawMode {
        range: None,
        damaged: false,
        closeness: 0x200,
        frame_number: 0,
        detail: 4,
        gear_position: Some(18),
        bay_position: None,
        flaps_down: true,
        slats_down: false,
        airbrake_extended: true,
        hook_extended: true,
        afterburner_enabled: true,
        rudder_position: -1,
        left_aileron_position: 5,
        right_aileron_position: -2147483648,
        sam_count: 4,
    }
}

fn constant(table: &SymbolTable, name: &str) -> u32 {
    match table.lookup(name) {
        Some(i) => match &table.symbols[i].kind {
            SymbolKind::Constant(v) => *v,
            _ => panic!("{} is no constant", name),
        },
        None => panic!("{} is not known", name),
    }
}

#[test]
fn the_symbols_of_a_draw_mode() {
    let table = mode().symbols(123456);
    assert_eq!(table.symbols.len(), 34);
    assert_eq!(constant(&table, "_currentTicks"), 123456);
    assert_eq!(constant(&table, "_lowMemory"), 0);
    assert_eq!(constant(&table, "_nightHazing"), 1);
    assert_eq!(constant(&table, "brentObjId"), INST_BASE);
    assert_eq!(INST_BASE, 0x4000);
    assert_eq!(constant(&table, "_PLafterBurner"), 1);
    assert_eq!(constant(&table, "_PLbayOpen"), 0);
    assert_eq!(constant(&table, "_PLbayDoorPos"), 0);
    assert_eq!(constant(&table, "_PLbrake"), 1);
    assert_eq!(constant(&table, "_PLcanardPos"), 0);
    assert_eq!(constant(&table, "_PLdead"), 0);
    assert_eq!(constant(&table, "_PLgearDown"), 1);
    assert_eq!(constant(&table, "_PLgearPos"), 18);
    assert_eq!(constant(&table, "_PLhook"), 1);
    assert_eq!(constant(&table, "_PLrightFlap"), 0xFFFF_FFFF);
    assert_eq!(constant(&table, "_PLleftFlap"), 0xFFFF_FFFF);
    assert_eq!(constant(&table, "_PLrightAln"), 0x8000_0000);
    assert_eq!(constant(&table, "_PLleftAln"), 5);
    assert_eq!(constant(&table, "_PLrudder"), 0xFFFF_FFFF);
    assert_eq!(constant(&table, "_PLslats"), 0);
    assert_eq!(constant(&table, "_PLstate"), 0);
    assert_eq!(constant(&table, "_PLswingWing"), 0);
    assert_eq!(constant(&table, "_PLvtAngle"), 0);
    assert_eq!(constant(&table, "_PLvtOn"), 0);
    assert_eq!(constant(&table, "_SAMcount"), 4);
    for name in [
        "do_start_interp",
        "_CATGUYDraw@4",
        "@HARDNumLoaded@8",
        "@HardpointAngle@4",
        "_InsectWingAngle@0",
    ] {
        let i = table.lookup(name).unwrap();
        assert!(matches!(table.symbols[i].kind, SymbolKind::Trampoline(1)));
    }
    for (name, first) in [
        ("_effectsAllowed", 2u8),
        ("_effects", 2),
        ("lighteningAllowed", 0),
        ("mapAdj", 0),
    ] {
        let i = table.lookup(name).unwrap();
        match &table.symbols[i].kind {
            SymbolKind::Writable(bytes) => assert_eq!(bytes, &vec![first, 0, 0, 0]),
            _ => panic!("{} is no buffer", name),
        }
    }
    let i = table.lookup("_v").unwrap();
    match &table.symbols[i].kind {
        SymbolKind::Writable(bytes) => {
            assert_eq!(bytes.len(), 0x100);
            assert_eq!(bytes[0x8F], 1);
            assert_eq!(bytes.iter().map(|b| *b as usize).sum::<usize>(), 1);
        }
        _ => panic!("_v is no buffer"),
    }
    assert_eq!(table.lookup("_unknown"), None);
    let other = DrawMode {
        gear_position: None,
        bay_position: Some(7),
        flaps_down: false,
        afterburner_enabled: false,
        ..mode()
    };
    let table = other.symbols(0);
    assert_eq!(constant(&table, "_PLgearDown"), 0);
    assert_eq!(constant(&table, "_PLgearPos"), 0);
    assert_eq!(constant(&table, "_PLbayOpen"), 1);
    assert_eq!(constant(&table, "_PLbayDoorPos"), 7);
    assert_eq!(constant(&table, "_PLleftFlap"), 0);
    assert_eq!(constant(&table, "_PLafterBurner"), 0);
}

#[test]
fn a_name_that_is_registered_again_has_its_last_meaning() {
    let mut table = SymbolTable::new();
    assert_eq!(table.lookup("a"), None);
    table.register("a", SymbolKind::Constant(1));
    table.register("b", SymbolKind::Constant(2));
    table.register("a", SymbolKind::Trampoline(3));
    assert_eq!(table.lookup("a"), Some(2));
    assert_eq!(table.lookup("b"), Some(1));
    assert_eq!(table.lookup(""), None);
}

#[test]
fn binding_maps_what_the_table_says() {
    let mut table = SymbolTable::new();
    table.register("_f", SymbolKind::Trampoline(2));
    table.register("_x", SymbolKind::Constant(9));
    table.register("_buf", SymbolKind::Writable(vec![1, 2, 3]));
    let mut interp = Interpreter::new();
    assert!(interp.bind(0x100, "_f", &table));
    assert!(interp.bind(0x200, "_x", &table));
    assert!(interp.bind(0x300, "_buf", &table));
    assert!(!interp.bind(0x400, "_y", &table));
    assert_eq!(interp.memory.len(), 3);
    assert_eq!(interp.memory[0].address, 0x100);
    assert!(matches!(&interp.memory[0].region, Region::Trampoline(name, 2) if name == "_f"));
    assert!(matches!(interp.memory[1].region, Region::Constant(9)));
    assert_eq!(interp.memory[2].address, 0x300);
    assert!(matches!(&interp.memory[2].region, Region::Writable(bytes) if bytes == &vec![1, 2, 3]));
}

const BASE: u32 = 0xAA00_0000;

fn call_to(from_next: u32, target: u32) -> [u8; 5] {
    let rel = target.wrapping_sub(from_next).to_le_bytes();
    [0xE8, rel[0], rel[1], rel[2], rel[3]]
}

fn machine(code: &[u8]) -> Interpreter {
    let mut interp = Interpreter::new();
    interp.add_code(ByteCode::disassemble(code, BASE).unwrap());
    interp.add_trampoline(0x0050_0000, "do_start_interp", 1);
    interp.add_trampoline(0x0060_0000, "@HARDNumLoaded@8", 0);
    interp.add_trampoline(0x0070_0000, "_other", 0);
    interp
}

#[test]
fn what_the_known_functions_return() {
    let known = known_returns();
    assert_eq!(known.len(), 3);
    assert_eq!(return_value(&known, &"@HARDNumLoaded@8".to_string()), Some(1));
    assert_eq!(return_value(&known, &"@HardpointAngle@4".to_string()), Some(256));
    assert_eq!(return_value(&known, &"_InsectWingAngle@0".to_string()), Some(256));
    assert_eq!(return_value(&known, &"do_start_interp".to_string()), None);
    let twice = vec![
        Return { name: "f".to_string(), value: 1 },
        Return { name: "f".to_string(), value: 2 },
    ];
    assert_eq!(return_value(&twice, &"f".to_string()), Some(2));
}

#[test]
fn a_fragment_hands_control_back_to_the_walk() {
    // push 0xAA000123; call do_start_interp
    let mut code = vec![0x68u8, 0x23, 0x01, 0x00, 0xAA];
    code.extend_from_slice(&call_to(BASE + 10, 0x0050_0000));
    let mut interp = machine(&code);
    assert_eq!(
        interp.drive(BASE, "do_start_interp", &known_returns(), 100),
        Ok(DriveExit::Resume(0xAA00_0123))
    );
}

#[test]
fn a_fragment_asks_an_outside_function_first() {
    // call @HARDNumLoaded@8; cmp eax, 1; jne +5; push 0xAA000200; (both ways:) push ...; call sentinel
    let mut code = call_to(BASE + 5, 0x0060_0000).to_vec();
    code.extend_from_slice(&[0x83, 0xF8, 0x01]); // 5: cmp eax, 1
    code.extend_from_slice(&[0x75, 0x0A]); // 8: jne +10 -> 20
    code.extend_from_slice(&[0x68, 0x00, 0x02, 0x00, 0xAA]); // 10: push 0xAA000200
    code.extend_from_slice(&call_to(BASE + 20, 0x0050_0000)); // 15: call sentinel
    code.extend_from_slice(&[0x68, 0x00, 0x03, 0x00, 0xAA]); // 20: push 0xAA000300
    code.extend_from_slice(&call_to(BASE + 30, 0x0050_0000)); // 25: call sentinel
    let mut interp = machine(&code);
    assert_eq!(
        interp.drive(BASE, "do_start_interp", &known_returns(), 100),
        Ok(DriveExit::Resume(0xAA00_0200))
    );
    let two = vec![Return { name: "@HARDNumLoaded@8".to_string(), value: 2 }];
    let mut interp = machine(&code);
    assert_eq!(
        interp.drive(BASE, "do_start_interp", &two, 100),
        Ok(DriveExit::Resume(0xAA00_0300))
    );
    let mut interp = machine(&code);
    assert_eq!(
        interp.drive(BASE, "do_start_interp", &Vec::new(), 100),
        Err(DriveError::UnknownTrampoline)
    );
    let mut interp = machine(&code);
    assert_eq!(
        interp.drive(BASE, "do_start_interp", &known_returns(), 3),
        Err(DriveError::StepLimit)
    );
    let mut interp = machine(&code);
    assert_eq!(
        interp.drive(BASE, "do_start_interp", &known_returns(), 0),
        Err(DriveError::StepLimit)
    );
}

#[test]
fn the_ends_of_a_drive() {
    // pop eax: runs out of instructions
    let mut interp = machine(&[0x58]);
    interp.push_stack_value(1);
    assert_eq!(
        interp.drive(BASE, "do_start_interp", &known_returns(), 100),
        Ok(DriveExit::OutOfInstructions)
    );
    // a fault
    let mut interp = machine(&[0x58]);
    assert_eq!(
        interp.drive(BASE, "do_start_interp", &known_returns(), 100),
        Err(DriveError::Fault(RuntimeError::StackUnderflow { address: BASE }))
    );
    // a known function, and then the end of the code
    let mut interp = machine(&call_to(BASE + 5, 0x0060_0000));
    assert_eq!(
        interp.drive(BASE, "do_start_interp", &known_returns(), 100),
        Err(DriveError::UnexpectedExit)
    );
    // a known function, and then another function
    let mut code = call_to(BASE + 5, 0x0060_0000).to_vec();
    code.extend_from_slice(&call_to(BASE + 10, 0x0070_0000));
    let mut interp = machine(&code);
    assert_eq!(
        interp.drive(BASE, "do_start_interp", &known_returns(), 100),
        Err(DriveError::UnexpectedExit)
    );
    // the sentinel without a word
    let mut interp = Interpreter::new();
    interp.add_code(ByteCode::disassemble(&call_to(BASE + 5, 0x0050_0000), BASE).unwrap());
    interp.add_trampoline(0x0050_0000, "do_start_interp", 0);
    assert_eq!(
        interp.drive(BASE, "do_start_interp", &known_returns(), 100),
        Err(DriveError::UnexpectedExit)
    );
}
