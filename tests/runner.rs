use monistode_emulator::common::ProcessorContinue;
use monistode_runner::memory::{MemoryBlock, MemoryType};
use monistode_runner::ports::{port_input_value, PortHandlers};
use monistode_runner::loader::image_frame_check;
use monistode_runner::processor::{controller_next, status_of, WasmProcessor, WasmProcessorContinue};
use monistode_runner::processors::acc::AccProcessorWrapper;
use monistode_runner::processors::cisc::CiscProcessorWrapper;
use monistode_runner::processors::risc::RiscProcessorWrapper;
use monistode_runner::processors::stack::StackProcessorWrapper;
use monistode_runner::processors::{available_processors, create_processor, ProcessorType};
use monistode_runner::registers::RegisterState;
use monistode_runner::Runner;

/// Records every port operation and answers each input with `answer`.
struct Recorder {
    outputs: Vec<(u16, u16)>,
    inputs: Vec<u16>,
    answer: Option<u16>,
}

impl Recorder {
    fn new(answer: Option<u16>) -> Recorder {
        Recorder { outputs: Vec::new(), inputs: Vec::new(), answer }
    }

    fn outputs(&self) -> Vec<(u16, u16)> {
        self.outputs.clone()
    }

    fn inputs(&self) -> Vec<u16> {
        self.inputs.clone()
    }
}

impl PortHandlers for Recorder {
    fn output(&mut self, port: u16, value: u16) {
        self.outputs.push((port, value));
    }

    fn input(&mut self, port: u16) -> Option<u16> {
        self.inputs.push(port);
        self.answer
    }
}

/// One segment of an image: start address, cells, bits per cell, flag byte.
struct Seg {
    start: u64,
    cells: Vec<u8>,
    width: u32,
    flags: u8,
}

const EXECUTABLE: u8 = 0b0001;
const READABLE: u8 = 0b0100;

/// Packs cells as the loader reads them: each cell most significant bit first,
/// bits stored least significant first within each byte.
fn pack(cells: &[u8], width: u32) -> Vec<u8> {
    let bits = cells.len() * width as usize;
    let mut out = vec![0u8; (bits + 7) / 8];
    let mut k = 0usize;
    for &c in cells {
        for b in (0..width).rev() {
            if (c >> b) & 1 == 1 {
                out[k / 8] |= 1 << (k % 8);
            }
            k += 1;
        }
    }
    out
}

/// An executable image in the loader's format, with an empty symbol table.
fn image(arch: u8, segs: &[Seg]) -> Vec<u8> {
    let mut data = vec![arch];
    data.extend((segs.len() as u64 + 1).to_le_bytes());
    data.extend(0u64.to_le_bytes());
    for s in segs {
        data.extend(s.start.to_le_bytes());
        data.extend((s.cells.len() as u64).to_le_bytes());
        data.extend((s.cells.len() as u64 * s.width as u64).to_le_bytes());
        data.push(s.flags);
    }
    data.extend(0u64.to_le_bytes());
    data.extend(0u64.to_le_bytes());
    data.extend(1u64.to_le_bytes());
    data.push(0b1000);
    for s in segs {
        data.extend(pack(&s.cells, s.width));
    }
    data.push(0);
    data
}

fn acc_image(code: &[u8]) -> Vec<u8> {
    image(1, &[Seg { start: 0, cells: code.to_vec(), width: 8, flags: EXECUTABLE | READABLE }])
}

/// Six-bit words of a 16-bit immediate of the stack machine.
fn imm6(v: u16) -> [u8; 3] {
    [(v >> 12) as u8, ((v >> 6) & 63) as u8, (v & 63) as u8]
}

fn stack_image(code: &[u8]) -> Vec<u8> {
    image(0, &[Seg { start: 0, cells: code.to_vec(), width: 6, flags: EXECUTABLE }])
}

fn regs(r: &Runner) -> Vec<(String, u16)> {
    r.get_registers().iter().map(|s: &RegisterState| (s.name(), s.value())).collect()
}

fn named(list: &[(&str, u16)]) -> Vec<(String, u16)> {
    list.iter().map(|(n, v)| (n.to_string(), *v)).collect()
}

fn mem(r: &Runner) -> Vec<(MemoryType, Vec<u8>)> {
    r.get_memory().iter().map(|b: &MemoryBlock| (b.cell_type(), b.values())).collect()
}

const ALL: [ProcessorType; 4] =
    [ProcessorType::Stack, ProcessorType::Acc, ProcessorType::Risc, ProcessorType::Cisc];

#[test]
fn fresh_registers_per_architecture() {
    assert_eq!(
        regs(&Runner::new(ProcessorType::Stack)),
        named(&[("PC", 0), ("FR", 0), ("TOS", 256), ("SP", 1024)])
    );
    assert_eq!(
        regs(&Runner::new(ProcessorType::Acc)),
        named(&[("PC", 0), ("FR", 0), ("SP", 1024), ("ACC", 0), ("IR1", 0), ("IR2", 0)])
    );
    assert_eq!(
        regs(&Runner::new(ProcessorType::Risc)),
        named(&[("PC", 0), ("FR", 0), ("SP", 1024), ("R00", 0), ("R01", 0), ("R10", 0), ("R11", 0)])
    );
    assert_eq!(
        regs(&Runner::new(ProcessorType::Cisc)),
        named(&[
            ("PC", 0),
            ("FR", 0),
            ("SP", 1024),
            ("BP", 0),
            ("R00", 0),
            ("R01", 0),
            ("R02", 0),
            ("R03", 0)
        ])
    );
}

#[test]
fn fresh_memory_segments() {
    let stack = mem(&Runner::new(ProcessorType::Stack));
    assert_eq!(stack.len(), 2);
    assert_eq!(stack[0].0, MemoryType::Text);
    assert_eq!(stack[1].0, MemoryType::Data);
    assert_eq!(stack[0].1, vec![0u8; 65536]);
    assert_eq!(stack[1].1, vec![0u8; 65536]);
    for t in [ProcessorType::Acc, ProcessorType::Risc, ProcessorType::Cisc] {
        let m = mem(&Runner::new(t));
        assert_eq!(m.len(), 1);
        assert_eq!(m[0].0, MemoryType::Text);
        assert_eq!(m[0].1, vec![0u8; 65536]);
    }
}

#[test]
fn segment_names() {
    let r = Runner::new(ProcessorType::Stack);
    let blocks = r.get_memory();
    assert_eq!(blocks[0].cell_type_name(), "text");
    assert_eq!(blocks[1].cell_type_name(), "data");
}

#[test]
fn catalogue_of_processors() {
    let list = available_processors();
    let seen: Vec<(String, String, ProcessorType)> =
        list.iter().map(|m| (m.name(), m.description(), m.type_())).collect();
    assert_eq!(
        seen,
        vec![
            ("Stack".to_string(), "Stack-based processor".to_string(), ProcessorType::Stack),
            ("Accumulator".to_string(), "Accumulator-based processor".to_string(), ProcessorType::Acc),
            ("RISC".to_string(), "RISC processor".to_string(), ProcessorType::Risc),
            ("CISC".to_string(), "CISC processor".to_string(), ProcessorType::Cisc),
        ]
    );
}

#[test]
fn write_then_read_back_text() {
    for t in ALL {
        let mut r = Runner::new(t);
        assert!(r.set_memory(MemoryType::Text, 5, 42));
        assert!(r.set_memory(MemoryType::Text, 65535, 7));
        let m = mem(&r);
        assert_eq!(m[0].1[5], 42);
        assert_eq!(m[0].1[65535], 7);
        assert_eq!(m[0].1[4], 0);
        assert_eq!(m[0].1[6], 0);
    }
}

#[test]
fn write_then_read_back_stack_data() {
    let mut r = Runner::new(ProcessorType::Stack);
    assert!(r.set_memory(MemoryType::Data, 300, 255));
    let m = mem(&r);
    assert_eq!(m[1].1[300], 255);
    assert_eq!(m[0].1[300], 0);
}

#[test]
fn out_of_range_write_is_refused() {
    for t in ALL {
        let mut r = Runner::new(t);
        let before = mem(&r);
        assert!(!r.set_memory(MemoryType::Text, 65536, 1));
        assert!(!r.set_memory(MemoryType::Text, usize::MAX, 1));
        assert_eq!(mem(&r), before);
    }
    let mut s = Runner::new(ProcessorType::Stack);
    assert!(!s.set_memory(MemoryType::Data, 65536, 1));
    assert_eq!(mem(&s), mem(&Runner::new(ProcessorType::Stack)));
}

#[test]
fn data_write_without_data_segment_is_refused() {
    for t in [ProcessorType::Acc, ProcessorType::Risc, ProcessorType::Cisc] {
        let mut r = Runner::new(t);
        assert!(!r.set_memory(MemoryType::Data, 0, 1));
        assert_eq!(mem(&r), mem(&Runner::new(t)));
    }
}

#[test]
fn stack_text_holds_six_bit_words() {
    let mut r = Runner::new(ProcessorType::Stack);
    assert!(r.set_memory(MemoryType::Text, 10, 63));
    assert!(!r.set_memory(MemoryType::Text, 11, 64));
    assert!(!r.set_memory(MemoryType::Text, 11, 255));
    let m = mem(&r);
    assert_eq!(m[0].1[10], 63);
    assert_eq!(m[0].1[11], 0);
}

#[test]
fn garbage_image_is_refused() {
    for t in ALL {
        let mut r = Runner::new(t);
        assert!(r.set_memory(MemoryType::Text, 3, 9));
        let before = (mem(&r), regs(&r));
        assert!(r.load_program(&[]).is_err());
        assert!(r.load_program(&[1, 2, 3]).is_err());
        assert!(r.load_program(&[7; 40]).is_err());
        assert_eq!((mem(&r), regs(&r)), before);
    }
}

#[test]
fn image_of_another_architecture_is_refused() {
    let acc = acc_image(&[0x00]);
    let stack = stack_image(&[0]);
    for (t, img) in [
        (ProcessorType::Stack, &acc),
        (ProcessorType::Risc, &acc),
        (ProcessorType::Cisc, &acc),
        (ProcessorType::Acc, &stack),
        (ProcessorType::Cisc, &stack),
    ] {
        let mut r = Runner::new(t);
        assert!(r.set_memory(MemoryType::Text, 1, 5));
        let before = (mem(&r), regs(&r));
        assert!(r.load_program(img).is_err());
        assert_eq!((mem(&r), regs(&r)), before);
    }
}

#[test]
fn image_that_does_not_fit_is_refused() {
    let img =
        image(1, &[Seg { start: 65530, cells: vec![1; 10], width: 8, flags: EXECUTABLE | READABLE }]);
    let mut r = Runner::new(ProcessorType::Acc);
    let before = (mem(&r), regs(&r));
    assert!(r.load_program(&img).is_err());
    assert_eq!((mem(&r), regs(&r)), before);
}

#[test]
fn load_resets_registers_and_memory() {
    let mut r = Runner::new(ProcessorType::Acc);
    assert!(r.set_memory(MemoryType::Text, 100, 9));
    // acc = 0x1234, push, halt
    assert!(r.load_program(&acc_image(&[0x90, 0x12, 0x34, 0x05, 0x00])).is_ok());
    let mut ports = Recorder::new(None);
    assert_eq!(r.run(&mut ports), WasmProcessorContinue::Halt);
    assert_ne!(regs(&r), named(&[("PC", 0), ("FR", 0), ("SP", 1024), ("ACC", 0), ("IR1", 0), ("IR2", 0)]));
    assert!(r.load_program(&acc_image(&[0x00])).is_ok());
    assert_eq!(
        regs(&r),
        named(&[("PC", 0), ("FR", 0), ("SP", 1024), ("ACC", 0), ("IR1", 0), ("IR2", 0)])
    );
    let m = mem(&r);
    assert_eq!(m[0].1[0], 0x00);
    assert_eq!(m[0].1[100], 0);
}

#[test]
fn loaded_code_is_in_memory() {
    let mut r = Runner::new(ProcessorType::Acc);
    assert!(r.load_program(&acc_image(&[0x90, 0xAB, 0xCD, 0x00])).is_ok());
    assert_eq!(&mem(&r)[0].1[0..4], &[0x90, 0xAB, 0xCD, 0x00]);
    let mut s = Runner::new(ProcessorType::Stack);
    assert!(s.load_program(&stack_image(&[34, 1, 2, 3, 0])).is_ok());
    assert_eq!(&mem(&s)[0].1[0..5], &[34, 1, 2, 3, 0]);
}

#[test]
fn zero_budget_runs_nothing() {
    let mut r = Runner::new(ProcessorType::Acc);
    assert!(r.load_program(&acc_image(&[0x90, 0x00, 0x05, 0x98, 0x00, 0x01, 0x00])).is_ok());
    let before = (mem(&r), regs(&r));
    let mut ports = Recorder::new(Some(1));
    assert_eq!(r.run_n(&mut ports, 0), WasmProcessorContinue::Continue);
    assert!(ports.outputs().is_empty());
    assert!(ports.inputs().is_empty());
    assert_eq!((mem(&r), regs(&r)), before);
}

#[test]
fn budget_bounds_the_run() {
    let mut r = Runner::new(ProcessorType::Acc);
    // acc = 5; out 1; halt
    assert!(r.load_program(&acc_image(&[0x90, 0x00, 0x05, 0x98, 0x00, 0x01, 0x00])).is_ok());
    let mut ports = Recorder::new(None);
    assert_eq!(r.run_n(&mut ports, 1), WasmProcessorContinue::Continue);
    assert_eq!(regs(&r)[0], ("PC".to_string(), 3));
    assert_eq!(regs(&r)[3], ("ACC".to_string(), 5));
    assert!(ports.outputs().is_empty());
    assert_eq!(r.run_n(&mut ports, 10), WasmProcessorContinue::Halt);
    assert_eq!(ports.outputs(), vec![(1, 5)]);
}

#[test]
fn halted_session_stays_halted() {
    let mut r = Runner::new(ProcessorType::Acc);
    assert!(r.load_program(&acc_image(&[0x90, 0x00, 0x05, 0x98, 0x00, 0x01, 0x00, 0x98, 0x00, 0x02])).is_ok());
    let mut ports = Recorder::new(None);
    assert_eq!(r.run(&mut ports), WasmProcessorContinue::Halt);
    assert_eq!(ports.outputs(), vec![(1, 5)]);
    let before = (mem(&r), regs(&r));
    assert_eq!(r.run(&mut ports), WasmProcessorContinue::Halt);
    assert_eq!(r.run_n(&mut ports, 5), WasmProcessorContinue::Halt);
    assert_eq!(ports.outputs(), vec![(1, 5)]);
    assert_eq!((mem(&r), regs(&r)), before);
}

#[test]
fn faulted_session_stays_faulted() {
    let mut r = Runner::new(ProcessorType::Acc);
    assert!(r.load_program(&acc_image(&[0xFF, 0x98, 0x00, 0x01])).is_ok());
    let mut ports = Recorder::new(None);
    assert_eq!(r.run(&mut ports), WasmProcessorContinue::Error);
    assert_eq!(r.run(&mut ports), WasmProcessorContinue::Error);
    assert!(ports.outputs().is_empty());
    // a new program makes the session runnable again
    assert!(r.load_program(&acc_image(&[0x00])).is_ok());
    assert_eq!(r.run(&mut ports), WasmProcessorContinue::Halt);
}

#[test]
fn outputs_arrive_in_program_order() {
    let mut r = Runner::new(ProcessorType::Acc);
    let code = [
        0x90, 0x00, 0x11, 0x98, 0x00, 0x03, // acc = 0x11; out 3
        0x90, 0x00, 0x22, 0x98, 0x00, 0x01, // acc = 0x22; out 1
        0x90, 0x00, 0x33, 0x98, 0x00, 0x02, // acc = 0x33; out 2
        0x00,
    ];
    assert!(r.load_program(&acc_image(&code)).is_ok());
    let mut ports = Recorder::new(None);
    assert_eq!(r.run(&mut ports), WasmProcessorContinue::Halt);
    assert_eq!(ports.outputs(), vec![(3, 0x11), (1, 0x22), (2, 0x33)]);
}

#[test]
fn stack_machine_outputs_in_order() {
    let mut r = Runner::new(ProcessorType::Stack);
    let mut code: Vec<u8> = Vec::new();
    for (port, value) in [(9u16, 0x0102u16), (4, 0xFFFF), (6, 7)] {
        code.push(34); // mov immediate onto the register stack
        code.extend(imm6(value));
        code.push(43); // out to an immediate port
        code.extend(imm6(port));
    }
    code.push(0);
    assert!(r.load_program(&stack_image(&code)).is_ok());
    let mut ports = Recorder::new(None);
    assert_eq!(r.run(&mut ports), WasmProcessorContinue::Halt);
    assert_eq!(ports.outputs(), vec![(9, 0x0102), (4, 0xFFFF), (6, 7)]);
}

#[test]
fn input_reaches_the_program() {
    let mut r = Runner::new(ProcessorType::Acc);
    // in 7; out 8; halt
    let code = [0x8E, 0x00, 0x07, 0x98, 0x00, 0x08, 0x00];
    assert!(r.load_program(&acc_image(&code)).is_ok());
    let mut ports = Recorder::new(Some(1234));
    assert_eq!(r.run(&mut ports), WasmProcessorContinue::Halt);
    assert_eq!(ports.inputs(), vec![7]);
    assert_eq!(ports.outputs(), vec![(8, 1234)]);
}

#[test]
fn unusable_input_reads_as_zero() {
    assert_eq!(port_input_value(None), 0);
    assert_eq!(port_input_value(Some(77)), 77);
    let mut r = Runner::new(ProcessorType::Acc);
    // acc = 9; in 7; out 8; halt
    let code = [0x90, 0x00, 0x09, 0x8E, 0x00, 0x07, 0x98, 0x00, 0x08, 0x00];
    assert!(r.load_program(&acc_image(&code)).is_ok());
    let mut ports = Recorder::new(None);
    assert_eq!(r.run(&mut ports), WasmProcessorContinue::Halt);
    assert_eq!(ports.outputs(), vec![(8, 0)]);
}

#[test]
fn peek_after_push_accumulator() {
    let mut r = Runner::new(ProcessorType::Acc);
    // acc = 0xBEEF; push; acc = 0x0102; push; halt
    let code = [0x90, 0xBE, 0xEF, 0x05, 0x90, 0x01, 0x02, 0x05, 0x00];
    assert!(r.load_program(&acc_image(&code)).is_ok());
    assert_eq!(r.run(&mut Recorder::new(None)), WasmProcessorContinue::Halt);
    assert_eq!(r.peek_stack(0), 0x0102);
    assert_eq!(r.peek_stack(1), 0xBEEF);
}

#[test]
fn peek_after_push_stack_machine() {
    let mut r = Runner::new(ProcessorType::Stack);
    let mut code: Vec<u8> = vec![34];
    code.extend(imm6(0xCAFE));
    code.push(0);
    assert!(r.load_program(&stack_image(&code)).is_ok());
    assert_eq!(r.run(&mut Recorder::new(None)), WasmProcessorContinue::Halt);
    assert_eq!(r.peek_stack(0), 0xCAFE);
    assert_eq!(regs(&r)[2], ("TOS".to_string(), 254));
}

#[test]
fn peek_reads_big_endian_words_below_the_pointer() {
    for t in [ProcessorType::Acc, ProcessorType::Risc, ProcessorType::Cisc] {
        let mut r = Runner::new(t);
        assert!(r.set_memory(MemoryType::Text, 1024, 0x12));
        assert!(r.set_memory(MemoryType::Text, 1025, 0x34));
        assert!(r.set_memory(MemoryType::Text, 1026, 0xAB));
        assert!(r.set_memory(MemoryType::Text, 1027, 0xCD));
        assert_eq!(r.peek_stack(0), 0x1234);
        assert_eq!(r.peek_stack(1), 0xABCD);
        assert_eq!(r.peek_stack(2), 0);
    }
    let mut s = Runner::new(ProcessorType::Stack);
    assert!(s.set_memory(MemoryType::Data, 256, 0x56));
    assert!(s.set_memory(MemoryType::Data, 257, 0x78));
    assert_eq!(s.peek_stack(0), 0x5678);
}

#[test]
fn peek_at_large_depth_wraps_around_memory() {
    let mut r = Runner::new(ProcessorType::Acc);
    // SP is 1024; depth 255 reads 1024 + 510 = 1534
    assert!(r.set_memory(MemoryType::Text, 1534, 0x01));
    assert!(r.set_memory(MemoryType::Text, 1535, 0x02));
    assert_eq!(r.peek_stack(255), 0x0102);
    assert_eq!(r.peek_stack(128), 0);
}

#[test]
fn risc_image_loads_on_risc_only() {
    let img = image(2, &[Seg { start: 16, cells: vec![0xAA, 0xBB], width: 8, flags: READABLE }]);
    let mut r = Runner::new(ProcessorType::Risc);
    assert!(r.load_program(&img).is_ok());
    assert_eq!(&mem(&r)[0].1[16..18], &[0xAA, 0xBB]);
    assert_eq!(
        regs(&r),
        named(&[("PC", 0), ("FR", 0), ("SP", 1024), ("R00", 0), ("R01", 0), ("R10", 0), ("R11", 0)])
    );
    let mut a = Runner::new(ProcessorType::Acc);
    assert!(a.load_program(&img).is_err());
}

#[test]
fn truncated_image_is_refused_without_parsing() {
    let full = acc_image(&[0x90, 0x00, 0x01, 0x00]);
    assert!(image_frame_check(&full));
    for cut in [full.len() - 1, 42, 17, 16] {
        assert!(!image_frame_check(&full[..cut]));
        let mut r = Runner::new(ProcessorType::Acc);
        assert!(r.load_program(&full[..cut]).is_err());
        assert_eq!(regs(&r)[0], ("PC".to_string(), 0));
    }
}

#[test]
fn frame_check_rejects_oversized_declarations() {
    let mut img = acc_image(&[0x00]);
    // the segment claims far more bits than the image holds
    img[17 + 16] = 0xFF;
    img[17 + 17] = 0xFF;
    assert!(!image_frame_check(&img));
    // a symbol table whose entries do not fit its length
    let mut sym = acc_image(&[0x00]);
    sym[17 + 25 + 8] = 1;
    assert!(!image_frame_check(&sym));
    // no segments at all
    let mut none = acc_image(&[0x00]);
    none[1] = 0;
    assert!(!image_frame_check(&none));
}

#[test]
fn unknown_architecture_tag_is_refused() {
    let mut img = acc_image(&[0x00]);
    img[0] = 7;
    assert!(image_frame_check(&img));
    for t in ALL {
        let mut r = Runner::new(t);
        assert!(r.load_program(&img).is_err());
    }
}

#[test]
fn engine_answers_map_to_statuses() {
    assert_eq!(status_of(ProcessorContinue::KeepRunning), WasmProcessorContinue::Continue);
    assert_eq!(status_of(ProcessorContinue::Halt), WasmProcessorContinue::Halt);
    assert_eq!(status_of(ProcessorContinue::Error), WasmProcessorContinue::Error);
}

#[test]
fn register_state_accessors() {
    let r = RegisterState::new("SP".to_string(), 1024);
    assert_eq!(r.name(), "SP");
    assert_eq!(r.value(), 1024);
}

#[test]
fn selector_routes_to_its_adapter() {
    let mut p = create_processor(ProcessorType::Acc);
    assert!(p.load_executable(&acc_image(&[0x90, 0x00, 0x05, 0x98, 0x00, 0x01, 0x00])).is_ok());
    let mut ports = Recorder::new(None);
    assert_eq!(p.run_n(&mut ports, 0), WasmProcessorContinue::Continue);
    assert_eq!(p.run_n(&mut ports, 1), WasmProcessorContinue::Continue);
    assert_eq!(p.run(&mut ports), WasmProcessorContinue::Halt);
    assert_eq!(ports.outputs(), vec![(1, 5)]);
    assert_eq!(p.get_registers()[0].value(), 7);
}

#[test]
fn adapters_start_from_reset() {
    let s = StackProcessorWrapper::new();
    assert_eq!(s.get_registers().len(), 4);
    assert_eq!(s.peek_stack(0), 0);
    let a = AccProcessorWrapper::new();
    assert_eq!(a.get_memory().len(), 1);
    let r = RiscProcessorWrapper::new();
    assert_eq!(r.get_registers()[2].value(), 1024);
    let mut c = CiscProcessorWrapper::new();
    assert!(c.load_executable(&acc_image(&[0x00])).is_err());
    assert_eq!(c.get_registers()[3].name(), "BP");
}

#[test]
fn oversized_shift_is_a_fault() {
    // acc = 1; lsh 3; out 1; lsh 16
    let mut a = Runner::new(ProcessorType::Acc);
    let code = [0x90, 0x00, 0x01, 0x81, 0x00, 0x03, 0x98, 0x00, 0x01, 0x81, 0x00, 0x10, 0x00];
    assert!(a.load_program(&acc_image(&code)).is_ok());
    let mut ports = Recorder::new(None);
    assert_eq!(a.run(&mut ports), WasmProcessorContinue::Error);
    assert_eq!(ports.outputs(), vec![(1, 8)]);
    assert_eq!(regs(&a)[0], ("PC".to_string(), 9));

    let mut s = Runner::new(ProcessorType::Stack);
    let mut code: Vec<u8> = vec![34];
    code.extend(imm6(1));
    code.push(35);
    code.extend(imm6(16));
    assert!(s.load_program(&stack_image(&code)).is_ok());
    assert_eq!(s.run(&mut Recorder::new(None)), WasmProcessorContinue::Error);

    // lsh r0, r0, sp: the amount register is SP (1024)
    let mut r = Runner::new(ProcessorType::Risc);
    assert!(r.set_memory(MemoryType::Text, 0, 16 << 2));
    assert!(r.set_memory(MemoryType::Text, 1, 4 << 1));
    assert_eq!(r.run_n(&mut Recorder::new(None), 1), WasmProcessorContinue::Error);

    // lsh r0 by the immediate 16
    let mut c = Runner::new(ProcessorType::Cisc);
    for (i, b) in [134u8, 0, 0x00, 0x10].iter().enumerate() {
        assert!(c.set_memory(MemoryType::Text, i, *b));
    }
    assert_eq!(c.run_n(&mut Recorder::new(None), 1), WasmProcessorContinue::Error);
    assert_eq!(regs(&c)[0], ("PC".to_string(), 0));
}

#[test]
fn controller_decisions() {
    let (go, halt, fault) =
        (WasmProcessorContinue::Continue, WasmProcessorContinue::Halt, WasmProcessorContinue::Error);
    assert_eq!(controller_next(halt, 0, 5), Some(halt));
    assert_eq!(controller_next(fault, 3, 5), Some(fault));
    assert_eq!(controller_next(go, 3, 5), None);
    assert_eq!(controller_next(go, 4, 5), Some(go));
}

#[test]
fn budget_counts_instructions() {
    let mut p = create_processor(ProcessorType::Acc);
    // three loads, then halt
    let code = [0x90, 0, 1, 0x90, 0, 2, 0x90, 0, 3, 0x00];
    assert!(p.load_executable(&acc_image(&code)).is_ok());
    let mut ports = Recorder::new(None);
    assert_eq!(p.run_budget(&mut ports, 0), (WasmProcessorContinue::Continue, 0));
    assert_eq!(p.run_budget(&mut ports, 2), (WasmProcessorContinue::Continue, 2));
    assert_eq!(p.run_budget(&mut ports, 10), (WasmProcessorContinue::Halt, 2));
}

#[test]
fn load_refusals_name_their_cause() {
    let mut r = Runner::new(ProcessorType::Stack);
    assert_eq!(r.load_program(&[1, 2, 3]), Err("Failed to load executable".to_string()));
    assert_eq!(r.load_program(&acc_image(&[0])), Err("Invalid architecture".to_string()));
    let big = image(0, &[Seg { start: 65535, cells: vec![0, 0], width: 6, flags: EXECUTABLE }]);
    assert_eq!(r.load_program(&big), Err("Executable does not fit in memory".to_string()));
    let mut c = Runner::new(ProcessorType::Cisc);
    assert_eq!(c.load_program(&acc_image(&[0])), Err("Invalid architecture".to_string()));
}
