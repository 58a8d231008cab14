use space_invaders_core::io::Ev;
use space_invaders_core::io::IO;
use space_invaders_core::memory::load_rom;
use space_invaders_core::memory::Fault;
use space_invaders_core::memory::SIMmu;
use space_invaders_core::memory::VRam;
use space_invaders_core::memory::SEGMENT_SIZE;
use space_invaders_core::memory::VRAM_SIZE;
use space_invaders_core::scheduler::FrameScheduler;
use space_invaders_core::scheduler::IrqCmd;
use space_invaders_core::scheduler::StepEngine;
use space_invaders_core::scheduler::CLOCKS_PER_FRAME;
use space_invaders_core::scheduler::CLOCKS_PER_HALF_FRAME;

/// A deterministic stand-in for the external CPU interpreter: every step
/// fetches one byte from program ROM through the router, stores a byte into
/// working RAM and the frame buffer, touches the I/O ports, and costs a
/// fixed number of cycles. Interrupt delivery is recorded and acknowledged.
struct WalkingEngine {
    mem: SIMmu,
    io: IO,
    pc: u16,
    irq1_count: u64,
    irq2_count: u64,
}

impl WalkingEngine {
    fn new() -> WalkingEngine {
        let seg = vec![0u8; SEGMENT_SIZE];
        let rom = load_rom(&seg, &seg, &seg, &seg);
        let mem = SIMmu::new(rom, VRam::new(vec![0u8; VRAM_SIZE]));
        let io = IO::default().change_lives(3).coin_info_set(true).lower_bonus_life(true);
        WalkingEngine { mem, io, pc: 0, irq1_count: 0, irq2_count: 0 }
    }
}

impl StepEngine for WalkingEngine {
    fn step(&mut self) -> Result<u32, Fault> {
        let opcode = self.mem.read_byte(self.pc)?;
        self.mem.write_byte(0x2000 + (self.pc & 0x03FF), opcode.wrapping_add(1))?;
        self.mem.write_byte(0x2400 + (self.pc & 0x03FF), opcode.wrapping_add(2))?;
        let port_byte = self.io.read(1);
        self.io.send(4, port_byte);
        self.pc = (self.pc + 1) & 0x1FFF;
        Ok(100)
    }

    fn irq(&mut self, cmd: IrqCmd) -> Result<(), Fault> {
        match cmd {
            IrqCmd::Irq1 => self.irq1_count += 1,
            IrqCmd::Irq2 => self.irq2_count += 1,
        }
        Ok(())
    }
}

/// An engine whose next step faults, for checking fault propagation.
struct FaultingEngine {
    fault: Fault,
    fail_irq: bool,
}

impl StepEngine for FaultingEngine {
    fn step(&mut self) -> Result<u32, Fault> {
        if self.fail_irq {
            Ok(100)
        } else {
            Err(self.fault)
        }
    }

    fn irq(&mut self, _cmd: IrqCmd) -> Result<(), Fault> {
        if self.fail_irq {
            Err(self.fault)
        } else {
            Ok(())
        }
    }
}

#[test]
fn should_execute_first_1000_frames() {
    let mut engine = WalkingEngine::new();
    let mut scheduler = FrameScheduler::new();

    for _i in 0..1000 {
        scheduler.next_frame(&mut engine).unwrap();
    }
}

#[test]
fn fresh_session_counters() {
    let scheduler = FrameScheduler::new();
    assert_eq!(0, scheduler.clocks);
    assert_eq!(1, scheduler.frames);
}

#[test]
fn one_frame_reaches_both_budgets_and_raises_both_interrupts() {
    let mut engine = WalkingEngine::new();
    let mut scheduler = FrameScheduler::new();

    scheduler.next_frame(&mut engine).unwrap();

    assert_eq!(2, scheduler.frames);
    assert!(scheduler.clocks >= CLOCKS_PER_FRAME + CLOCKS_PER_HALF_FRAME);
    assert!(scheduler.clocks < CLOCKS_PER_FRAME + CLOCKS_PER_HALF_FRAME + 100);
    assert_eq!(1, engine.irq1_count);
    assert_eq!(1, engine.irq2_count);
}

#[test]
fn interrupts_are_raised_once_per_half_frame() {
    let mut engine = WalkingEngine::new();
    let mut scheduler = FrameScheduler::new();

    for _i in 0..10 {
        scheduler.next_frame(&mut engine).unwrap();
    }

    assert_eq!(10, engine.irq1_count);
    assert_eq!(10, engine.irq2_count);
    assert_eq!(11, scheduler.frames);
}

#[test]
fn run_till_overshoots_by_less_than_one_instruction() {
    let mut engine = WalkingEngine::new();
    let mut scheduler = FrameScheduler::new();

    scheduler.run_till(&mut engine, 12345).unwrap();
    assert!(scheduler.clocks >= 12345);
    assert!(scheduler.clocks < 12345 + 100);

    // an already-met target leaves the running total untouched
    let reached = scheduler.clocks;
    scheduler.run_till(&mut engine, 100).unwrap();
    assert_eq!(reached, scheduler.clocks);
}

#[test]
fn step_fault_aborts_the_frame() {
    let mut engine = FaultingEngine { fault: Fault::IllegalWrite { address: 0x0000, value: 0xAB }, fail_irq: false };
    let mut scheduler = FrameScheduler::new();

    let r = scheduler.next_frame(&mut engine);

    assert_eq!(Err(Fault::IllegalWrite { address: 0x0000, value: 0xAB }), r);
    assert_eq!(1, scheduler.frames);
}

#[test]
fn interrupt_delivery_fault_aborts_the_frame() {
    let mut engine = FaultingEngine { fault: Fault::InterruptDelivery, fail_irq: true };
    let mut scheduler = FrameScheduler::new();

    let r = scheduler.next_frame(&mut engine);

    assert_eq!(Err(Fault::InterruptDelivery), r);
    assert_eq!(1, scheduler.frames);
}

#[test]
fn engine_faults_propagate_from_the_router() {
    // a step that writes into ROM surfaces the router's fault unchanged
    struct RomWriter {
        mem: SIMmu,
    }
    impl StepEngine for RomWriter {
        fn step(&mut self) -> Result<u32, Fault> {
            self.mem.write_byte(0x0010, 0x5A)?;
            Ok(100)
        }
        fn irq(&mut self, _cmd: IrqCmd) -> Result<(), Fault> {
            Ok(())
        }
    }

    let seg = vec![0u8; SEGMENT_SIZE];
    let rom = load_rom(&seg, &seg, &seg, &seg);
    let mem = SIMmu::new(rom, VRam::new(vec![0u8; VRAM_SIZE]));
    let mut engine = RomWriter { mem };
    let mut scheduler = FrameScheduler::new();

    let r = scheduler.next_frame(&mut engine);
    assert_eq!(Err(Fault::IllegalWrite { address: 0x0010, value: 0x5A }), r);
}

#[test]
fn session_configuration_is_visible_on_the_ports() {
    // the session assembly the host performs: three lives, coin info on,
    // lowered bonus-life threshold
    let mut io = IO::default().change_lives(3).coin_info_set(true).lower_bonus_life(true);

    assert_eq!(3, io.lives());
    assert!(io.coin_info());
    assert_eq!(1000, io.bonus_life());

    io.ui_event(Ev::Coin, true);
    assert_eq!(0x00, io.read(1) & 0x01);
    io.ui_event(Ev::Coin, false);
    assert_eq!(0x01, io.read(1) & 0x01);
}
