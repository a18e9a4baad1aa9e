use chip8_host::host::{
    setup_hardware, Machine, Phase, Session, SurfaceSize, TickAction, TickInput, FRAME_BYTES,
    TICK_NANOS,
};
use chip8_host::keyboard::{KeyEvent, Keyboard};

struct Probe {
    audio: u8,
    program: Vec<u8>,
    steps: u32,
}

impl Machine for Probe {
    type Audio = u8;

    fn audio(&self) -> u8 {
        self.audio
    }

    fn program(&self) -> Vec<u8> {
        self.program.clone()
    }

    fn new(audio: u8) -> Self {
        Probe { audio, program: Vec::new(), steps: 0 }
    }

    fn load_program(&mut self, program: &[u8]) {
        self.program = program.to_vec();
    }

    fn step(&mut self, frame: &mut [u8; FRAME_BYTES], keys: &Keyboard) {
        self.steps += 1;
        frame[0] = self.steps as u8;
        frame[1] = if keys.is_pressed(0x5) { 0xFF } else { 0 };
    }
}

fn quiet() -> TickInput {
    TickInput { present_failed: false, quit: false, key_events: Vec::new(), resized: None }
}

fn session() -> Session<Probe> {
    let (cpu, keyboard) = setup_hardware::<Probe>(7, &vec![0x12, 0x00, 0xA2]);
    Session::new(cpu, keyboard, SurfaceSize { width: 640, height: 320 })
}

#[test]
fn setup_hands_audio_and_program_to_machine() {
    let (cpu, keyboard) = setup_hardware::<Probe>(7, &vec![0x12, 0x00, 0xA2]);
    assert_eq!(cpu.audio, 7);
    assert_eq!(cpu.program, vec![0x12, 0x00, 0xA2]);
    assert_eq!(cpu.program(), vec![0x12, 0x00, 0xA2]);
    assert_eq!(cpu.audio(), 7);
    assert_eq!(cpu.steps, 0);
    assert!((0..16).all(|k| !keyboard.is_pressed(k)));
}

#[test]
fn setup_loads_empty_program() {
    let (cpu, _) = setup_hardware::<Probe>(0, &vec![]);
    assert_eq!(cpu.program(), Vec::<u8>::new());
    assert_eq!(cpu.steps, 0);
}

#[test]
fn new_session_is_running_with_blank_frame() {
    let s = session();
    assert_eq!(s.phase(), Phase::Running);
    assert!(!s.redraw_requested());
    assert_eq!(s.frame().len(), FRAME_BYTES);
    assert!(s.frame().iter().all(|b| *b == 0));
    assert_eq!(s.surface(), SurfaceSize { width: 640, height: 320 });
}

#[test]
fn running_tick_steps_once_and_requests_redraw() {
    let mut s = session();
    let a = s.tick(&quiet());
    assert_eq!(a, TickAction::Continue { resize: None, sleep_nanos: 2_000_000 });
    assert_eq!(s.frame()[0], 1);
    assert!(s.redraw_requested());
    s.tick(&quiet());
    assert_eq!(s.frame()[0], 2);
}

#[test]
fn keys_reach_machine_in_same_tick() {
    let mut s = session();
    let mut input = quiet();
    input.key_events.push(KeyEvent { code: 'w', pressed: true });
    s.tick(&input);
    assert!(s.keyboard().is_pressed(0x5));
    assert_eq!(s.frame()[1], 0xFF);
}

#[test]
fn quit_stops_before_step() {
    let mut s = session();
    s.tick(&quiet());
    let before = s.frame().to_vec();
    let mut input = quiet();
    input.quit = true;
    input.key_events.push(KeyEvent { code: 'w', pressed: true });
    assert_eq!(s.tick(&input), TickAction::Exit);
    assert_eq!(s.phase(), Phase::Terminating);
    assert_eq!(s.frame().to_vec(), before);
    assert!(!s.keyboard().is_pressed(0x5));
    assert_eq!(s.tick(&quiet()), TickAction::Exit);
    assert_eq!(s.frame().to_vec(), before);
}

#[test]
fn present_failure_ends_loop() {
    let mut s = session();
    let mut input = quiet();
    input.present_failed = true;
    assert_eq!(s.tick(&input), TickAction::Exit);
    assert_eq!(s.phase(), Phase::Terminating);
    assert_eq!(s.frame()[0], 0);
}

#[test]
fn resize_changes_surface_only() {
    let mut s = session();
    s.tick(&quiet());
    let before = s.frame().to_vec();
    s.apply_resize(SurfaceSize { width: 1280, height: 960 });
    assert_eq!(s.surface(), SurfaceSize { width: 1280, height: 960 });
    assert_eq!(s.frame().to_vec(), before);
    assert_eq!(s.phase(), Phase::Running);
}

#[test]
fn resize_in_tick_is_forwarded() {
    let mut s = session();
    let mut input = quiet();
    input.resized = Some(SurfaceSize { width: 800, height: 400 });
    let a = s.tick(&input);
    assert_eq!(
        a,
        TickAction::Continue { resize: Some(SurfaceSize { width: 800, height: 400 }), sleep_nanos: TICK_NANOS }
    );
    assert_eq!(s.surface(), SurfaceSize { width: 800, height: 400 });
}

#[test]
fn step_machine_leaves_keys_and_surface() {
    let mut s = session();
    s.step_machine();
    s.step_machine();
    assert_eq!(s.frame()[0], 2);
    assert_eq!(s.surface(), SurfaceSize { width: 640, height: 320 });
    assert!((0..16).all(|k| !s.keyboard().is_pressed(k)));
    assert!(!s.redraw_requested());
}

#[test]
fn nominal_cadence_is_500_ticks_per_second() {
    assert_eq!(1_000_000_000 / TICK_NANOS, 500);
}

#[test]
fn run_steps_advances_machine_only() {
    let mut s = session();
    s.run_steps(5);
    assert_eq!(s.frame()[0], 5);
    assert_eq!(s.surface(), SurfaceSize { width: 640, height: 320 });
    assert_eq!(s.phase(), Phase::Running);
    assert!(!s.redraw_requested());
    s.run_steps(0);
    assert_eq!(s.frame()[0], 5);
}

#[test]
fn frame_matches_logical_resolution() {
    assert_eq!(FRAME_BYTES, 64 * 32 * 4);
}
