use vstd::prelude::*;

use crate::keyboard::{merged, KeyEvent, Keyboard, NUM_KEYS};

verus! {

/// Native display width of the virtual machine, in pixels.
pub const DISPLAY_WIDTH: usize = 64;

/// Native display height of the virtual machine, in pixels.
pub const DISPLAY_HEIGHT: usize = 32;

/// Bytes in the logical framebuffer: four per pixel.
pub const FRAME_BYTES: usize = DISPLAY_WIDTH * DISPLAY_HEIGHT * 4;

/// Logical window width that the host opens, and its minimum.
pub const WINDOW_WIDTH: u32 = 640;

/// Logical window height that the host opens, and its minimum.
pub const WINDOW_HEIGHT: u32 = 320;

/// How long the host sleeps at the end of every tick, in nanoseconds.
pub const TICK_NANOS: u32 = 2_000_000;

/// The virtual machine that the host drives. It owns the audio channel it is
/// built with and alone decides when that channel plays. An implementation
/// keeps the channel it was built with and the program it was last given.
pub trait Machine: Sized {
    type Audio;

    /// The audio channel that the machine was built with.
    spec fn audio(&self) -> Self::Audio;

    /// The program image that was last loaded, as given.
    spec fn program(&self) -> Vec<u8>;

    fn new(audio: Self::Audio) -> (r: Self)
        ensures
            r.audio() == audio;

    fn load_program(&mut self, program: &[u8])
        ensures
            final(self).program()@ == program@,
            final(self).audio() == old(self).audio();

    /// One fetch-decode-execute unit, with timers; may draw into `frame` and
    /// toggle the audio channel.
    fn step(&mut self, frame: &mut [u8; FRAME_BYTES], keys: &Keyboard);
}

/// Builds the virtual machine around its audio channel, loads the whole
/// program into it, and makes an empty key matrix. The audio channel passes
/// to the machine for good; the program is not kept elsewhere.
pub fn setup_hardware<M: Machine>(beeper: M::Audio, program: &Vec<u8>) -> (r: (M, Keyboard))
    ensures
        r.0.audio() == beeper,
        r.0.program()@ == program@,
        r.1.wf(),
        forall|k: int| 0 <= k < NUM_KEYS ==> !#[trigger] r.1@[k],
{
    let mut cpu = M::new(beeper);
    let keyboard = Keyboard::new();
    cpu.load_program(program.as_slice());
    (cpu, keyboard)
}

/// Where the host loop stands.
#[derive(Clone, Copy, Debug, PartialEq, Eq, Structural)]
pub enum Phase {
    Running,
    Terminating,
}

/// Physical size of the presentation surface.
#[derive(Clone, Copy, Debug, PartialEq, Eq, Structural)]
pub struct SurfaceSize {
    pub width: u32,
    pub height: u32,
}

/// What the platform reported since the previous tick.
pub struct TickInput {
    /// The last presentation of the framebuffer failed.
    pub present_failed: bool,
    /// The window was closed or the escape key was pressed.
    pub quit: bool,
    /// Raw key transitions of this batch.
    pub key_events: Vec<KeyEvent>,
    /// New physical size of the window, if it was resized.
    pub resized: Option<SurfaceSize>,
}

/// What the platform side is to do after a tick.
#[derive(Clone, Copy, Debug, PartialEq, Eq, Structural)]
pub enum TickAction {
    /// Leave the loop.
    Exit,
    /// Rescale the surface if asked, request a presentation of the frame,
    /// then sleep `sleep_nanos`.
    Continue { resize: Option<SurfaceSize>, sleep_nanos: u32 },
}

/// The host's state: the machine, the key matrix, the logical framebuffer,
/// the physical surface size and the loop's phase, each with one writer.
pub struct Session<M: Machine> {
    machine: M,
    keyboard: Keyboard,
    frame: [u8; FRAME_BYTES],
    surface: SurfaceSize,
    phase: Phase,
    redraw_requested: bool,
    steps: Ghost<nat>,
    stepped_keys: Ghost<Seq<bool>>,
}

impl<M: Machine> Session<M> {
    pub closed spec fn machine_spec(&self) -> M {
        self.machine
    }

    pub closed spec fn keys_spec(&self) -> Seq<bool> {
        self.keyboard@
    }

    pub closed spec fn frame_spec(&self) -> Seq<u8> {
        self.frame@
    }

    pub closed spec fn surface_spec(&self) -> SurfaceSize {
        self.surface
    }

    pub closed spec fn phase_spec(&self) -> Phase {
        self.phase
    }

    pub closed spec fn redraw_spec(&self) -> bool {
        self.redraw_requested
    }

    /// How many machine steps the session has run.
    pub closed spec fn steps_spec(&self) -> nat {
        self.steps@
    }

    /// The key matrix that the most recent machine step read.
    pub closed spec fn stepped_keys_spec(&self) -> Seq<bool> {
        self.stepped_keys@
    }

    pub closed spec fn wf(&self) -> bool {
        self.keyboard.wf()
    }

    /// A running session around a loaded machine, with a blank frame.
    pub fn new(machine: M, keyboard: Keyboard, surface: SurfaceSize) -> (r: Session<M>)
        requires
            keyboard.wf(),
        ensures
            r.wf(),
            r.machine_spec() == machine,
            r.keys_spec() == keyboard@,
            r.frame_spec() == Seq::new(FRAME_BYTES as nat, |i: int| 0u8),
            r.surface_spec() == surface,
            r.phase_spec() == Phase::Running,
            !r.redraw_spec(),
            r.steps_spec() == 0,
    {
        let frame: [u8; FRAME_BYTES] = [0u8; FRAME_BYTES];
        assert(frame@ =~= Seq::new(FRAME_BYTES as nat, |i: int| 0u8));
        Session {
            machine,
            keyboard,
            frame,
            surface,
            phase: Phase::Running,
            redraw_requested: false,
            steps: Ghost(0),
            stepped_keys: Ghost(Seq::empty()),
        }
    }

    pub fn frame(&self) -> (r: &[u8; FRAME_BYTES])
        ensures
            r@ == self.frame_spec(),
    {
        &self.frame
    }

    pub fn keyboard(&self) -> (r: &Keyboard)
        ensures
            r@ == self.keys_spec(),
    {
        &self.keyboard
    }

    pub fn surface(&self) -> (r: SurfaceSize)
        ensures
            r == self.surface_spec(),
    {
        self.surface
    }

    pub fn phase(&self) -> (r: Phase)
        ensures
            r == self.phase_spec(),
    {
        self.phase
    }

    /// Whether the previous tick asked for the frame to be presented.
    pub fn redraw_requested(&self) -> (r: bool)
        ensures
            r == self.redraw_spec(),
    {
        self.redraw_requested
    }

    /// Runs one machine step. It can change the machine (with its audio
    /// channel) and the framebuffer's bytes, never the framebuffer's size, the
    /// key matrix, the surface or the phase.
    pub fn step_machine(&mut self)
        requires
            old(self).wf(),
        ensures
            final(self).wf(),
            final(self).keys_spec() == old(self).keys_spec(),
            final(self).frame_spec().len() == FRAME_BYTES,
            final(self).surface_spec() == old(self).surface_spec(),
            final(self).phase_spec() == old(self).phase_spec(),
            final(self).redraw_spec() == old(self).redraw_spec(),
            final(self).steps_spec() == old(self).steps_spec() + 1,
            final(self).stepped_keys_spec() == old(self).keys_spec(),
    {
        self.machine.step(&mut self.frame, &self.keyboard);
        self.steps = Ghost(self.steps@ + 1);
        self.stepped_keys = Ghost(self.keyboard@);
    }

    /// Runs `n` machine steps with no host input between them. Only the
    /// machine (with its audio channel) and the framebuffer's bytes change.
    pub fn run_steps(&mut self, n: u64)
        requires
            old(self).wf(),
        ensures
            final(self).wf(),
            final(self).keys_spec() == old(self).keys_spec(),
            final(self).frame_spec().len() == FRAME_BYTES,
            final(self).surface_spec() == old(self).surface_spec(),
            final(self).phase_spec() == old(self).phase_spec(),
            final(self).redraw_spec() == old(self).redraw_spec(),
            final(self).steps_spec() == old(self).steps_spec() + n,
    {
        let mut i: u64 = 0;
        while i < n
            invariant
                i <= n,
                self.wf(),
                self.keys_spec() == old(self).keys_spec(),
                self.surface_spec() == old(self).surface_spec(),
                self.phase_spec() == old(self).phase_spec(),
                self.redraw_spec() == old(self).redraw_spec(),
                self.steps_spec() == old(self).steps_spec() + i,
            decreases n - i,
        {
            self.step_machine();
            i = i + 1;
        }
    }
    /// Rescales the presentation surface to a new physical size. The
    /// framebuffer keeps its logical resolution and every byte of it.
    pub fn apply_resize(&mut self, size: SurfaceSize)
        requires
            old(self).wf(),
        ensures
            final(self).wf(),
            final(self).surface_spec() == size,
            final(self).frame_spec() == old(self).frame_spec(),
            final(self).machine_spec() == old(self).machine_spec(),
            final(self).keys_spec() == old(self).keys_spec(),
            final(self).phase_spec() == old(self).phase_spec(),
            final(self).redraw_spec() == old(self).redraw_spec(),
            final(self).steps_spec() == old(self).steps_spec(),
            final(self).stepped_keys_spec() == old(self).stepped_keys_spec(),
    {
        self.surface = size;
    }

    /// One tick of the host loop. A presentation failure or a quit ends the
    /// loop before the machine steps; otherwise the key matrix takes the batch,
    /// the surface follows a resize, the machine steps once, and a
    /// presentation is requested before a fixed sleep. Once terminating, the
    /// session no longer changes.
    pub fn tick(&mut self, input: &TickInput) -> (r: TickAction)
        requires
            old(self).wf(),
        ensures
            final(self).wf(),
            old(self).phase_spec() == Phase::Terminating ==> {
                &&& r == TickAction::Exit
                &&& *final(self) == *old(self)
            },
            old(self).phase_spec() == Phase::Running && (input.present_failed || input.quit) ==> {
                &&& r == TickAction::Exit
                &&& final(self).phase_spec() == Phase::Terminating
                &&& final(self).machine_spec() == old(self).machine_spec()
                &&& final(self).frame_spec() == old(self).frame_spec()
                &&& final(self).keys_spec() == old(self).keys_spec()
                &&& final(self).surface_spec() == old(self).surface_spec()
                &&& final(self).steps_spec() == old(self).steps_spec()
                &&& !final(self).redraw_spec()
            },
            old(self).phase_spec() == Phase::Running && !input.present_failed && !input.quit ==> {
                &&& r == (TickAction::Continue { resize: input.resized, sleep_nanos: TICK_NANOS })
                &&& final(self).phase_spec() == Phase::Running
                &&& final(self).keys_spec() == merged(old(self).keys_spec(), input.key_events@)
                &&& final(self).surface_spec() == match input.resized {
                    Some(size) => size,
                    None => old(self).surface_spec(),
                }
                &&& final(self).steps_spec() == old(self).steps_spec() + 1
                &&& final(self).stepped_keys_spec() == final(self).keys_spec()
                &&& final(self).redraw_spec()
            },
    {
        if self.phase == Phase::Terminating {
            return TickAction::Exit;
        }
        if input.present_failed || input.quit {
            self.phase = Phase::Terminating;
            self.redraw_requested = false;
            return TickAction::Exit;
        }
        self.keyboard.handle_input(&input.key_events);
        if let Some(size) = input.resized {
            self.apply_resize(size);
        }
        self.step_machine();
        self.redraw_requested = true;
        TickAction::Continue { resize: input.resized, sleep_nanos: TICK_NANOS }
    }
}

/// The nominal cadence: the fixed sleeps of 500 ticks fill exactly one
/// second, so with negligible step cost `t` seconds hold `500 * t` ticks.
pub proof fn lemma_nominal_tick_rate(t: nat)
    ensures
        500 * t * TICK_NANOS == t * 1_000_000_000,
        (t * 1_000_000_000) / (TICK_NANOS as nat) == 500 * t,
{
    assert(500 * t * TICK_NANOS == t * 1_000_000_000) by (nonlinear_arith);
    vstd::arithmetic::div_mod::lemma_div_multiples_vanish((500 * t) as int, TICK_NANOS as int);
    assert((TICK_NANOS as int) * ((500 * t) as int) == t * 1_000_000_000) by (nonlinear_arith);
}

} // verus!
