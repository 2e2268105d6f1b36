use vstd::prelude::*;
use crate::cartridge::{Cartridge, loadable, new_cartridge_from_bytes};
use crate::cpu::{CPU, CpuState, cycled};
use crate::mmu::joypad::Key;
use crate::mmu::interrupt_flag::InterruptRequest;
use crate::mmu::{MMU, MmuState};
use crate::ppu::PPU;

verus! {

/// The console: CPU, bus and display, and the message of the fault that
/// stopped the CPU, if one did.
pub struct Jimbot {
    mmu: MMU,
    cpu: CPU,
    ppu: PPU,
    error_message: Option<String>,
    i: u8,
}

/// The console as values.
pub struct JimbotState {
    pub mmu: MmuState,
    pub cpu: CpuState,
    pub ppu: PPU,
    pub error: Option<Seq<char>>,
}

impl View for Jimbot {
    type V = JimbotState;

    closed spec fn view(&self) -> JimbotState {
        JimbotState {
            mmu: self.mmu@,
            cpu: self.cpu@,
            ppu: self.ppu,
            error: match self.error_message {
                Some(m) => Some(m@),
                None => None,
            },
        }
    }
}

/// Machine cycles that the console runs for one frame at sixty frames a
/// second: a quarter of the 4194304 Hz clock, over 60, rounded up.
pub const CYCLES_PER_FRAME: usize = 17477;

/// The joypad key that entry `i` of the keys held for a frame stands for.
pub open spec fn frame_key(i: int) -> Key {
    if i == 0 {
        Key::Up
    } else if i == 1 {
        Key::Left
    } else if i == 2 {
        Key::Down
    } else if i == 3 {
        Key::Right
    } else if i == 4 {
        Key::A
    } else if i == 5 {
        Key::B
    } else if i == 6 {
        Key::Start
    } else {
        Key::Select
    }
}

/// `n` calls of `run`, one after another, each as its contract says.
pub open spec fn runs(from: JimbotState, to: JimbotState, n: nat) -> bool
    decreases n,
{
    if n == 0 {
        from == to
    } else {
        exists|mid: JimbotState| runs(from, mid, (n - 1) as nat) && #[trigger] mid.steps_to(to)
    }
}

/// One cycle of the devices that follow the CPU: the timer, the sound unit,
/// then the display.
pub open spec fn devices_cycled(p: PPU, m: MmuState, p2: PPU, m2: MmuState) -> bool {
    exists|a: MmuState, b: MmuState|
        #![trigger m.timer_cycled(a), a.apu_cycled(b)]
        m.timer_cycled(a) && a.apu_cycled(b) && p.cycled(b, p2, m2)
}

/// `n` cycles of the devices, one after another.
pub open spec fn devices_ran(p: PPU, m: MmuState, p2: PPU, m2: MmuState, n: nat) -> bool
    decreases n,
{
    if n == 0 {
        p == p2 && m == m2
    } else {
        exists|q: PPU, k: MmuState| devices_ran(p, m, q, k, (n - 1) as nat) && #[trigger] devices_cycled(q, k, p2, m2)
    }
}

/// `n` cycles of the devices and one more make `n + 1`.
proof fn lemma_devices_one_more(p: PPU, m: MmuState, q: PPU, k: MmuState, p2: PPU, m2: MmuState, n: nat)
    requires
        devices_ran(p, m, q, k, n),
        devices_cycled(q, k, p2, m2),
    ensures
        devices_ran(p, m, p2, m2, n + 1),
{
    assert(((n + 1) - 1) as nat == n);
}

/// `n` calls of `run` and one more make `n + 1`.
proof fn lemma_runs_one_more(from: JimbotState, mid: JimbotState, to: JimbotState, n: nat)
    requires
        runs(from, mid, n),
        mid.steps_to(to),
    ensures
        runs(from, to, n + 1),
{
    assert(((n + 1) - 1) as nat == n);
    assert(runs(from, mid, ((n + 1) - 1) as nat) && mid.steps_to(to));
}

/// Running `n` cycles and then `k` more is running `n + k` cycles.
pub proof fn lemma_runs_compose(a: JimbotState, b: JimbotState, c: JimbotState, n: nat, k: nat)
    requires
        runs(a, b, n),
        runs(b, c, k),
    ensures
        runs(a, c, n + k),
    decreases k,
{
    if k == 0 {
        assert(b == c);
    } else {
        let mid = choose|mid: JimbotState| runs(b, mid, (k - 1) as nat) && #[trigger] mid.steps_to(c);
        lemma_runs_compose(a, b, mid, n, (k - 1) as nat);
        lemma_runs_one_more(a, mid, c, (n + k - 1) as nat);
    }
}

impl JimbotState {
    /// A key pressed: held, and the joypad interrupt requested.
    pub open spec fn pressed(self, key: Key) -> JimbotState {
        JimbotState {
            mmu: MmuState {
                joypad: self.mmu.joypad.with_key(key, true),
                interrupt_flags: self.mmu.interrupt_flags | InterruptRequest::Joypad.mask(),
                ..self.mmu
            },
            ..self
        }
    }

    /// A key released.
    pub open spec fn released(self, key: Key) -> JimbotState {
        JimbotState { mmu: MmuState { joypad: self.mmu.joypad.with_key(key, false), ..self.mmu }, ..self }
    }

    /// The first `n` of the keys of a frame pressed or released, in order, as
    /// `held` says.
    pub open spec fn with_keys(self, held: Seq<bool>, n: nat) -> JimbotState
        decreases n,
    {
        if n == 0 {
            self
        } else {
            let before = self.with_keys(held, (n - 1) as nat);
            if held[n - 1] {
                before.pressed(frame_key(n - 1))
            } else {
                before.released(frame_key(n - 1))
            }
        }
    }

    /// One call of `run`: with a fault kept, nothing changes; otherwise the
    /// CPU makes one machine cycle, whose fault, if any, is kept.
    pub open spec fn steps_to(self, next: JimbotState) -> bool {
        &&& next.wf()
        &&& self.error is Some ==> next == self
        &&& self.error is None ==> exists|m: MmuState, r: Result<(), String>|
            #![trigger cycled(self.cpu, self.mmu, next.cpu, m, r)]
            cycled(self.cpu, self.mmu, next.cpu, m, r) && match r {
                Ok(_) => next.error is None,
                Err(e) => next.error == Some(e@),
            } && devices_ran(self.ppu, m, next.ppu, next.mmu, 4)
    }

    pub open spec fn wf(self) -> bool {
        &&& self.mmu.wf()
        &&& self.mmu.cart is Some
        &&& self.cpu.wf()
        &&& self.ppu.wf()
    }
}

impl Jimbot {
    /// A console at power-on with `boot_rom` mapped over `cartridge`.
    pub fn new(boot_rom: [u8; 0x100], cartridge: Cartridge) -> (r: Self)
        requires
            cartridge.wf(),
            cartridge.banks_decodable(),
        ensures
            r@.wf(),
            r@.error is None,
            r@.mmu.cart == Some(cartridge),
            r@.mmu.boot_rom == boot_rom@,
            r@.mmu.boot_mode,
            !r@.ppu.enable,
    {
        let cpu = CPU::default();
        Self {
            mmu: MMU::new(boot_rom, Some(cartridge)),
            cpu,
            ppu: PPU::default(),
            error_message: None,
            i: 0,
        }
    }

    /// A console at power-on with the cartridge that a ROM image describes.
    pub fn new_with_cartridge_bytes(boot_rom: [u8; 0x100], bytes: Vec<u8>) -> (r: Self)
        requires
            loadable(bytes@, None),
        ensures
            r@.wf(),
            r@.error is None,
            r@.mmu.cart matches Some(c) && c.is_fresh(bytes@, None),
            r@.mmu.boot_rom == boot_rom@,
    {
        let cartridge = new_cartridge_from_bytes(bytes);
        Self::new(boot_rom, cartridge)
    }

    /// One machine cycle: the CPU's, then four cycles of timer, sound and
    /// display. A fault stops the CPU: its message is kept, and nothing runs
    /// until it is cleared.
    pub fn run(&mut self)
        requires
            old(self)@.wf(),
        ensures
            old(self)@.steps_to(final(self)@),
    {
        if self.error_message.is_some() {
            return ;
        }
        let r = self.cpu.cycle(&mut self.mmu);
        let ghost m = self.mmu@;
        self.error_message = match r {
            Ok(_) => None,
            Err(e) => Some(e),
        };
        let ghost after_cpu = self@;
        let mut k: u8 = 0;
        while k < 4
            invariant
                k <= 4,
                self.mmu@.wf(),
                self.mmu@.cart is Some,
                self.ppu.wf(),
                self@.cpu == after_cpu.cpu,
                self@.error == after_cpu.error,
                after_cpu.cpu.wf(),
                after_cpu.mmu == m,
                devices_ran(after_cpu.ppu, m, self.ppu, self.mmu@, k as nat),
            decreases 4 - k,
        {
            let ghost (p0, m0) = (self.ppu, self.mmu@);
            self.mmu.cycle_timer();
            let ghost a = self.mmu@;
            self.mmu.cycle_apu();
            let ghost b = self.mmu@;
            self.ppu.cycle(&mut self.mmu);
            proof {
                assert(m0.timer_cycled(a) && a.apu_cycled(b) && p0.cycled(b, self.ppu, self.mmu@));
                lemma_devices_one_more(after_cpu.ppu, m, p0, m0, self.ppu, self.mmu@, k as nat);
            }
            k = k + 1;
        }
        assert(cycled(old(self)@.cpu, old(self)@.mmu, self.cpu@, m, r));
    }

    pub fn mmu(&self) -> (r: &MMU)
        ensures
            r@ == self@.mmu,
    {
        &self.mmu
    }

    pub fn test(&mut self) -> (r: &mut i8)
        ensures
            *r == old(self)@.mmu.test,
            final(self)@ == (JimbotState { mmu: MmuState { test: *final(r), ..old(self)@.mmu }, ..old(self)@ }),
    {
        self.mmu.test_mut()
    }

    pub fn cpu(&self) -> (r: &CPU)
        ensures
            r@ == self@.cpu,
    {
        &self.cpu
    }

    pub fn error_message(&self) -> (r: &Option<String>)
        ensures
            match *r {
                Some(m) => self@.error == Some(m@),
                None => self@.error is None,
            },
    {
        &self.error_message
    }

    pub fn clear_error(&mut self)
        ensures
            final(self)@ == (JimbotState { error: None, ..old(self)@ }),
    {
        self.error_message = None
    }

    pub fn ppu(&self) -> (r: &PPU)
        ensures
            *r == self@.ppu,
    {
        &self.ppu
    }

    /// Hands out the sound samples taken since the last call, in eighths of
    /// the output level.
    pub fn get_sound_data(&mut self) -> (r: Vec<u16>)
        ensures
            r@ == old(self)@.mmu.apu.amps@,
            final(self)@.mmu.apu.amps@ == Seq::<u16>::empty(),
            final(self)@ == (JimbotState { mmu: final(self)@.mmu, ..old(self)@ }),
            final(self)@.mmu == (MmuState { apu: final(self)@.mmu.apu, ..old(self)@.mmu }),
    {
        self.mmu.take_sound_data()
    }

    /// Presses, or releases, the key that entry `i` of a frame's keys stands for.
    fn set_frame_key(&mut self, i: usize, down: bool)
        requires
            old(self)@.wf(),
            i < 8,
        ensures
            final(self)@.wf(),
            final(self)@ == if down {
                old(self)@.pressed(frame_key(i as int))
            } else {
                old(self)@.released(frame_key(i as int))
            },
    {
        let key = match i {
            0 => Key::Up,
            1 => Key::Left,
            2 => Key::Down,
            3 => Key::Right,
            4 => Key::A,
            5 => Key::B,
            6 => Key::Start,
            _ => Key::Select,
        };
        if down {
            self.joypad_press(key);
        } else {
            self.joypad_release(key);
        }
    }

    /// One frame of the desktop front end: each of the eight keys, in the
    /// order of `frame_key`, pressed where `held` says so and released
    /// otherwise; then `CYCLES_PER_FRAME` calls of `run`.
    pub fn run_frame(&mut self, held: &[bool; 8])
        requires
            old(self)@.wf(),
        ensures
            final(self)@.wf(),
            runs(old(self)@.with_keys(held@, 8), final(self)@, CYCLES_PER_FRAME as nat),
    {
        let ghost start = self@;
        let mut k: usize = 0;
        while k < 8
            invariant
                k <= 8,
                self@ == start.with_keys(held@, k as nat),
                self@.wf(),
            decreases 8 - k,
        {
            self.set_frame_key(k, held[k]);
            k = k + 1;
        }
        self.run_cycles(CYCLES_PER_FRAME);
    }

    /// `n` calls of `run`, one after another.
    pub fn run_cycles(&mut self, n: usize)
        requires
            old(self)@.wf(),
        ensures
            final(self)@.wf(),
            runs(old(self)@, final(self)@, n as nat),
    {
        let ghost start = self@;
        let mut i: usize = 0;
        while i < n
            invariant
                i <= n,
                self@.wf(),
                runs(start, self@, i as nat),
            decreases n - i,
        {
            let ghost before = self@;
            self.run();
            proof {
                lemma_runs_one_more(start, before, self@, i as nat);
            }
            i = i + 1;
        }
    }

    pub fn joypad_press(&mut self, key: Key)
        ensures
            final(self)@ == (JimbotState {
                mmu: MmuState {
                    joypad: old(self)@.mmu.joypad.with_key(key, true),
                    interrupt_flags: old(self)@.mmu.interrupt_flags | InterruptRequest::Joypad.mask(),
                    ..old(self)@.mmu
                },
                ..old(self)@
            }),
    {
        self.mmu.joypad_press(key);
    }

    pub fn joypad_release(&mut self, key: Key)
        ensures
            final(self)@ == (JimbotState {
                mmu: MmuState { joypad: old(self)@.mmu.joypad.with_key(key, false), ..old(self)@.mmu },
                ..old(self)@
            }),
    {
        self.mmu.joypad_release(key);
    }
}

} // verus!
