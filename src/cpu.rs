use crate::input::Input;
use crate::renderer::Renderer;
use vstd::prelude::*;

verus! {

/// The ways a cycle can fail; each one ends the run.
#[derive(Clone, Debug, PartialEq, Eq)]
pub enum CpuError {
    /// The program counter does not leave room for a two-byte fetch.
    PcOutOfBounds,
    /// A return was executed with an empty call stack.
    StackUnderflow,
    /// An instruction addressed memory past its last byte.
    MemoryOutOfBounds,
    /// A program image does not fit between the program start and the end of memory.
    RomTooLarge,
    /// The renderer refused a frame.
    Render(String),
}

/// The abstract machine: everything an instruction can read or change.
pub struct CpuState {
    pub ram: Seq<u8>,
    pub pc: u16,
    pub i: u16,
    pub stack: Seq<u16>,
    pub delay_timer: u8,
    pub sound_timer: u8,
    pub v: Seq<u8>,
    /// Display cells, indexed by row then column.
    pub video: Seq<Seq<u8>>,
}

/// The sixteen 5-byte glyphs of the hexadecimal digits 0 to F.
pub open spec fn font() -> Seq<u8> {
    seq![
        0xF0u8, 0x90, 0x90, 0x90, 0xF0, 0x20, 0x60, 0x20, 0x20, 0x70,
        0xF0, 0x10, 0xF0, 0x80, 0xF0, 0xF0, 0x10, 0xF0, 0x10, 0xF0,
        0x90, 0x90, 0xF0, 0x10, 0x10, 0xF0, 0x80, 0xF0, 0x10, 0xF0,
        0xF0, 0x80, 0xF0, 0x90, 0xF0, 0xF0, 0x10, 0x20, 0x40, 0x40,
        0xF0, 0x90, 0xF0, 0x90, 0xF0, 0xF0, 0x90, 0xF0, 0x10, 0xF0,
        0xF0, 0x90, 0xF0, 0x90, 0x90, 0xE0, 0x90, 0xE0, 0x90, 0xE0,
        0xF0, 0x80, 0x80, 0x80, 0xF0, 0xE0, 0x90, 0x90, 0x90, 0xE0,
        0xF0, 0x80, 0xF0, 0x80, 0xF0, 0xF0, 0x80, 0xF0, 0x80, 0x80,
    ]
}

/// A display with every cell off.
pub open spec fn blank_screen() -> Seq<Seq<u8>> {
    Seq::new(32, |y: int| Seq::new(64, |x: int| 0u8))
}

/// Memory after start-up: zero but for the font table.
pub open spec fn initial_ram() -> Seq<u8> {
    Seq::new(4096, |k: int| if 0x50 <= k < 0xA0 { font()[k - 0x50] } else { 0u8 })
}

/// The machine as it is created.
pub open spec fn initial_state() -> CpuState {
    CpuState {
        ram: initial_ram(),
        pc: 0x200,
        i: 0,
        stack: Seq::empty(),
        delay_timer: 0,
        sound_timer: 0,
        v: Seq::new(16, |k: int| 0u8),
        video: blank_screen(),
    }
}

/// Bits 12 to 15 of an opcode: its kind.
pub open spec fn op_kind(inst: u16) -> int {
    inst as int / 0x1000
}

/// Bits 8 to 11: the first register operand.
pub open spec fn op_x(inst: u16) -> int {
    (inst as int / 0x100) % 0x10
}

/// Bits 4 to 7: the second register operand.
pub open spec fn op_y(inst: u16) -> int {
    (inst as int / 0x10) % 0x10
}

/// Bits 0 to 3: a 4-bit immediate.
pub open spec fn op_n(inst: u16) -> int {
    inst as int % 0x10
}

/// Bits 0 to 7: an 8-bit immediate.
pub open spec fn op_nn(inst: u16) -> u8 {
    (inst as int % 0x100) as u8
}

/// Bits 0 to 11: an address.
pub open spec fn op_nnn(inst: u16) -> u16 {
    (inst as int % 0x1000) as u16
}

/// The big-endian opcode at the program counter.
pub open spec fn fetch(s: CpuState) -> u16 {
    (s.ram[s.pc as int] as int * 0x100 + s.ram[s.pc as int + 1] as int) as u16
}

/// The machine with the program counter moved past the fetched opcode.
pub open spec fn advance(s: CpuState) -> CpuState {
    CpuState { pc: (s.pc as int + 2) as u16, ..s }
}

/// The program counter moved past one more opcode.
pub open spec fn pc_plus_2(pc: u16) -> u16 {
    ((pc as int + 2) % 0x10000) as u16
}

/// The machine with the next opcode skipped where `c` holds.
pub open spec fn skip_if(s: CpuState, c: bool) -> CpuState {
    if c {
        CpuState { pc: pc_plus_2(s.pc), ..s }
    } else {
        s
    }
}

/// Register `x` set to `val`.
pub open spec fn with_v(s: CpuState, x: int, val: u8) -> CpuState {
    CpuState { v: s.v.update(x, val), ..s }
}

/// Register `x` set to `val`, then the flag register VF set to `flag`.
pub open spec fn with_v_flag(s: CpuState, x: int, val: u8, flag: u8) -> CpuState {
    CpuState { v: s.v.update(x, val).update(15, flag), ..s }
}

/// The arithmetic and logic group, 8XYN.
pub open spec fn alu(s: CpuState, x: int, y: int, n: int) -> CpuState {
    let vx = s.v[x];
    let vy = s.v[y];
    if n == 0 {
        with_v(s, x, vy)
    } else if n == 1 {
        with_v(s, x, vx | vy)
    } else if n == 2 {
        with_v(s, x, vx & vy)
    } else if n == 3 {
        with_v(s, x, vx ^ vy)
    } else if n == 4 {
        with_v_flag(s, x, ((vx + vy) % 256) as u8, if vx + vy > 255 { 1 } else { 0 })
    } else if n == 5 {
        with_v_flag(s, x, ((vx - vy + 256) % 256) as u8, if vx > vy { 1 } else { 0 })
    } else if n == 6 {
        with_v_flag(s, x, vx / 2, vx % 2)
    } else if n == 7 {
        with_v_flag(s, x, ((vy - vx + 256) % 256) as u8, if vy > vx { 1 } else { 0 })
    } else if n == 0xE {
        with_v_flag(s, x, ((vx * 2) % 256) as u8, vx / 128)
    } else {
        s
    }
}

/// Bit `col` of a sprite row, counted from the most significant bit.
pub open spec fn sprite_bit(row: u8, col: int) -> u8 {
    (row >> ((7 - col) as u8)) & 1u8
}

/// Origin column of a sprite: VX wrapped to the screen width.
pub open spec fn draw_x0(s: CpuState, inst: u16) -> int {
    s.v[op_x(inst)] as int % 64
}

/// Origin row of a sprite: VY wrapped to the screen height.
pub open spec fn draw_y0(s: CpuState, inst: u16) -> int {
    s.v[op_y(inst)] as int % 32
}

/// Rows of the sprite that are drawn: those above the bottom edge.
pub open spec fn draw_rows(s: CpuState, inst: u16) -> int {
    let left = 32 - draw_y0(s, inst);
    if op_n(inst) < left {
        op_n(inst)
    } else {
        left
    }
}

/// Columns of each row that are drawn: those left of the right edge.
pub open spec fn draw_cols(s: CpuState, inst: u16) -> int {
    let left = 64 - draw_x0(s, inst);
    if 8 < left {
        8
    } else {
        left
    }
}

/// Whether cell (`yy`, `xx`) lies in the drawn part of the sprite.
pub open spec fn in_sprite(s: CpuState, inst: u16, yy: int, xx: int) -> bool {
    &&& draw_y0(s, inst) <= yy < draw_y0(s, inst) + draw_rows(s, inst)
    &&& draw_x0(s, inst) <= xx < draw_x0(s, inst) + draw_cols(s, inst)
}

/// The display after the sprite of DXYN is XORed onto it.
pub open spec fn drawn_video(s: CpuState, inst: u16) -> Seq<Seq<u8>> {
    Seq::new(
        32,
        |yy: int|
            Seq::new(
                64,
                |xx: int|
                    if in_sprite(s, inst, yy, xx) {
                        s.video[yy][xx] ^ sprite_bit(
                            s.ram[s.i as int + yy - draw_y0(s, inst)],
                            xx - draw_x0(s, inst),
                        )
                    } else {
                        s.video[yy][xx]
                    },
            ),
    )
}

/// The flag after DXYN: the prior value of the last cell drawn, or 0 when
/// no cell is drawn.
pub open spec fn draw_flag(s: CpuState, inst: u16) -> u8 {
    if draw_rows(s, inst) > 0 {
        s.video[draw_y0(s, inst) + draw_rows(s, inst) - 1][draw_x0(s, inst) + draw_cols(s, inst) - 1]
    } else {
        0
    }
}

/// The machine after DXYN.
pub open spec fn draw(s: CpuState, inst: u16) -> CpuState {
    CpuState { video: drawn_video(s, inst), v: s.v.update(15, draw_flag(s, inst)), ..s }
}

/// The FX group: timers, key wait, index arithmetic and memory transfers.
pub open spec fn misc(s: CpuState, inst: u16, last_press: Option<u8>) -> CpuState {
    let x = op_x(inst);
    let vx = s.v[x];
    let nn = op_nn(inst);
    if nn == 0x07 {
        with_v(s, x, s.delay_timer)
    } else if nn == 0x0A {
        match last_press {
            Some(k) => with_v(s, x, k),
            None => CpuState { pc: ((s.pc as int - 2 + 0x10000) % 0x10000) as u16, ..s },
        }
    } else if nn == 0x15 {
        CpuState { delay_timer: vx, ..s }
    } else if nn == 0x18 {
        CpuState { sound_timer: vx, ..s }
    } else if nn == 0x1E {
        let sum = s.i as int + vx as int;
        if sum > 0xFFF {
            CpuState { i: (sum % 0x1000) as u16, v: s.v.update(15, 1), ..s }
        } else {
            CpuState { i: sum as u16, ..s }
        }
    } else if nn == 0x29 {
        CpuState { i: (0x50 + (vx as int % 16) * 5) as u16, ..s }
    } else if nn == 0x33 {
        CpuState {
            ram: s.ram.update(s.i as int, vx / 100).update(s.i as int + 1, (vx / 10) % 10).update(
                s.i as int + 2,
                vx % 10,
            ),
            ..s
        }
    } else if nn == 0x55 {
        CpuState {
            ram: Seq::new(
                s.ram.len(),
                |k: int|
                    if s.i as int <= k <= s.i as int + x {
                        s.v[k - s.i as int]
                    } else {
                        s.ram[k]
                    },
            ),
            ..s
        }
    } else if nn == 0x65 {
        CpuState {
            v: Seq::new(
                s.v.len(),
                |k: int|
                    if k <= x {
                        s.ram[s.i as int + k]
                    } else {
                        s.v[k]
                    },
            ),
            ..s
        }
    } else {
        s
    }
}

/// The machine after executing `inst`, where `key` is whether the key in VX
/// is pressed, `last_press` what the keypad reported as the last press, and
/// `random` the byte drawn at random. Meaningful where `fault` is `None`.
pub open spec fn next_state(
    s: CpuState,
    inst: u16,
    key: bool,
    last_press: Option<u8>,
    random: u8,
) -> CpuState {
    let kind = op_kind(inst);
    let x = op_x(inst);
    let y = op_y(inst);
    let nn = op_nn(inst);
    let nnn = op_nnn(inst);
    if kind == 0 {
        if inst == 0x00E0 {
            CpuState { video: blank_screen(), ..s }
        } else if inst == 0x00EE {
            CpuState { pc: s.stack.last(), stack: s.stack.drop_last(), ..s }
        } else {
            s
        }
    } else if kind == 1 {
        CpuState { pc: nnn, ..s }
    } else if kind == 2 {
        CpuState { stack: s.stack.push(s.pc), pc: nnn, ..s }
    } else if kind == 3 {
        skip_if(s, s.v[x] == nn)
    } else if kind == 4 {
        skip_if(s, s.v[x] != nn)
    } else if kind == 5 {
        skip_if(s, s.v[x] == s.v[y])
    } else if kind == 6 {
        with_v(s, x, nn)
    } else if kind == 7 {
        with_v(s, x, ((s.v[x] + nn) % 256) as u8)
    } else if kind == 8 {
        alu(s, x, y, op_n(inst))
    } else if kind == 9 {
        skip_if(s, s.v[x] != s.v[y])
    } else if kind == 0xA {
        CpuState { i: nnn, ..s }
    } else if kind == 0xB {
        CpuState { pc: (nnn + s.v[0]) as u16, ..s }
    } else if kind == 0xC {
        with_v(s, x, random & nn)
    } else if kind == 0xD {
        draw(s, inst)
    } else if kind == 0xE {
        if nn == 0x9E {
            skip_if(s, key)
        } else if nn == 0xA1 {
            skip_if(s, !key)
        } else {
            s
        }
    } else {
        misc(s, inst, last_press)
    }
}

/// The error that `inst` raises on `s`, if any; the machine is then left as it was.
pub open spec fn fault(s: CpuState, inst: u16) -> Option<CpuError> {
    let kind = op_kind(inst);
    let nn = op_nn(inst);
    if inst == 0x00EE && s.stack.len() == 0 {
        Some(CpuError::StackUnderflow)
    } else if kind == 0xD && draw_rows(s, inst) > 0 && s.i + draw_rows(s, inst) - 1 > 0xFFF {
        Some(CpuError::MemoryOutOfBounds)
    } else if kind == 0xF && nn == 0x33 && s.i + 2 > 0xFFF {
        Some(CpuError::MemoryOutOfBounds)
    } else if kind == 0xF && (nn == 0x55 || nn == 0x65) && s.i + op_x(inst) > 0xFFF {
        Some(CpuError::MemoryOutOfBounds)
    } else {
        None
    }
}

/// Whether `inst` changes the display and so pushes a frame.
pub open spec fn renders(inst: u16) -> bool {
    inst == 0x00E0 || op_kind(inst) == 0xD
}

/// Whether `inst` asks the keypad if the key in VX is pressed.
pub open spec fn reads_key(inst: u16) -> bool {
    op_kind(inst) == 0xE && (op_nn(inst) == 0x9E || op_nn(inst) == 0xA1)
}

/// Whether `inst` asks the keypad for the last press.
pub open spec fn waits_key(inst: u16) -> bool {
    op_kind(inst) == 0xF && op_nn(inst) == 0x0A
}

/// Whether `inst` draws a random byte.
pub open spec fn draws_random(inst: u16) -> bool {
    op_kind(inst) == 0xC
}

/// The memory after a program image is copied in at the program start.
pub open spec fn loaded_ram(ram: Seq<u8>, rom: Seq<u8>) -> Seq<u8> {
    Seq::new(
        ram.len(),
        |k: int| if 0x200 <= k < 0x200 + rom.len() { rom[k - 0x200] } else { ram[k] },
    )
}

/// A timer one tick later: one less, but never below zero.
pub open spec fn tick(t: u8) -> u8 {
    if t > 0 {
        (t - 1) as u8
    } else {
        0
    }
}

/// What executing `inst` on `s` may leave behind: the machine `post` and the
/// result `r`. Which key state, last press and random byte were used is left
/// open; where the opcode reads none of them the outcome is fixed.
pub open spec fn executed(s: CpuState, inst: u16, post: CpuState, r: Result<(), CpuError>) -> bool {
    match fault(s, inst) {
        Some(e) => r == Err::<(), CpuError>(e) && post == s,
        None => {
            &&& exists|key: bool, last_press: Option<u8>, random: u8|
                post == #[trigger] next_state(s, inst, key, last_press, random)
            &&& !reads_key(inst) && !waits_key(inst) && !draws_random(inst) ==> post
                == next_state(s, inst, false, None, 0)
            &&& renders(inst) ==> (r is Ok || r matches Err(CpuError::Render(_)))
            &&& !renders(inst) ==> r is Ok
        },
    }
}

/// Relies on rand::random: a byte drawn by the thread-local generator. Nothing
/// is promised of its value.
pub assume_specification<T>[ rand::random::<T> ]() -> (r: T)
    where
        rand::distributions::Standard: rand::distributions::Distribution<T>,
;

/// The interpreter: machine state together with the display and keypad it drives.
pub struct CPU<'a, I, R> where I: 'a + Input, R: 'a + Renderer {
    ram: [u8; 4096],
    pc: u16,
    i: u16,
    stack: Vec<u16>,
    delay_timer: u8,
    sound_timer: u8,
    v: [u8; 16],
    video_ram: [[u8; 64]; 32],
    renderer: &'a mut R,
    input: &'a I,
}

impl<'a, I, R> View for CPU<'a, I, R> where I: 'a + Input, R: 'a + Renderer {
    type V = CpuState;

    closed spec fn view(&self) -> CpuState {
        CpuState {
            ram: self.ram@,
            pc: self.pc,
            i: self.i,
            stack: self.stack@,
            delay_timer: self.delay_timer,
            sound_timer: self.sound_timer,
            v: self.v@,
            video: Seq::new(32, |y: int| self.video_ram[y]@),
        }
    }
}

impl<'a, I, R> CPU<'a, I, R> where I: 'a + Input, R: 'a + Renderer {
    /// A machine in its start-up state that draws on `renderer` and reads `input`.
    pub fn new(renderer: &'a mut R, input: &'a I) -> (r: Result<Self, String>)
        ensures
            r matches Ok(cpu) && cpu@ == initial_state(),
    {
        let mut cpu = CPU {
            ram: [0u8; 4096],
            pc: 0x200,
            i: 0,
            stack: Vec::new(),
            delay_timer: 0,
            sound_timer: 0,
            v: [0u8; 16],
            video_ram: [[0u8; 64]; 32],
            renderer,
            input,
        };
        cpu.load_font_sprites();
        assert(cpu@.ram =~= initial_ram());
        assert(cpu@.v =~= initial_state().v);
        assert(cpu@.video =~~= blank_screen());
        Ok(cpu)
    }

    /// The program counter.
    pub fn pc(&self) -> (r: u16)
        ensures
            r == self@.pc,
    {
        self.pc
    }

    /// The index register I.
    pub fn index(&self) -> (r: u16)
        ensures
            r == self@.i,
    {
        self.i
    }

    /// General register `x`; register 15 is the flag VF.
    pub fn register(&self, x: usize) -> (r: u8)
        requires
            x < 16,
        ensures
            r == self@.v[x as int],
    {
        self.v[x]
    }

    /// The memory byte at `addr`.
    pub fn memory(&self, addr: usize) -> (r: u8)
        requires
            addr < 4096,
        ensures
            r == self@.ram[addr as int],
    {
        self.ram[addr]
    }

    /// The display cell in column `x` of row `y`.
    pub fn pixel(&self, x: usize, y: usize) -> (r: u8)
        requires
            x < 64,
            y < 32,
        ensures
            r == self@.video[y as int][x as int],
    {
        self.video_ram[y][x]
    }

    /// The delay timer.
    pub fn delay_timer(&self) -> (r: u8)
        ensures
            r == self@.delay_timer,
    {
        self.delay_timer
    }

    /// The sound timer; a tone is due while it is not zero.
    pub fn sound_timer(&self) -> (r: u8)
        ensures
            r == self@.sound_timer,
    {
        self.sound_timer
    }

    /// The number of return addresses on the call stack.
    pub fn stack_depth(&self) -> (r: usize)
        ensures
            r == self@.stack.len(),
    {
        self.stack.len()
    }

    fn load_font_sprites(&mut self)
        ensures
            final(self)@ == (CpuState {
                ram: Seq::new(
                    4096,
                    |k: int| if 0x50 <= k < 0xA0 { font()[k - 0x50] } else { old(self)@.ram[k] },
                ),
                ..old(self)@
            }),
    {
        let font_sprites: [u8; 80] = [
            0xF0, 0x90, 0x90, 0x90, 0xF0, // 0
            0x20, 0x60, 0x20, 0x20, 0x70, // 1
            0xF0, 0x10, 0xF0, 0x80, 0xF0, // 2
            0xF0, 0x10, 0xF0, 0x10, 0xF0, // 3
            0x90, 0x90, 0xF0, 0x10, 0x10, // 4
            0xF0, 0x80, 0xF0, 0x10, 0xF0, // 5
            0xF0, 0x80, 0xF0, 0x90, 0xF0, // 6
            0xF0, 0x10, 0x20, 0x40, 0x40, // 7
            0xF0, 0x90, 0xF0, 0x90, 0xF0, // 8
            0xF0, 0x90, 0xF0, 0x10, 0xF0, // 9
            0xF0, 0x90, 0xF0, 0x90, 0x90, // A
            0xE0, 0x90, 0xE0, 0x90, 0xE0, // B
            0xF0, 0x80, 0x80, 0x80, 0xF0, // C
            0xE0, 0x90, 0x90, 0x90, 0xE0, // D
            0xF0, 0x80, 0xF0, 0x80, 0xF0, // E
            0xF0, 0x80, 0xF0, 0x80, 0x80, // F
        ];
        assert(font_sprites@ =~= font());
        let mut idx: usize = 0;
        while idx < 80
            invariant
                0 <= idx <= 80,
                font_sprites@ == font(),
                self@ == (CpuState { ram: self@.ram, ..old(self)@ }),
                self@.ram.len() == 4096,
                forall|k: int|
                    0 <= k < 4096 ==> self@.ram[k] == if 0x50 <= k < 0x50 + idx {
                        font()[k - 0x50]
                    } else {
                        old(self)@.ram[k]
                    },
            decreases 80 - idx,
        {
            self.ram[idx + 0x50] = font_sprites[idx];
            idx += 1;
        }
        assert(self@.ram =~= Seq::new(
            4096,
            |k: int| if 0x50 <= k < 0xA0 { font()[k - 0x50] } else { old(self)@.ram[k] },
        ));
    }

    /// Copies a program image into memory at the program start.
    pub fn load_rom(&mut self, rom: &[u8]) -> (r: Result<(), CpuError>)
        ensures
            rom@.len() > 0xE00 ==> r == Err::<(), CpuError>(CpuError::RomTooLarge) && final(self)@
                == old(self)@,
            rom@.len() <= 0xE00 ==> r is Ok && final(self)@ == (CpuState {
                ram: loaded_ram(old(self)@.ram, rom@),
                ..old(self)@
            }),
    {
        if rom.len() > 0xE00 {
            return Err(CpuError::RomTooLarge);
        }
        let mut idx: usize = 0;
        while idx < rom.len()
            invariant
                rom@.len() <= 0xE00,
                idx <= rom@.len(),
                self@ == (CpuState { ram: self@.ram, ..old(self)@ }),
                self@.ram.len() == 4096,
                forall|k: int|
                    0 <= k < 4096 ==> #[trigger] self@.ram[k] == if 0x200 <= k < 0x200 + idx {
                        rom@[k - 0x200]
                    } else {
                        old(self)@.ram[k]
                    },
            decreases rom@.len() - idx,
        {
            self.ram[idx + 0x200] = rom[idx];
            idx += 1;
        }
        assert(self@.ram =~= loaded_ram(old(self)@.ram, rom@));
        Ok(())
    }

    /// One tick of the 60 Hz timers: each goes down by one, stopping at zero.
    pub fn decrement_timers(&mut self)
        ensures
            final(self)@ == (CpuState {
                delay_timer: tick(old(self)@.delay_timer),
                sound_timer: tick(old(self)@.sound_timer),
                ..old(self)@
            }),
    {
        if self.delay_timer > 0 {
            self.delay_timer -= 1;
        }
        if self.sound_timer > 0 {
            self.sound_timer -= 1;
        }
    }

    /// Runs one instruction: fetches the opcode at the program counter, moves
    /// past it, and executes it, pushing a frame to the renderer where the
    /// display changed.
    pub fn cycle(&mut self) -> (r: Result<(), CpuError>)
        ensures
            old(self)@.pc > 0xFFE ==> r == Err::<(), CpuError>(CpuError::PcOutOfBounds)
                && final(self)@ == old(self)@,
            old(self)@.pc <= 0xFFE ==> executed(
                advance(old(self)@),
                fetch(old(self)@),
                final(self)@,
                r,
            ),
    {
        if self.pc > 0xFFE {
            return Err(CpuError::PcOutOfBounds);
        }
        let hi = self.ram[self.pc as usize];
        let lo = self.ram[self.pc as usize + 1];
        let next_inst = (hi as u16) * 0x100 + lo as u16;
        self.pc += 2;
        self.execute_instruction(next_inst)
    }

    /// Executes `inst`, asking the keypad and the random source only where
    /// the opcode reads them, and pushing a frame where the display changed.
    fn execute_instruction(&mut self, inst: u16) -> (r: Result<(), CpuError>)
        ensures
            executed(old(self)@, inst, final(self)@, r),
    {
        let kind = inst / 0x1000;
        let x = ((inst / 0x100) % 0x10) as usize;
        let nn = inst % 0x100;
        let key = if kind == 0xE && (nn == 0x9E || nn == 0xA1) {
            self.input.is_key_pressed(self.v[x])
        } else {
            false
        };
        let last_press = if kind == 0xF && nn == 0x0A {
            self.input.get_last_press()
        } else {
            None
        };
        let random: u8 = if kind == 0xC {
            rand::random::<u8>()
        } else {
            0
        };
        let pushes_frame = match self.execute(inst, key, last_press, random) {
            Ok(b) => b,
            Err(e) => {
                return Err(e);
            },
        };
        assert(self@ == next_state(old(self)@, inst, key, last_press, random));
        if pushes_frame {
            match self.renderer.render_screen_ram(self.video_ram) {
                Ok(()) => Ok(()),
                Err(msg) => Err(CpuError::Render(msg)),
            }
        } else {
            Ok(())
        }
    }

    /// Executes the already fetched `inst` with the program counter already
    /// past it. `key` stands for whether the key in VX is pressed (EX9E,
    /// EXA1), `last_press` for the keypad's last press (FX0A), and `random`
    /// for the random byte (CXNN); other opcodes ignore them. Returns whether
    /// the display changed and a frame is owed to the renderer.
    pub fn execute(&mut self, inst: u16, key: bool, last_press: Option<u8>, random: u8) -> (r:
        Result<bool, CpuError>)
        ensures
            fault(old(self)@, inst) matches Some(e) ==> r == Err::<bool, CpuError>(e) && final(self)@ == old(self)@,
            fault(old(self)@, inst) is None ==> r == Ok::<bool, CpuError>(renders(inst)) && final(self)@ == next_state(old(self)@, inst, key, last_press, random),
    {
        let kind = inst / 0x1000;
        let x = ((inst / 0x100) % 0x10) as usize;
        let y = ((inst / 0x10) % 0x10) as usize;
        let n = inst % 0x10;
        let nn = (inst % 0x100) as u8;
        let nnn = inst % 0x1000;
        if kind == 0x0 {
            if inst == 0x00E0 {
                self.video_ram = [[0u8; 64]; 32];
                assert(self@.video =~~= blank_screen());
                return Ok(true);
            } else if inst == 0x00EE {
                match self.stack.pop() {
                    Some(addr) => {
                        self.pc = addr;
                    },
                    None => {
                        return Err(CpuError::StackUnderflow);
                    },
                }
            }
        } else if kind == 0x1 {
            self.pc = nnn;
        } else if kind == 0x2 {
            self.stack.push(self.pc);
            self.pc = nnn;
        } else if kind == 0x3 {
            if self.v[x] == nn {
                self.pc = self.pc.wrapping_add(2);
            }
        } else if kind == 0x4 {
            if self.v[x] != nn {
                self.pc = self.pc.wrapping_add(2);
            }
        } else if kind == 0x5 {
            if self.v[x] == self.v[y] {
                self.pc = self.pc.wrapping_add(2);
            }
        } else if kind == 0x6 {
            self.v[x] = nn;
        } else if kind == 0x7 {
            self.v[x] = self.v[x].wrapping_add(nn);
        } else if kind == 0x8 {
            self.execute_alu(x, y, n);
        } else if kind == 0x9 {
            if self.v[x] != self.v[y] {
                self.pc = self.pc.wrapping_add(2);
            }
        } else if kind == 0xA {
            self.i = nnn;
        } else if kind == 0xB {
            self.pc = nnn + self.v[0] as u16;
        } else if kind == 0xC {
            self.v[x] = random & nn;
        } else if kind == 0xD {
            return match self.draw_sprite(inst) {
                Ok(()) => Ok(true),
                Err(e) => Err(e),
            };
        } else if kind == 0xE {
            if nn == 0x9E {
                if key {
                    self.pc = self.pc.wrapping_add(2);
                }
            } else if nn == 0xA1 {
                if !key {
                    self.pc = self.pc.wrapping_add(2);
                }
            }
        } else {
            return match self.execute_misc(inst, last_press) {
                Ok(()) => Ok(false),
                Err(e) => Err(e),
            };
        }
        Ok(false)
    }

    /// The arithmetic and logic group, 8XYN, with `n` selecting the operation.
    fn execute_alu(&mut self, x: usize, y: usize, n: u16)
        requires
            x < 16,
            y < 16,
        ensures
            final(self)@ == alu(old(self)@, x as int, y as int, n as int),
    {
        let vx = self.v[x];
        let vy = self.v[y];
        if n == 0x0 {
            self.v[x] = vy;
        } else if n == 0x1 {
            self.v[x] = vx | vy;
        } else if n == 0x2 {
            self.v[x] = vx & vy;
        } else if n == 0x3 {
            self.v[x] = vx ^ vy;
        } else if n == 0x4 {
            let sum = vx as u16 + vy as u16;
            self.v[x] = (sum % 0x100) as u8;
            self.v[0xF] = if sum > 0xFF { 1 } else { 0 };
        } else if n == 0x5 {
            let vf: u8 = if vx > vy { 1 } else { 0 };
            self.v[x] = vx.wrapping_sub(vy);
            self.v[0xF] = vf;
        } else if n == 0x6 {
            assert(vx >> 1u8 == vx / 2 && vx & 1u8 == vx % 2) by (bit_vector);
            self.v[x] = vx >> 1;
            self.v[0xF] = vx & 1;
        } else if n == 0x7 {
            let vf: u8 = if vy > vx { 1 } else { 0 };
            self.v[x] = vy.wrapping_sub(vx);
            self.v[0xF] = vf;
        } else if n == 0xE {
            assert(vx >> 7u8 == vx / 128) by (bit_vector);
            self.v[x] = ((vx as u16 * 2) % 0x100) as u8;
            self.v[0xF] = vx >> 7;
        }
    }

    /// The FX group: timers, key wait, index arithmetic and memory transfers.
    fn execute_misc(&mut self, inst: u16, last_press: Option<u8>) -> (r: Result<(), CpuError>)
        requires
            op_kind(inst) == 0xF,
        ensures
            fault(old(self)@, inst) matches Some(e) ==> r == Err::<(), CpuError>(e) && final(self)@ == old(self)@,
            fault(old(self)@, inst) is None ==> r is Ok && final(self)@ == misc(
                old(self)@,
                inst,
                last_press,
            ),
    {
        let x = ((inst / 0x100) % 0x10) as usize;
        let nn = (inst % 0x100) as u8;
        let vx = self.v[x];
        if nn == 0x07 {
            self.v[x] = self.delay_timer;
        } else if nn == 0x0A {
            match last_press {
                Some(key) => {
                    self.v[x] = key;
                },
                None => {
                    self.pc = self.pc.wrapping_sub(2);
                },
            }
        } else if nn == 0x15 {
            self.delay_timer = vx;
        } else if nn == 0x18 {
            self.sound_timer = vx;
        } else if nn == 0x1E {
            let sum = self.i as u32 + vx as u32;
            if sum > 0xFFF {
                self.i = (sum % 0x1000) as u16;
                self.v[0xF] = 1;
            } else {
                self.i = sum as u16;
            }
        } else if nn == 0x29 {
            assert(vx & 0xFu8 == vx % 16) by (bit_vector);
            let glyph = (vx & 0xF) as u16;
            self.i = 0x50 + glyph * 5;
        } else if nn == 0x33 {
            if self.i > 0xFFD {
                return Err(CpuError::MemoryOutOfBounds);
            }
            let base = self.i as usize;
            self.ram[base] = vx / 100;
            self.ram[base + 1] = (vx / 10) % 10;
            self.ram[base + 2] = vx % 10;
        } else if nn == 0x55 {
            if self.i as usize + x > 0xFFF {
                return Err(CpuError::MemoryOutOfBounds);
            }
            let base = self.i as usize;
            let mut k: usize = 0;
            while k <= x
                invariant
                    x < 16,
                    base == old(self)@.i,
                    base + x <= 0xFFF,
                    k <= x + 1,
                    self@ == (CpuState { ram: self@.ram, ..old(self)@ }),
                    self@.ram.len() == 4096,
                    forall|a: int|
                        0 <= a < 4096 ==> #[trigger] self@.ram[a] == if base <= a < base + k {
                            old(self)@.v[a - base]
                        } else {
                            old(self)@.ram[a]
                        },
                decreases x + 1 - k,
            {
                self.ram[base + k] = self.v[k];
                k += 1;
            }
            assert(self@.ram =~= misc(old(self)@, inst, last_press).ram);
        } else if nn == 0x65 {
            if self.i as usize + x > 0xFFF {
                return Err(CpuError::MemoryOutOfBounds);
            }
            let base = self.i as usize;
            let mut k: usize = 0;
            while k <= x
                invariant
                    x < 16,
                    base == old(self)@.i,
                    base + x <= 0xFFF,
                    k <= x + 1,
                    self@ == (CpuState { v: self@.v, ..old(self)@ }),
                    self@.v.len() == 16,
                    forall|a: int|
                        0 <= a < 16 ==> #[trigger] self@.v[a] == if a < k {
                            old(self)@.ram[base + a]
                        } else {
                            old(self)@.v[a]
                        },
                decreases x + 1 - k,
            {
                self.v[k] = self.ram[base + k];
                k += 1;
            }
            assert(self@.v =~= misc(old(self)@, inst, last_press).v);
        }
        Ok(())
    }

    /// DXYN: XORs an N-row sprite read from memory at I onto the display at
    /// (VX, VY), clipping at the right and bottom edges; VF ends up holding
    /// the prior value of the last cell drawn.
    fn draw_sprite(&mut self, inst: u16) -> (r: Result<(), CpuError>)
        requires
            op_kind(inst) == 0xD,
        ensures
            fault(old(self)@, inst) matches Some(e) ==> r == Err::<(), CpuError>(e) && final(self)@ == old(self)@,
            fault(old(self)@, inst) is None ==> r is Ok && final(self)@ == draw(old(self)@, inst),
    {
        let ghost s = self@;
        let x0 = (self.v[((inst / 0x100) % 0x10) as usize] % 64) as usize;
        let y0 = (self.v[((inst / 0x10) % 0x10) as usize] % 32) as usize;
        let n = (inst % 0x10) as usize;
        let rows = if n < 32 - y0 { n } else { 32 - y0 };
        let cols = if 8 < 64 - x0 { 8 } else { 64 - x0 };
        assert(x0 == draw_x0(s, inst) && y0 == draw_y0(s, inst));
        assert(rows == draw_rows(s, inst) && cols == draw_cols(s, inst));
        if rows > 0 && self.i as usize + rows - 1 > 0xFFF {
            return Err(CpuError::MemoryOutOfBounds);
        }
        let base = self.i as usize;
        let mut video = self.video_ram;
        let mut flag: u8 = 0;
        let mut row: usize = 0;
        while row < rows
            invariant
                s == self@,
                base == s.i,
                x0 < 64,
                y0 < 32,
                1 <= cols <= 8,
                x0 + cols <= 64,
                y0 + rows <= 32,
                rows > 0 ==> base + rows - 1 <= 0xFFF,
                row <= rows,
                cols == draw_cols(s, inst),
                x0 == draw_x0(s, inst),
                y0 == draw_y0(s, inst),
                rows == draw_rows(s, inst),
                forall|yy: int, xx: int|
                    0 <= yy < 32 && 0 <= xx < 64 ==> #[trigger] video@[yy]@[xx] == if y0 <= yy
                        < y0 + row && x0 <= xx < x0 + cols {
                        s.video[yy][xx] ^ sprite_bit(s.ram[base + yy - y0], xx - x0)
                    } else {
                        s.video[yy][xx]
                    },
                flag == if row > 0 {
                    s.video[y0 + row - 1][x0 + cols - 1]
                } else {
                    0u8
                },
            decreases rows - row,
        {
            let sprite_row = self.ram[base + row];
            let mut line = video[y0 + row];
            let mut col: usize = 0;
            while col < cols
                invariant
                    s == self@,
                    x0 < 64,
                    y0 + row < 32,
                    1 <= cols <= 8,
                    x0 + cols <= 64,
                    col <= cols,
                    sprite_row == s.ram[base + row],
                    forall|xx: int|
                        0 <= xx < 64 ==> #[trigger] line@[xx] == if x0 <= xx < x0 + col {
                            s.video[y0 + row][xx] ^ sprite_bit(sprite_row, xx - x0)
                        } else {
                            s.video[y0 + row][xx]
                        },
                    col > 0 ==> flag == s.video[y0 + row][x0 + col - 1],
                decreases cols - col,
            {
                let bit = (sprite_row >> (7 - col as u8)) & 1;
                flag = line[x0 + col];
                line[x0 + col] = line[x0 + col] ^ bit;
                col += 1;
            }
            video[y0 + row] = line;
            row += 1;
        }
        self.video_ram = video;
        self.v[0xF] = flag;
        assert(self@.video =~~= drawn_video(s, inst));
        assert(self@.v =~= s.v.update(15, draw_flag(s, inst)));
        Ok(())
    }
}

} // verus!
