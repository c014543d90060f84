use vstd::prelude::*;


verus! {

/// Bytes of addressable memory.
pub const MEMORY_SIZE: usize = 4096;

/// Where programs are loaded and where execution starts.
pub const PROGRAM_START: u16 = 0x200;

/// Screen width and height in pixels.
pub const WIDTH: usize = 64;

pub const HEIGHT: usize = 32;

/// Number of pixels on the screen, stored row by row.
pub const PIXELS: usize = 2048;

/// Deepest nesting of subroutine calls.
pub const STACK_DEPTH: usize = 16;

/// The sixteen hex-digit glyphs, five bytes each, loaded at address 0.
pub const FONT: [u8; 80] = [
    0xF0, 0x90, 0x90, 0x90, 0xF0,  // 0
    0x20, 0x60, 0x20, 0x20, 0x70,  // 1
    0xF0, 0x10, 0xF0, 0x80, 0xF0,  // 2
    0xF0, 0x10, 0xF0, 0x10, 0xF0,  // 3
    0x90, 0x90, 0xF0, 0x10, 0x10,  // 4
    0xF0, 0x80, 0xF0, 0x10, 0xF0,  // 5
    0xF0, 0x80, 0xF0, 0x90, 0xF0,  // 6
    0xF0, 0x10, 0x20, 0x40, 0x40,  // 7
    0xF0, 0x90, 0xF0, 0x90, 0xF0,  // 8
    0xF0, 0x90, 0xF0, 0x10, 0xF0,  // 9
    0xF0, 0x90, 0xF0, 0x90, 0x90,  // A
    0xE0, 0x90, 0xE0, 0x90, 0xE0,  // B
    0xF0, 0x80, 0x80, 0x80, 0xF0,  // C
    0xE0, 0x90, 0x90, 0x90, 0xE0,  // D
    0xF0, 0x80, 0xF0, 0x80, 0xF0,  // E
    0xF0, 0x80, 0xF0, 0x80, 0x80,  // F
];

/// A fault that stops the machine. Every operation that reports one leaves
/// the machine as it found it.
#[derive(Clone, Copy, Debug, PartialEq, Eq, Structural)]
pub enum Fault {
    /// A call with all sixteen stack slots in use.
    StackOverflow,
    /// A return with no call to return from.
    StackUnderflow,
    /// An access at or past the end of memory.
    AddressOutOfRange,
    /// A program that does not fit between `PROGRAM_START` and the end of memory.
    ProgramTooLarge,
}

/// What an executed instruction asks of the loop that runs it.
#[derive(Clone, Copy, Debug, PartialEq, Eq, Structural)]
pub enum Flow {
    /// Go on with the next instruction.
    Next,
    /// The instruction set the program counter itself: do not advance it.
    Jumped,
    /// Go on with the next instruction; the screen changed and should be shown.
    Drawn,
    /// Go on with the next instruction once a key has been delivered.
    Wait,
}

/// The machine as mathematics: what every operation is specified over.
pub struct MachineModel {
    /// All of memory, `MEMORY_SIZE` bytes.
    pub memory: Seq<u8>,
    /// `V0` to `VF`.
    pub regs: Seq<u8>,
    /// The index register `I`.
    pub index: u16,
    /// The program counter.
    pub pc: u16,
    /// Return addresses of the calls in progress, innermost last.
    pub calls: Seq<u16>,
    /// The screen, row by row, one 0 or 1 per pixel.
    pub screen: Seq<u8>,
    /// The host key last pressed and not yet consumed.
    pub key: Option<char>,
    /// The register awaiting a key press, while the machine waits for one.
    pub waiting: Option<u8>,
}

/// The pixel index of `(row, col)`.
pub open spec fn pixel_at(row: int, col: int) -> int {
    row * 64 + col
}

/// An all-dark screen.
pub open spec fn blank_screen() -> Seq<u8> {
    Seq::new(2048, |p: int| 0u8)
}

/// A program counter moved on by one instruction, wrapping at 16 bits.
pub open spec fn next_pc(pc: u16) -> u16 {
    ((pc + 2) % 0x10000) as u16
}

/// Memory right after start-up: the font at address 0, the program at
/// `PROGRAM_START`, zeros elsewhere.
pub open spec fn boot_memory(rom: Seq<u8>) -> Seq<u8> {
    Seq::new(
        4096,
        |a: int|
            if a < 80 {
                FONT@[a]
            } else if 0x200 <= a < 0x200 + rom.len() {
                rom[a - 0x200]
            } else {
                0u8
            },
    )
}

/// The machine right after loading `rom`.
pub open spec fn boot(rom: Seq<u8>) -> MachineModel {
    MachineModel {
        memory: boot_memory(rom),
        regs: Seq::new(16, |r: int| 0u8),
        index: 0,
        pc: 0x200,
        calls: Seq::empty(),
        screen: blank_screen(),
        key: None,
        waiting: None,
    }
}

impl MachineModel {
    /// Sizes fixed, pixels 0 or 1, the stack within its depth.
    pub open spec fn wf(self) -> bool {
        &&& self.memory.len() == 4096
        &&& self.regs.len() == 16
        &&& self.screen.len() == 2048
        &&& self.calls.len() <= 16
        &&& forall|p: int| 0 <= p < 2048 ==> #[trigger] self.screen[p] <= 1
        &&& self.waiting matches Some(x) ==> x < 16
    }

    /// The value of register `x`.
    pub open spec fn reg(self, x: u8) -> u8 {
        self.regs[x as int]
    }

    pub open spec fn with_reg(self, x: u8, v: u8) -> MachineModel {
        MachineModel { regs: self.regs.update(x as int, v), ..self }
    }

    pub open spec fn with_pc(self, pc: u16) -> MachineModel {
        MachineModel { pc, ..self }
    }

    pub open spec fn with_index(self, index: u16) -> MachineModel {
        MachineModel { index, ..self }
    }

    /// The program counter moved past the next instruction when `cond` holds.
    pub open spec fn skip_if(self, cond: bool) -> MachineModel {
        if cond {
            self.with_pc(next_pc(self.pc))
        } else {
            self
        }
    }

    /// The pixel at `(row, col)`.
    pub open spec fn pixel(self, row: int, col: int) -> u8 {
        self.screen[pixel_at(row, col)]
    }
}

/// The CHIP-8 machine: memory, registers, stack, screen and keypad state.
/// The two timers live apart, in `Timers`, so that they can be shared with a
/// task that counts them down.
pub struct Machine {
    pub(crate) memory: Vec<u8>,
    pub(crate) registers: [u8; 16],
    pub(crate) index: u16,
    pub(crate) pc: u16,
    pub(crate) stack: [u16; 16],
    pub(crate) depth: usize,
    pub(crate) screen: Vec<u8>,
    pub(crate) key: Option<char>,
    pub(crate) waiting: Option<u8>,
}

impl View for Machine {
    type V = MachineModel;

    open(crate) spec fn view(&self) -> MachineModel {
        MachineModel {
            memory: self.memory@,
            regs: self.registers@,
            index: self.index,
            pc: self.pc,
            calls: self.stack@.subrange(0, self.depth as int),
            screen: self.screen@,
            key: self.key,
            waiting: self.waiting,
        }
    }
}

impl Machine {
    /// The representation invariant.
    pub open(crate) spec fn inv(&self) -> bool {
        &&& self.depth <= 16
        &&& self@.wf()
    }

    /// A machine with `rom` loaded at `PROGRAM_START` and the font at address
    /// 0; fails when `rom` does not fit in memory.
    pub fn load(rom: &[u8]) -> (r: Result<Machine, Fault>)
        ensures
            rom@.len() <= 4096 - 0x200 <==> r is Ok,
            r matches Ok(m) ==> m.inv() && m@ == boot(rom@),
            r matches Err(e) ==> e == Fault::ProgramTooLarge,
    {
        if rom.len() > MEMORY_SIZE - PROGRAM_START as usize {
            return Err(Fault::ProgramTooLarge);
        }
        let mut memory: Vec<u8> = Vec::new();
        let mut a: usize = 0;
        while a < MEMORY_SIZE
            invariant
                a <= 4096,
                rom@.len() <= 4096 - 0x200,
                memory@.len() == a,
                forall|b: int| 0 <= b < a ==> memory@[b] == #[trigger] boot_memory(rom@)[b],
            decreases 4096 - a,
        {
            let byte: u8 = if a < 80 {
                FONT[a]
            } else if 0x200 <= a && a < 0x200 + rom.len() {
                rom[a - 0x200]
            } else {
                0
            };
            memory.push(byte);
            a += 1;
        }
        let mut screen: Vec<u8> = Vec::new();
        let mut p: usize = 0;
        while p < PIXELS
            invariant
                p <= 2048,
                screen@.len() == p,
                forall|q: int| 0 <= q < p ==> screen@[q] == 0,
            decreases 2048 - p,
        {
            screen.push(0);
            p += 1;
        }
        let m = Machine {
            memory,
            registers: [0; 16],
            index: 0,
            pc: PROGRAM_START,
            stack: [0; 16],
            depth: 0,
            screen,
            key: None,
            waiting: None,
        };
        assert(m@.memory =~= boot(rom@).memory);
        assert(m@.regs =~= boot(rom@).regs);
        assert(m@.calls =~= boot(rom@).calls);
        assert(m@.screen =~= boot(rom@).screen);
        Ok(m)
    }

    /// The program counter.
    pub fn pc(&self) -> (r: u16)
        ensures
            r == self@.pc,
    {
        self.pc
    }

    /// The index register `I`.
    pub fn index(&self) -> (r: u16)
        ensures
            r == self@.index,
    {
        self.index
    }

    /// The value of register `x`.
    pub fn register(&self, x: u8) -> (r: u8)
        requires
            self.inv(),
            x < 16,
        ensures
            r == self@.reg(x),
    {
        self.registers[x as usize]
    }

    /// The number of calls in progress.
    pub fn stack_depth(&self) -> (r: usize)
        requires
            self.inv(),
        ensures
            r == self@.calls.len(),
    {
        self.depth
    }

    /// The byte at `addr`.
    pub fn memory_at(&self, addr: u16) -> (r: u8)
        requires
            self.inv(),
            addr < 4096,
        ensures
            r == self@.memory[addr as int],
    {
        self.memory[addr as usize]
    }

    /// The pixel at `(row, col)`: 1 when lit, 0 when dark.
    pub fn pixel(&self, row: usize, col: usize) -> (r: u8)
        requires
            self.inv(),
            row < 32,
            col < 64,
        ensures
            r == self@.pixel(row as int, col as int),
    {
        self.screen[row * WIDTH + col]
    }

    /// The host key last pressed and not yet consumed.
    pub fn current_key(&self) -> (r: Option<char>)
        ensures
            r == self@.key,
    {
        self.key
    }

    /// The register that waits for a key press, while the machine waits.
    pub fn waiting_for_key(&self) -> (r: Option<u8>)
        ensures
            r == self@.waiting,
    {
        self.waiting
    }
}

} // verus!
