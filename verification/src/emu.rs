use crate::constants;
use crate::display::Display;
use crate::keyboard::Keyboard;
use vstd::prelude::*;

verus! {

/// A fatal fault raised by the executor. Every variant carries the opcode
/// that was being executed and the program counter it was fetched from.
/// The core never recovers from a fault: the outer driver decides whether to
/// halt, reset, or report.
#[derive(Clone, Copy, Debug, PartialEq, Eq, Structural)]
pub enum Fault {
    /// The opcode's tag and secondary field name no defined operation.
    UndefinedOpcode { opcode: u16, pc: u16 },
    /// A call was attempted while the stack already held 16 return addresses.
    StackOverflow { opcode: u16, pc: u16 },
    /// A return was attempted while the stack was empty.
    StackUnderflow { opcode: u16, pc: u16 },
}

/// The primary dispatch tag: the high 4 bits of the opcode.
pub open spec fn op_tag(op: u16) -> u16 {
    op >> 12
}

/// The low 12 bits of the opcode: an address.
pub open spec fn op_nnn(op: u16) -> u16 {
    op & 0x0FFF
}

/// The low byte of the opcode: an immediate.
pub open spec fn op_nn(op: u16) -> u8 {
    (op & 0x00FF) as u8
}

/// The low 4 bits of the opcode: a small immediate or count.
pub open spec fn op_n(op: u16) -> u8 {
    (op & 0x000F) as u8
}

/// Bits 8 to 11 of the opcode: the first register index.
pub open spec fn op_x(op: u16) -> u8 {
    ((op & 0x0F00) >> 8) as u8
}

/// Bits 4 to 7 of the opcode: the second register index.
pub open spec fn op_y(op: u16) -> u8 {
    ((op & 0x00F0) >> 4) as u8
}

/// Every operand field of an opcode lies in its 4-, 8- or 12-bit range.
pub proof fn lemma_op_field_bounds(op: u16)
    ensures
        op_tag(op) < 16,
        op_nnn(op) < 4096,
        op_nn(op) < 256,
        op_n(op) < 16,
        op_x(op) < 16,
        op_y(op) < 16,
{
    assert(op >> 12 < 16 && (op & 0x0FFF) < 4096 && (op & 0x00FF) < 256 && (op & 0x000F) < 16 && ((
    op & 0x0F00) >> 8) < 16 && ((op & 0x00F0) >> 4) < 16) by (bit_vector);
}

/// One operation of the instruction table, named after the method that
/// performs it.
pub enum Instr {
    Cls,
    Ret,
    JpAddr,
    CallAddr,
    SeVxByte,
    SneVxByte,
    SeVxVy,
    LdVxByte,
    AddVxByte,
    LdVxVy,
    OrVxVy,
    AndVxVy,
    XorVxVy,
    AddVxVy,
    SubVxVy,
    ShrVxVy,
    SubnVxVy,
    ShlVxVy,
    SneVxVy,
    LdIAddr,
    JpV0Addr,
    RndVxByte,
    DrwVxVyNibble,
    SkpVx,
    SknpVx,
    LdVxDt,
    LdVxK,
    LdDtVx,
    LdStVx,
    AddIVx,
    LdFVx,
    LdBVx,
    LdMemVx,
    LdVxMem,
}

/// The instruction table: which operation, if any, a 16-bit opcode selects.
///
/// The primary tag picks the operation family; the overloaded families
/// (tags `0x0`, `0x8`, `0xE` and `0xF`) are narrowed by a secondary field.
/// The register-pair skips (tags `0x5` and `0x9`) are only defined with a
/// zero low nibble, and this machine's shift-left lives at low nibble `0x8`
/// of the `0x8` family. Any other combination is undefined and faults.
pub open spec fn decode(op: u16) -> Option<Instr> {
    let tag = op_tag(op);
    let nn = op_nn(op);
    let n = op_n(op);
    if tag == 0x0 {
        if nn == 0xE0 {
            Some(Instr::Cls)
        } else if nn == 0xEE {
            Some(Instr::Ret)
        } else {
            None
        }
    } else if tag == 0x1 {
        Some(Instr::JpAddr)
    } else if tag == 0x2 {
        Some(Instr::CallAddr)
    } else if tag == 0x3 {
        Some(Instr::SeVxByte)
    } else if tag == 0x4 {
        Some(Instr::SneVxByte)
    } else if tag == 0x5 {
        if n == 0x0 {
            Some(Instr::SeVxVy)
        } else {
            None
        }
    } else if tag == 0x6 {
        Some(Instr::LdVxByte)
    } else if tag == 0x7 {
        Some(Instr::AddVxByte)
    } else if tag == 0x8 {
        if n == 0x0 {
            Some(Instr::LdVxVy)
        } else if n == 0x1 {
            Some(Instr::OrVxVy)
        } else if n == 0x2 {
            Some(Instr::AndVxVy)
        } else if n == 0x3 {
            Some(Instr::XorVxVy)
        } else if n == 0x4 {
            Some(Instr::AddVxVy)
        } else if n == 0x5 {
            Some(Instr::SubVxVy)
        } else if n == 0x6 {
            Some(Instr::ShrVxVy)
        } else if n == 0x7 {
            Some(Instr::SubnVxVy)
        } else if n == 0x8 {
            Some(Instr::ShlVxVy)
        } else {
            None
        }
    } else if tag == 0x9 {
        if n == 0x0 {
            Some(Instr::SneVxVy)
        } else {
            None
        }
    } else if tag == 0xA {
        Some(Instr::LdIAddr)
    } else if tag == 0xB {
        Some(Instr::JpV0Addr)
    } else if tag == 0xC {
        Some(Instr::RndVxByte)
    } else if tag == 0xD {
        Some(Instr::DrwVxVyNibble)
    } else if tag == 0xE {
        if nn == 0x9E {
            Some(Instr::SkpVx)
        } else if nn == 0xA1 {
            Some(Instr::SknpVx)
        } else {
            None
        }
    } else if tag == 0xF {
        if nn == 0x07 {
            Some(Instr::LdVxDt)
        } else if nn == 0x0A {
            Some(Instr::LdVxK)
        } else if nn == 0x15 {
            Some(Instr::LdDtVx)
        } else if nn == 0x18 {
            Some(Instr::LdStVx)
        } else if nn == 0x1E {
            Some(Instr::AddIVx)
        } else if nn == 0x29 {
            Some(Instr::LdFVx)
        } else if nn == 0x33 {
            Some(Instr::LdBVx)
        } else if nn == 0x55 {
            Some(Instr::LdMemVx)
        } else if nn == 0x65 {
            Some(Instr::LdVxMem)
        } else {
            None
        }
    } else {
        None
    }
}

/// The CHIP-8 machine state: the register file, memory, program counter,
/// call stack, index register, the two countdown timers, the last fetched
/// opcode, and the two peripheral models the executor drives.
///
/// The delay and sound timers are decremented by the outer driver at a fixed
/// rate, never by the executor.
pub struct Emulator {
    /// The sixteen general-purpose 8-bit registers V0 through VF; VF doubles
    /// as the carry, borrow and collision flag.
    pub registers: Vec<u8>,
    /// The 4096 bytes of addressable memory.
    pub memory: Vec<u8>,
    /// The 16-bit index register.
    pub index: u16,
    /// The program counter.
    pub pc: u16,
    /// The stack pointer: the number of return addresses on the stack.
    pub sp: u8,
    /// The call stack of up to sixteen return addresses.
    pub stack: Vec<u16>,
    /// The delay timer.
    pub delay: u8,
    /// The sound timer.
    pub sound: u8,
    /// The monochrome framebuffer.
    pub display: Display,
    /// The most recently fetched opcode.
    pub instruction: u16,
    /// The hexadecimal keypad.
    pub keyboard: Keyboard,
}

impl Emulator {
    /// Well-formed machine state: the register file, memory and stack have
    /// their fixed sizes, the stack pointer stays within the stack, and the
    /// peripherals are well-formed.
    pub open spec fn wf(&self) -> bool {
        &&& self.registers@.len() == 16
        &&& self.memory@.len() == 4096
        &&& self.stack@.len() == 16
        &&& self.sp <= 16
        &&& self.display.wf()
        &&& self.keyboard.wf()
    }

    /// Return the low 12 bits of the current opcode.
    pub fn get_nnn(&self) -> (r: u16)
        ensures
            r == op_nnn(self.instruction),
    {
        self.instruction & 0x0FFF
    }

    /// Return the low byte of the current opcode.
    pub fn get_nn(&self) -> (r: u8)
        ensures
            r == op_nn(self.instruction),
    {
        proof {
            lemma_op_field_bounds(self.instruction);
        }
        (self.instruction & 0x00FF) as u8
    }

    /// Return the low 4 bits of the current opcode.
    pub fn get_n(&self) -> (r: u8)
        ensures
            r == op_n(self.instruction),
            r < 16,
    {
        proof {
            lemma_op_field_bounds(self.instruction);
        }
        (self.instruction & 0x000F) as u8
    }

    /// Return bits 8 to 11 of the current opcode: the first register index.
    pub fn get_x(&self) -> (r: u8)
        ensures
            r == op_x(self.instruction),
            r < 16,
    {
        proof {
            lemma_op_field_bounds(self.instruction);
        }
        ((self.instruction & 0x0F00) >> 8) as u8
    }

    /// Return bits 4 to 7 of the current opcode: the second register index.
    pub fn get_y(&self) -> (r: u8)
        ensures
            r == op_y(self.instruction),
            r < 16,
    {
        proof {
            lemma_op_field_bounds(self.instruction);
        }
        ((self.instruction & 0x00F0) >> 4) as u8
    }

    /// Copy a ROM image into memory starting at the program origin.
    ///
    /// A ROM longer than the 3584 bytes of program memory does not fit; it is
    /// rejected outright: the method returns `false` and leaves the machine
    /// unchanged.
    pub fn load_rom(&mut self, rom: Vec<u8>) -> (ok: bool)
        requires
            old(self).wf(),
        ensures
            final(self).wf(),
            ok == (rom@.len() <= 3584),
            ok ==> {
                &&& forall|i: int|
                    0 <= i < rom@.len() ==> final(self).memory@[0x200 + i] == rom@[i]
                &&& forall|a: int|
                    0 <= a < 0x200 ==> final(self).memory@[a] == old(self).memory@[a]
                &&& forall|a: int|
                    0x200 + rom@.len() <= a < 4096 ==> final(self).memory@[a] == old(
                        self,
                    ).memory@[a]
            },
            !ok ==> final(self).memory == old(self).memory,
            final(self).registers == old(self).registers,
            final(self).index == old(self).index,
            final(self).pc == old(self).pc,
            final(self).sp == old(self).sp,
            final(self).stack == old(self).stack,
            final(self).delay == old(self).delay,
            final(self).sound == old(self).sound,
            final(self).display == old(self).display,
            final(self).instruction == old(self).instruction,
            final(self).keyboard == old(self).keyboard,
    {
        if rom.len() > 3584 {
            return false;
        }
        let mut i: usize = 0;
        while i < rom.len()
            invariant
                i <= rom@.len(),
                rom@.len() <= 3584,
                self.memory@.len() == 4096,
                forall|k: int| 0 <= k < i ==> self.memory@[0x200 + k] == rom@[k],
                forall|a: int| 0 <= a < 0x200 ==> self.memory@[a] == old(self).memory@[a],
                forall|a: int|
                    0x200 + i <= a < 4096 ==> self.memory@[a] == old(self).memory@[a],
                self.registers == old(self).registers,
                self.index == old(self).index,
                self.pc == old(self).pc,
                self.sp == old(self).sp,
                self.stack == old(self).stack,
                self.delay == old(self).delay,
                self.sound == old(self).sound,
                self.display == old(self).display,
                self.instruction == old(self).instruction,
                self.keyboard == old(self).keyboard,
            decreases rom@.len() - i,
        {
            self.memory.set(0x200 + i, rom[i]);
            i += 1;
        }
        true
    }

    /// A freshly constructed machine: registers, memory, stack and timers
    /// zeroed, the font table copied into its reserved low-memory region,
    /// the program counter at the program origin, every pixel cleared, and
    /// no key pressed.
    pub fn new() -> (e: Emulator)
        ensures
            e.wf(),
            e.pc == 0x200,
            e.sp == 0,
            e.index == 0,
            e.instruction == 0,
            e.delay == 0,
            e.sound == 0,
            forall|i: int| 0 <= i < 16 ==> e.registers@[i] == 0,
            forall|i: int| 0 <= i < 16 ==> e.stack@[i] == 0,
            forall|a: int|
                0x50 <= a < 0xA0 ==> e.memory@[a] == constants::fontset_spec()[a - 0x50],
            forall|a: int| 0 <= a < 0x50 ==> e.memory@[a] == 0,
            forall|a: int| 0xA0 <= a < 4096 ==> e.memory@[a] == 0,
            forall|i: int| 0 <= i < 2048 ==> !e.display.grid@[i],
            forall|i: int| 0 <= i < 16 ==> !e.keyboard.keys@[i],
            e.keyboard.last_press is None,
    {
        let mut registers: Vec<u8> = Vec::new();
        let mut i: usize = 0;
        while i < 16
            invariant
                i <= 16,
                registers@.len() == i,
                forall|j: int| 0 <= j < i ==> registers@[j] == 0,
            decreases 16 - i,
        {
            registers.push(0);
            i += 1;
        }
        let mut stack: Vec<u16> = Vec::new();
        let mut j: usize = 0;
        while j < 16
            invariant
                j <= 16,
                stack@.len() == j,
                forall|k: int| 0 <= k < j ==> stack@[k] == 0,
            decreases 16 - j,
        {
            stack.push(0);
            j += 1;
        }
        let mut memory: Vec<u8> = Vec::new();
        let mut a: usize = 0;
        while a < 4096
            invariant
                a <= 4096,
                memory@.len() == a,
                forall|k: int| 0 <= k < a ==> memory@[k] == 0,
            decreases 4096 - a,
        {
            memory.push(0);
            a += 1;
        }
        let font = constants::fontset();
        let mut f: usize = 0;
        while f < 80
            invariant
                f <= 80,
                font@ == constants::fontset_spec(),
                font@.len() == 80,
                memory@.len() == 4096,
                forall|k: int| 0 <= k < 0x50 ==> memory@[k] == 0,
                forall|k: int| 0x50 <= k < 0x50 + f ==> memory@[k] == font@[k - 0x50],
                forall|k: int| 0x50 + f <= k < 4096 ==> memory@[k] == 0,
            decreases 80 - f,
        {
            memory.set(0x50 + f, font[f]);
            f += 1;
        }
        Emulator {
            registers,
            memory,
            index: 0,
            pc: 0x200,
            sp: 0,
            stack,
            delay: 0,
            sound: 0,
            display: Display::new(),
            instruction: 0,
            keyboard: Keyboard::new(),
        }
    }
}

/// The opcode at the program counter, read big-endian from two consecutive
/// memory bytes.
pub open spec fn fetched(pre: Emulator) -> u16 {
    (pre.memory@[pre.pc as int] * 256 + pre.memory@[pre.pc as int + 1]) as u16
}

/// The memory, index register, stack, timers and framebuffer are unchanged.
pub open spec fn base_unchanged(pre: Emulator, post: Emulator) -> bool {
    &&& post.memory == pre.memory
    &&& post.index == pre.index
    &&& post.sp == pre.sp
    &&& post.stack == pre.stack
    &&& post.delay == pre.delay
    &&& post.sound == pre.sound
    &&& post.display == pre.display
}

/// Nothing of the machine changed (the fetched-opcode latch aside).
pub open spec fn state_unchanged(pre: Emulator, post: Emulator) -> bool {
    &&& base_unchanged(pre, post)
    &&& post.keyboard == pre.keyboard
    &&& post.registers == pre.registers
    &&& post.pc == pre.pc
}

/// An operation that writes `val` to register `x` and steps past the
/// instruction, leaving everything else alone.
pub open spec fn alu_step(pre: Emulator, post: Emulator, x: u8, val: u8) -> bool {
    &&& base_unchanged(pre, post)
    &&& post.keyboard == pre.keyboard
    &&& post.registers@ == pre.registers@.update(x as int, val)
    &&& post.pc == pre.pc + 2
}

/// An operation that writes `val` to register `x` and then the flag value to
/// `VF`, and steps past the instruction.
pub open spec fn alu_flag_step(pre: Emulator, post: Emulator, x: u8, val: u8, flag: u8) -> bool {
    &&& base_unchanged(pre, post)
    &&& post.keyboard == pre.keyboard
    &&& post.registers@ == pre.registers@.update(x as int, val).update(15, flag)
    &&& post.pc == pre.pc + 2
}

/// A conditional skip: the program counter advances by 4 when the condition
/// holds and by 2 otherwise; nothing else changes.
pub open spec fn skip_step(pre: Emulator, post: Emulator, cond: bool) -> bool {
    &&& base_unchanged(pre, post)
    &&& post.keyboard == pre.keyboard
    &&& post.registers == pre.registers
    &&& post.pc == pre.pc + if cond {
        4int
    } else {
        2int
    }
}

/// Clear the display: every pixel off, the program counter steps past.
pub open spec fn cls_rel(pre: Emulator, post: Emulator) -> bool {
    &&& post.memory == pre.memory
    &&& post.index == pre.index
    &&& post.sp == pre.sp
    &&& post.stack == pre.stack
    &&& post.delay == pre.delay
    &&& post.sound == pre.sound
    &&& post.keyboard == pre.keyboard
    &&& post.registers == pre.registers
    &&& post.display.grid@.len() == 2048
    &&& forall|i: int| 0 <= i < 2048 ==> !post.display.grid@[i]
    &&& post.pc == pre.pc + 2
}

/// Return from a subroutine: the program counter is popped from the stack.
pub open spec fn ret_rel(pre: Emulator, post: Emulator) -> bool {
    &&& post.memory == pre.memory
    &&& post.index == pre.index
    &&& post.stack == pre.stack
    &&& post.delay == pre.delay
    &&& post.sound == pre.sound
    &&& post.display == pre.display
    &&& post.keyboard == pre.keyboard
    &&& post.registers == pre.registers
    &&& post.sp == pre.sp - 1
    &&& post.pc == pre.stack@[pre.sp - 1]
}

/// Jump: the program counter is set to the opcode's address field.
pub open spec fn jp_addr_rel(pre: Emulator, post: Emulator, op: u16) -> bool {
    &&& base_unchanged(pre, post)
    &&& post.keyboard == pre.keyboard
    &&& post.registers == pre.registers
    &&& post.pc == op_nnn(op)
}

/// Call: the address of the next instruction is pushed, and the program
/// counter is set to the opcode's address field.
pub open spec fn call_addr_rel(pre: Emulator, post: Emulator, op: u16) -> bool {
    &&& post.memory == pre.memory
    &&& post.index == pre.index
    &&& post.delay == pre.delay
    &&& post.sound == pre.sound
    &&& post.display == pre.display
    &&& post.keyboard == pre.keyboard
    &&& post.registers == pre.registers
    &&& post.stack@ == pre.stack@.update(pre.sp as int, (pre.pc + 2) as u16)
    &&& post.sp == pre.sp + 1
    &&& post.pc == op_nnn(op)
}

/// Skip if `Vx` equals the immediate byte.
pub open spec fn se_vx_byte_rel(pre: Emulator, post: Emulator, op: u16) -> bool {
    skip_step(pre, post, pre.registers@[op_x(op) as int] == op_nn(op))
}

/// Skip if `Vx` differs from the immediate byte.
pub open spec fn sne_vx_byte_rel(pre: Emulator, post: Emulator, op: u16) -> bool {
    skip_step(pre, post, pre.registers@[op_x(op) as int] != op_nn(op))
}

/// Skip if `Vx` equals `Vy`.
pub open spec fn se_vx_vy_rel(pre: Emulator, post: Emulator, op: u16) -> bool {
    skip_step(
        pre,
        post,
        pre.registers@[op_x(op) as int] == pre.registers@[op_y(op) as int],
    )
}

/// Skip if `Vx` differs from `Vy`.
pub open spec fn sne_vx_vy_rel(pre: Emulator, post: Emulator, op: u16) -> bool {
    skip_step(
        pre,
        post,
        pre.registers@[op_x(op) as int] != pre.registers@[op_y(op) as int],
    )
}

/// Load the immediate byte into `Vx`.
pub open spec fn ld_vx_byte_rel(pre: Emulator, post: Emulator, op: u16) -> bool {
    alu_step(pre, post, op_x(op), op_nn(op))
}

/// Add the immediate byte to `Vx`, wrapping modulo 256, with no flag effect.
pub open spec fn add_vx_byte_rel(pre: Emulator, post: Emulator, op: u16) -> bool {
    alu_step(
        pre,
        post,
        op_x(op),
        ((pre.registers@[op_x(op) as int] + op_nn(op)) % 256) as u8,
    )
}

/// Copy `Vy` into `Vx`.
pub open spec fn ld_vx_vy_rel(pre: Emulator, post: Emulator, op: u16) -> bool {
    alu_step(pre, post, op_x(op), pre.registers@[op_y(op) as int])
}

/// Bitwise or of `Vx` and `Vy` into `Vx`, with no flag effect.
pub open spec fn or_vx_vy_rel(pre: Emulator, post: Emulator, op: u16) -> bool {
    alu_step(
        pre,
        post,
        op_x(op),
        pre.registers@[op_x(op) as int] | pre.registers@[op_y(op) as int],
    )
}

/// Bitwise and of `Vx` and `Vy` into `Vx`, with no flag effect.
pub open spec fn and_vx_vy_rel(pre: Emulator, post: Emulator, op: u16) -> bool {
    alu_step(
        pre,
        post,
        op_x(op),
        pre.registers@[op_x(op) as int] & pre.registers@[op_y(op) as int],
    )
}

/// Bitwise exclusive or of `Vx` and `Vy` into `Vx`, with no flag effect.
pub open spec fn xor_vx_vy_rel(pre: Emulator, post: Emulator, op: u16) -> bool {
    alu_step(
        pre,
        post,
        op_x(op),
        pre.registers@[op_x(op) as int] ^ pre.registers@[op_y(op) as int],
    )
}

/// Add `Vy` to `Vx` with carry: `VF` is 1 exactly when the 8-bit sum
/// overflows, and `Vx` takes the wrapped sum.
pub open spec fn add_vx_vy_rel(pre: Emulator, post: Emulator, op: u16) -> bool {
    let vx = pre.registers@[op_x(op) as int];
    let vy = pre.registers@[op_y(op) as int];
    alu_flag_step(
        pre,
        post,
        op_x(op),
        ((vx + vy) % 256) as u8,
        if vx + vy > 255 {
            1u8
        } else {
            0u8
        },
    )
}

/// Subtract `Vy` from `Vx` with borrow flag: `VF` is 1 exactly when
/// `Vx >= Vy` (no borrow), and `Vx` takes the wrapped difference.
pub open spec fn sub_vx_vy_rel(pre: Emulator, post: Emulator, op: u16) -> bool {
    let vx = pre.registers@[op_x(op) as int];
    let vy = pre.registers@[op_y(op) as int];
    alu_flag_step(
        pre,
        post,
        op_x(op),
        ((vx + 256 - vy) % 256) as u8,
        if vx >= vy {
            1u8
        } else {
            0u8
        },
    )
}

/// Shift `Vx` right by one: `VF` takes bit 0 of the pre-shift value.
pub open spec fn shr_vx_vy_rel(pre: Emulator, post: Emulator, op: u16) -> bool {
    let vx = pre.registers@[op_x(op) as int];
    alu_flag_step(pre, post, op_x(op), (vx / 2) as u8, (vx % 2) as u8)
}

/// Reverse subtract, `Vx := Vy - Vx`, with borrow flag: `VF` is 1 exactly
/// when `Vy >= Vx`.
pub open spec fn subn_vx_vy_rel(pre: Emulator, post: Emulator, op: u16) -> bool {
    let vx = pre.registers@[op_x(op) as int];
    let vy = pre.registers@[op_y(op) as int];
    alu_flag_step(
        pre,
        post,
        op_x(op),
        ((vy + 256 - vx) % 256) as u8,
        if vy >= vx {
            1u8
        } else {
            0u8
        },
    )
}

/// Shift `Vx` left by one, wrapping modulo 256: `VF` takes bit 7 of the
/// pre-shift value.
pub open spec fn shl_vx_vy_rel(pre: Emulator, post: Emulator, op: u16) -> bool {
    let vx = pre.registers@[op_x(op) as int];
    alu_flag_step(
        pre,
        post,
        op_x(op),
        ((vx * 2) % 256) as u8,
        if vx >= 128 {
            1u8
        } else {
            0u8
        },
    )
}

/// Load the opcode's address field into the index register.
pub open spec fn ld_i_addr_rel(pre: Emulator, post: Emulator, op: u16) -> bool {
    &&& post.memory == pre.memory
    &&& post.sp == pre.sp
    &&& post.stack == pre.stack
    &&& post.delay == pre.delay
    &&& post.sound == pre.sound
    &&& post.display == pre.display
    &&& post.keyboard == pre.keyboard
    &&& post.registers == pre.registers
    &&& post.index == op_nnn(op)
    &&& post.pc == pre.pc + 2
}

/// Jump with offset: the program counter is set to the opcode's address
/// field plus `V0`.
pub open spec fn jp_v0_addr_rel(pre: Emulator, post: Emulator, op: u16) -> bool {
    &&& base_unchanged(pre, post)
    &&& post.keyboard == pre.keyboard
    &&& post.registers == pre.registers
    &&& post.pc == op_nnn(op) + pre.registers@[0]
}

/// Load into `Vx` the random byte masked by the opcode's immediate byte.
/// The random byte itself comes from the outer driver.
pub open spec fn rnd_vx_byte_rel(pre: Emulator, post: Emulator, op: u16, random: u8) -> bool {
    alu_step(pre, post, op_x(op), random & op_nn(op))
}

/// Skip if the key numbered by the low nibble of `Vx` is pressed.
pub open spec fn skp_vx_rel(pre: Emulator, post: Emulator, op: u16) -> bool {
    skip_step(
        pre,
        post,
        pre.keyboard.keys@[(pre.registers@[op_x(op) as int] as int) % 16],
    )
}

/// Skip if the key numbered by the low nibble of `Vx` is not pressed.
pub open spec fn sknp_vx_rel(pre: Emulator, post: Emulator, op: u16) -> bool {
    skip_step(
        pre,
        post,
        !pre.keyboard.keys@[(pre.registers@[op_x(op) as int] as int) % 16],
    )
}

/// Load the delay timer into `Vx`.
pub open spec fn ld_vx_dt_rel(pre: Emulator, post: Emulator, op: u16) -> bool {
    alu_step(pre, post, op_x(op), pre.delay)
}

/// Wait for a key press: with a fresh press available, its key number is
/// loaded into `Vx`, the press is consumed and the program counter steps
/// past; with none, nothing changes and the program counter stays put, so
/// the instruction runs again on the next tick.
pub open spec fn ld_vx_k_rel(pre: Emulator, post: Emulator, op: u16) -> bool {
    &&& base_unchanged(pre, post)
    &&& post.keyboard.keys == pre.keyboard.keys
    &&& post.keyboard.last_press is None
    &&& match pre.keyboard.last_press {
        Some(k) => {
            &&& post.registers@ == pre.registers@.update(op_x(op) as int, k)
            &&& post.pc == pre.pc + 2
        },
        None => {
            &&& post.registers == pre.registers
            &&& post.pc == pre.pc
        },
    }
}

/// Load `Vx` into the delay timer.
pub open spec fn ld_dt_vx_rel(pre: Emulator, post: Emulator, op: u16) -> bool {
    &&& post.memory == pre.memory
    &&& post.index == pre.index
    &&& post.sp == pre.sp
    &&& post.stack == pre.stack
    &&& post.sound == pre.sound
    &&& post.display == pre.display
    &&& post.keyboard == pre.keyboard
    &&& post.registers == pre.registers
    &&& post.delay == pre.registers@[op_x(op) as int]
    &&& post.pc == pre.pc + 2
}

/// Load `Vx` into the sound timer.
pub open spec fn ld_st_vx_rel(pre: Emulator, post: Emulator, op: u16) -> bool {
    &&& post.memory == pre.memory
    &&& post.index == pre.index
    &&& post.sp == pre.sp
    &&& post.stack == pre.stack
    &&& post.delay == pre.delay
    &&& post.display == pre.display
    &&& post.keyboard == pre.keyboard
    &&& post.registers == pre.registers
    &&& post.sound == pre.registers@[op_x(op) as int]
    &&& post.pc == pre.pc + 2
}

/// Add `Vx` to the index register, wrapping modulo 65536; no flag is set.
pub open spec fn add_i_vx_rel(pre: Emulator, post: Emulator, op: u16) -> bool {
    &&& post.memory == pre.memory
    &&& post.sp == pre.sp
    &&& post.stack == pre.stack
    &&& post.delay == pre.delay
    &&& post.sound == pre.sound
    &&& post.display == pre.display
    &&& post.keyboard == pre.keyboard
    &&& post.registers == pre.registers
    &&& post.index == ((pre.index + pre.registers@[op_x(op) as int]) % 65536) as u16
    &&& post.pc == pre.pc + 2
}

/// Point the index register at the 5-byte font glyph for the hexadecimal
/// digit in the low nibble of `Vx`.
pub open spec fn ld_f_vx_rel(pre: Emulator, post: Emulator, op: u16) -> bool {
    &&& post.memory == pre.memory
    &&& post.sp == pre.sp
    &&& post.stack == pre.stack
    &&& post.delay == pre.delay
    &&& post.sound == pre.sound
    &&& post.display == pre.display
    &&& post.keyboard == pre.keyboard
    &&& post.registers == pre.registers
    &&& post.index == constants::FONTSET_START + 5 * ((pre.registers@[op_x(op) as int] as int)
        % 16)
    &&& post.pc == pre.pc + 2
}

/// Store the decimal digits of `Vx` — hundreds, tens, ones — at the three
/// bytes starting at the index register, each address taken modulo the
/// memory size.
pub open spec fn ld_b_vx_rel(pre: Emulator, post: Emulator, op: u16) -> bool {
    let vx = pre.registers@[op_x(op) as int];
    let i = pre.index as int;
    &&& post.index == pre.index
    &&& post.sp == pre.sp
    &&& post.stack == pre.stack
    &&& post.delay == pre.delay
    &&& post.sound == pre.sound
    &&& post.display == pre.display
    &&& post.keyboard == pre.keyboard
    &&& post.registers == pre.registers
    &&& post.memory@ == pre.memory@.update(i % 4096, (vx / 100) as u8).update(
        (i + 1) % 4096,
        ((vx / 10) % 10) as u8,
    ).update((i + 2) % 4096, (vx % 10) as u8)
    &&& post.pc == pre.pc + 2
}

/// Memory after storing registers `V0` through `V(k-1)` at consecutive
/// addresses starting at `index`, each address taken modulo the memory size.
pub open spec fn store_regs(mem: Seq<u8>, regs: Seq<u8>, index: int, k: nat) -> Seq<u8>
    decreases k,
{
    if k == 0 {
        mem
    } else {
        store_regs(mem, regs, index, (k - 1) as nat).update((index + k - 1) % 4096, regs[k - 1])
    }
}

/// Register file after loading `V0` through `V(k-1)` from consecutive
/// addresses starting at `index`, each address taken modulo the memory size.
pub open spec fn load_regs(regs: Seq<u8>, mem: Seq<u8>, index: int, k: nat) -> Seq<u8>
    decreases k,
{
    if k == 0 {
        regs
    } else {
        load_regs(regs, mem, index, (k - 1) as nat).update(k - 1, mem[(index + k - 1) % 4096])
    }
}

/// The framebuffer after XOR-drawing the first `r` rows of the sprite whose
/// bytes start at `index` in memory, at screen position `(x, y)`. Row `i`
/// is the byte at `(index + i)`, drawn at `(x, y + i)`; sprite bytes are
/// addressed modulo the memory size, and pixels wrap around both screen
/// edges.
pub open spec fn sprite_rows(
    g: Seq<bool>,
    mem: Seq<u8>,
    index: int,
    x: int,
    y: int,
    r: nat,
) -> Seq<bool>
    decreases r,
{
    if r == 0 {
        g
    } else {
        crate::display::draw_row(
            sprite_rows(g, mem, index, x, y, (r - 1) as nat),
            x,
            y + r - 1,
            mem[(index + r - 1) % 4096],
            8,
        )
    }
}

/// Whether XOR-drawing the first `r` rows of that sprite turns some
/// previously set pixel off.
pub open spec fn sprite_collision(
    g: Seq<bool>,
    mem: Seq<u8>,
    index: int,
    x: int,
    y: int,
    r: nat,
) -> bool
    decreases r,
{
    if r == 0 {
        false
    } else {
        ||| sprite_collision(g, mem, index, x, y, (r - 1) as nat)
        ||| crate::display::row_collision(
            sprite_rows(g, mem, index, x, y, (r - 1) as nat),
            x,
            y + r - 1,
            mem[(index + r - 1) % 4096],
            8,
        )
    }
}

/// Draw the `n`-byte sprite at the index register to position `(Vx, Vy)`:
/// each sprite row is XORed onto the framebuffer with wraparound, `VF` is 1
/// exactly when some previously set pixel was cleared, and the program
/// counter steps past.
pub open spec fn drw_vx_vy_nibble_rel(pre: Emulator, post: Emulator, op: u16) -> bool {
    let vx = pre.registers@[op_x(op) as int] as int;
    let vy = pre.registers@[op_y(op) as int] as int;
    let n = op_n(op) as nat;
    let coll = sprite_collision(pre.display.grid@, pre.memory@, pre.index as int, vx, vy, n);
    &&& post.memory == pre.memory
    &&& post.index == pre.index
    &&& post.sp == pre.sp
    &&& post.stack == pre.stack
    &&& post.delay == pre.delay
    &&& post.sound == pre.sound
    &&& post.keyboard == pre.keyboard
    &&& post.display.grid@ == sprite_rows(
        pre.display.grid@,
        pre.memory@,
        pre.index as int,
        vx,
        vy,
        n,
    )
    &&& post.registers@ == pre.registers@.update(
        15,
        if coll {
            1u8
        } else {
            0u8
        },
    )
    &&& post.pc == pre.pc + 2
}

/// Store registers `V0` through `Vx` (inclusive) at memory starting at the
/// index register, each address taken modulo the memory size.
pub open spec fn ld_mem_vx_rel(pre: Emulator, post: Emulator, op: u16) -> bool {
    &&& post.index == pre.index
    &&& post.sp == pre.sp
    &&& post.stack == pre.stack
    &&& post.delay == pre.delay
    &&& post.sound == pre.sound
    &&& post.display == pre.display
    &&& post.keyboard == pre.keyboard
    &&& post.registers == pre.registers
    &&& post.memory@ == store_regs(
        pre.memory@,
        pre.registers@,
        pre.index as int,
        op_x(op) as nat + 1,
    )
    &&& post.pc == pre.pc + 2
}

/// Load registers `V0` through `Vx` (inclusive) from memory starting at the
/// index register, each address taken modulo the memory size.
pub open spec fn ld_vx_mem_rel(pre: Emulator, post: Emulator, op: u16) -> bool {
    &&& post.memory == pre.memory
    &&& post.index == pre.index
    &&& post.sp == pre.sp
    &&& post.stack == pre.stack
    &&& post.delay == pre.delay
    &&& post.sound == pre.sound
    &&& post.display == pre.display
    &&& post.keyboard == pre.keyboard
    &&& post.registers@ == load_regs(
        pre.registers@,
        pre.memory@,
        pre.index as int,
        op_x(op) as nat + 1,
    )
    &&& post.pc == pre.pc + 2
}

/// The full effect of executing one instruction: the fetched opcode is
/// latched, and either its operation's relation holds between the old and
/// new machine states, or the machine is unchanged and the matching fault —
/// undefined opcode, stack overflow on call, stack underflow on return — is
/// returned, carrying the offending opcode and the program counter at fault
/// time.
pub open spec fn tick_post(pre: Emulator, post: Emulator, random: u8, r: Result<
    (),
    Fault,
>) -> bool {
    let op = fetched(pre);
    &&& post.instruction == op
    &&& match decode(op) {
        None => r == Err::<(), Fault>(Fault::UndefinedOpcode { opcode: op, pc: pre.pc })
            && state_unchanged(pre, post),
        Some(ins) => match ins {
            Instr::Cls => r is Ok && cls_rel(pre, post),
            Instr::Ret => if pre.sp > 0 {
                r is Ok && ret_rel(pre, post)
            } else {
                r == Err::<(), Fault>(Fault::StackUnderflow { opcode: op, pc: pre.pc })
                    && state_unchanged(pre, post)
            },
            Instr::JpAddr => r is Ok && jp_addr_rel(pre, post, op),
            Instr::CallAddr => if pre.sp < 16 {
                r is Ok && call_addr_rel(pre, post, op)
            } else {
                r == Err::<(), Fault>(Fault::StackOverflow { opcode: op, pc: pre.pc })
                    && state_unchanged(pre, post)
            },
            Instr::SeVxByte => r is Ok && se_vx_byte_rel(pre, post, op),
            Instr::SneVxByte => r is Ok && sne_vx_byte_rel(pre, post, op),
            Instr::SeVxVy => r is Ok && se_vx_vy_rel(pre, post, op),
            Instr::LdVxByte => r is Ok && ld_vx_byte_rel(pre, post, op),
            Instr::AddVxByte => r is Ok && add_vx_byte_rel(pre, post, op),
            Instr::LdVxVy => r is Ok && ld_vx_vy_rel(pre, post, op),
            Instr::OrVxVy => r is Ok && or_vx_vy_rel(pre, post, op),
            Instr::AndVxVy => r is Ok && and_vx_vy_rel(pre, post, op),
            Instr::XorVxVy => r is Ok && xor_vx_vy_rel(pre, post, op),
            Instr::AddVxVy => r is Ok && add_vx_vy_rel(pre, post, op),
            Instr::SubVxVy => r is Ok && sub_vx_vy_rel(pre, post, op),
            Instr::ShrVxVy => r is Ok && shr_vx_vy_rel(pre, post, op),
            Instr::SubnVxVy => r is Ok && subn_vx_vy_rel(pre, post, op),
            Instr::ShlVxVy => r is Ok && shl_vx_vy_rel(pre, post, op),
            Instr::SneVxVy => r is Ok && sne_vx_vy_rel(pre, post, op),
            Instr::LdIAddr => r is Ok && ld_i_addr_rel(pre, post, op),
            Instr::JpV0Addr => r is Ok && jp_v0_addr_rel(pre, post, op),
            Instr::RndVxByte => r is Ok && rnd_vx_byte_rel(pre, post, op, random),
            Instr::DrwVxVyNibble => r is Ok && drw_vx_vy_nibble_rel(pre, post, op),
            Instr::SkpVx => r is Ok && skp_vx_rel(pre, post, op),
            Instr::SknpVx => r is Ok && sknp_vx_rel(pre, post, op),
            Instr::LdVxDt => r is Ok && ld_vx_dt_rel(pre, post, op),
            Instr::LdVxK => r is Ok && ld_vx_k_rel(pre, post, op),
            Instr::LdDtVx => r is Ok && ld_dt_vx_rel(pre, post, op),
            Instr::LdStVx => r is Ok && ld_st_vx_rel(pre, post, op),
            Instr::AddIVx => r is Ok && add_i_vx_rel(pre, post, op),
            Instr::LdFVx => r is Ok && ld_f_vx_rel(pre, post, op),
            Instr::LdBVx => r is Ok && ld_b_vx_rel(pre, post, op),
            Instr::LdMemVx => r is Ok && ld_mem_vx_rel(pre, post, op),
            Instr::LdVxMem => r is Ok && ld_vx_mem_rel(pre, post, op),
        },
    }
}

impl Emulator {
    /// Execute one instruction: fetch the opcode at the program counter,
    /// dispatch on its tag (and, for the overloaded families, a secondary
    /// field), and perform exactly one operation's full effect, including
    /// the program counter update. An undefined opcode, a call with a full
    /// stack, or a return with an empty stack leaves the machine unchanged
    /// and reports the fault.
    ///
    /// `random` is the uniform random byte the random operation masks; it
    /// comes from the outer driver and is ignored by every other operation.
    pub fn tick(&mut self, random: u8) -> (r: Result<(), Fault>)
        requires
            old(self).wf(),
            old(self).pc + 1 < 4096,
        ensures
            final(self).wf(),
            tick_post(*old(self), *final(self), random, r),
    {
        let pc_us = self.pc as usize;
        let hi = self.memory[pc_us];
        let lo = self.memory[pc_us + 1];
        let h16 = hi as u16;
        let l16 = lo as u16;
        let op = (h16 << 8) | l16;
        proof {
            assert((h16 << 8) | l16 == h16 * 256 + l16) by (bit_vector)
                requires
                    h16 < 256,
                    l16 < 256,
            ;
        }
        self.instruction = op;
        let n = self.get_n();
        let nn = self.get_nn();
        match op >> 12 {
            0x0 => {
                if nn == 0xE0 {
                    self.cls();
                    Ok(())
                } else if nn == 0xEE {
                    if self.sp == 0 {
                        return Err(Fault::StackUnderflow { opcode: op, pc: self.pc });
                    }
                    self.ret();
                    Ok(())
                } else {
                    Err(Fault::UndefinedOpcode { opcode: op, pc: self.pc })
                }
            },
            0x1 => {
                self.jp_addr();
                Ok(())
            },
            0x2 => {
                if self.sp >= 16 {
                    return Err(Fault::StackOverflow { opcode: op, pc: self.pc });
                }
                self.call_addr();
                Ok(())
            },
            0x3 => {
                self.se_vx_byte();
                Ok(())
            },
            0x4 => {
                self.sne_vx_byte();
                Ok(())
            },
            0x5 => {
                if n == 0x0 {
                    self.se_vx_vy();
                    Ok(())
                } else {
                    Err(Fault::UndefinedOpcode { opcode: op, pc: self.pc })
                }
            },
            0x6 => {
                self.ld_vx_byte();
                Ok(())
            },
            0x7 => {
                self.add_vx_byte();
                Ok(())
            },
            0x8 => {
                if n == 0x0 {
                    self.ld_vx_vy();
                    Ok(())
                } else if n == 0x1 {
                    self.or_vx_vy();
                    Ok(())
                } else if n == 0x2 {
                    self.and_vx_vy();
                    Ok(())
                } else if n == 0x3 {
                    self.xor_vx_vy();
                    Ok(())
                } else if n == 0x4 {
                    self.add_vx_vy();
                    Ok(())
                } else if n == 0x5 {
                    self.sub_vx_vy();
                    Ok(())
                } else if n == 0x6 {
                    self.shr_vx_vy();
                    Ok(())
                } else if n == 0x7 {
                    self.subn_vx_vy();
                    Ok(())
                } else if n == 0x8 {
                    self.shl_vx_vy();
                    Ok(())
                } else {
                    Err(Fault::UndefinedOpcode { opcode: op, pc: self.pc })
                }
            },
            0x9 => {
                if n == 0x0 {
                    self.sne_vx_vy();
                    Ok(())
                } else {
                    Err(Fault::UndefinedOpcode { opcode: op, pc: self.pc })
                }
            },
            0xA => {
                self.ld_i_addr();
                Ok(())
            },
            0xB => {
                self.jp_v0_addr();
                Ok(())
            },
            0xC => {
                self.rnd_vx_byte(random);
                Ok(())
            },
            0xD => {
                self.drw_vx_vy_nibble();
                Ok(())
            },
            0xE => {
                if nn == 0x9E {
                    self.skp_vx();
                    Ok(())
                } else if nn == 0xA1 {
                    self.sknp_vx();
                    Ok(())
                } else {
                    Err(Fault::UndefinedOpcode { opcode: op, pc: self.pc })
                }
            },
            0xF => {
                if nn == 0x07 {
                    self.ld_vx_dt();
                    Ok(())
                } else if nn == 0x0A {
                    self.ld_vx_k();
                    Ok(())
                } else if nn == 0x15 {
                    self.ld_dt_vx();
                    Ok(())
                } else if nn == 0x18 {
                    self.ld_st_vx();
                    Ok(())
                } else if nn == 0x1E {
                    self.add_i_vx();
                    Ok(())
                } else if nn == 0x29 {
                    self.ld_f_vx();
                    Ok(())
                } else if nn == 0x33 {
                    self.ld_b_vx();
                    Ok(())
                } else if nn == 0x55 {
                    self.ld_mem_vx();
                    Ok(())
                } else if nn == 0x65 {
                    self.ld_vx_mem();
                    Ok(())
                } else {
                    Err(Fault::UndefinedOpcode { opcode: op, pc: self.pc })
                }
            },
            _ => {
                proof {
                    assert(op >> 12 < 16) by (bit_vector);
                    assert(false);
                }
                Err(Fault::UndefinedOpcode { opcode: op, pc: self.pc })
            },
        }
    }

    /// Clear the display.
    pub fn cls(&mut self)
        requires
            old(self).wf(),
            old(self).pc + 2 <= 0xFFFF,
        ensures
            final(self).wf(),
            final(self).instruction == old(self).instruction,
            cls_rel(*old(self), *final(self)),
    {
        self.display.clear();
        self.pc = self.pc + 2;
    }

    /// Return from a subroutine: pop the program counter from the stack.
    pub fn ret(&mut self)
        requires
            old(self).wf(),
            old(self).sp > 0,
        ensures
            final(self).wf(),
            final(self).instruction == old(self).instruction,
            ret_rel(*old(self), *final(self)),
    {
        self.sp = self.sp - 1;
        self.pc = self.stack[self.sp as usize];
    }

    /// Jump to the opcode's address field.
    pub fn jp_addr(&mut self)
        requires
            old(self).wf(),
        ensures
            final(self).wf(),
            final(self).instruction == old(self).instruction,
            jp_addr_rel(*old(self), *final(self), old(self).instruction),
    {
        self.pc = self.get_nnn();
    }

    /// Call the subroutine at the opcode's address field: push the address of
    /// the next instruction and jump.
    pub fn call_addr(&mut self)
        requires
            old(self).wf(),
            old(self).sp < 16,
            old(self).pc + 2 <= 0xFFFF,
        ensures
            final(self).wf(),
            final(self).instruction == old(self).instruction,
            call_addr_rel(*old(self), *final(self), old(self).instruction),
    {
        self.stack.set(self.sp as usize, self.pc + 2);
        self.sp = self.sp + 1;
        self.pc = self.get_nnn();
    }

    /// Skip the next instruction if `Vx` equals the immediate byte.
    pub fn se_vx_byte(&mut self)
        requires
            old(self).wf(),
            old(self).pc + 4 <= 0xFFFF,
        ensures
            final(self).wf(),
            final(self).instruction == old(self).instruction,
            se_vx_byte_rel(*old(self), *final(self), old(self).instruction),
    {
        let x = self.get_x();
        if self.registers[x as usize] == self.get_nn() {
            self.pc = self.pc + 4;
        } else {
            self.pc = self.pc + 2;
        }
    }

    /// Skip the next instruction if `Vx` differs from the immediate byte.
    pub fn sne_vx_byte(&mut self)
        requires
            old(self).wf(),
            old(self).pc + 4 <= 0xFFFF,
        ensures
            final(self).wf(),
            final(self).instruction == old(self).instruction,
            sne_vx_byte_rel(*old(self), *final(self), old(self).instruction),
    {
        let x = self.get_x();
        if self.registers[x as usize] != self.get_nn() {
            self.pc = self.pc + 4;
        } else {
            self.pc = self.pc + 2;
        }
    }

    /// Skip the next instruction if `Vx` equals `Vy`.
    pub fn se_vx_vy(&mut self)
        requires
            old(self).wf(),
            old(self).pc + 4 <= 0xFFFF,
        ensures
            final(self).wf(),
            final(self).instruction == old(self).instruction,
            se_vx_vy_rel(*old(self), *final(self), old(self).instruction),
    {
        let x = self.get_x();
        let y = self.get_y();
        if self.registers[x as usize] == self.registers[y as usize] {
            self.pc = self.pc + 4;
        } else {
            self.pc = self.pc + 2;
        }
    }

    /// Skip the next instruction if `Vx` differs from `Vy`.
    pub fn sne_vx_vy(&mut self)
        requires
            old(self).wf(),
            old(self).pc + 4 <= 0xFFFF,
        ensures
            final(self).wf(),
            final(self).instruction == old(self).instruction,
            sne_vx_vy_rel(*old(self), *final(self), old(self).instruction),
    {
        let x = self.get_x();
        let y = self.get_y();
        if self.registers[x as usize] != self.registers[y as usize] {
            self.pc = self.pc + 4;
        } else {
            self.pc = self.pc + 2;
        }
    }

    /// Load the immediate byte into `Vx`.
    pub fn ld_vx_byte(&mut self)
        requires
            old(self).wf(),
            old(self).pc + 2 <= 0xFFFF,
        ensures
            final(self).wf(),
            final(self).instruction == old(self).instruction,
            ld_vx_byte_rel(*old(self), *final(self), old(self).instruction),
    {
        let x = self.get_x();
        let nn = self.get_nn();
        self.registers.set(x as usize, nn);
        self.pc = self.pc + 2;
    }

    /// Add the immediate byte to `Vx`, wrapping modulo 256; no carry flag.
    pub fn add_vx_byte(&mut self)
        requires
            old(self).wf(),
            old(self).pc + 2 <= 0xFFFF,
        ensures
            final(self).wf(),
            final(self).instruction == old(self).instruction,
            add_vx_byte_rel(*old(self), *final(self), old(self).instruction),
    {
        let x = self.get_x();
        let vx = self.registers[x as usize];
        let nn = self.get_nn();
        let sum = ((vx as u16 + nn as u16) % 256) as u8;
        self.registers.set(x as usize, sum);
        self.pc = self.pc + 2;
    }

    /// Copy `Vy` into `Vx`.
    pub fn ld_vx_vy(&mut self)
        requires
            old(self).wf(),
            old(self).pc + 2 <= 0xFFFF,
        ensures
            final(self).wf(),
            final(self).instruction == old(self).instruction,
            ld_vx_vy_rel(*old(self), *final(self), old(self).instruction),
    {
        let x = self.get_x();
        let y = self.get_y();
        let vy = self.registers[y as usize];
        self.registers.set(x as usize, vy);
        self.pc = self.pc + 2;
    }

    /// Bitwise or of `Vx` and `Vy` into `Vx`.
    pub fn or_vx_vy(&mut self)
        requires
            old(self).wf(),
            old(self).pc + 2 <= 0xFFFF,
        ensures
            final(self).wf(),
            final(self).instruction == old(self).instruction,
            or_vx_vy_rel(*old(self), *final(self), old(self).instruction),
    {
        let x = self.get_x();
        let y = self.get_y();
        let v = self.registers[x as usize] | self.registers[y as usize];
        self.registers.set(x as usize, v);
        self.pc = self.pc + 2;
    }

    /// Bitwise and of `Vx` and `Vy` into `Vx`.
    pub fn and_vx_vy(&mut self)
        requires
            old(self).wf(),
            old(self).pc + 2 <= 0xFFFF,
        ensures
            final(self).wf(),
            final(self).instruction == old(self).instruction,
            and_vx_vy_rel(*old(self), *final(self), old(self).instruction),
    {
        let x = self.get_x();
        let y = self.get_y();
        let v = self.registers[x as usize] & self.registers[y as usize];
        self.registers.set(x as usize, v);
        self.pc = self.pc + 2;
    }

    /// Bitwise exclusive or of `Vx` and `Vy` into `Vx`.
    pub fn xor_vx_vy(&mut self)
        requires
            old(self).wf(),
            old(self).pc + 2 <= 0xFFFF,
        ensures
            final(self).wf(),
            final(self).instruction == old(self).instruction,
            xor_vx_vy_rel(*old(self), *final(self), old(self).instruction),
    {
        let x = self.get_x();
        let y = self.get_y();
        let v = self.registers[x as usize] ^ self.registers[y as usize];
        self.registers.set(x as usize, v);
        self.pc = self.pc + 2;
    }

    /// Add `Vy` to `Vx` with carry: `VF` is 1 exactly when the sum overflows
    /// 8 bits, and `Vx` takes the wrapped sum.
    pub fn add_vx_vy(&mut self)
        requires
            old(self).wf(),
            old(self).pc + 2 <= 0xFFFF,
        ensures
            final(self).wf(),
            final(self).instruction == old(self).instruction,
            add_vx_vy_rel(*old(self), *final(self), old(self).instruction),
    {
        let x = self.get_x();
        let y = self.get_y();
        let sum = self.registers[x as usize] as u16 + self.registers[y as usize] as u16;
        let carry: u8 = if sum > 255 {
            1
        } else {
            0
        };
        self.registers.set(x as usize, (sum % 256) as u8);
        self.registers.set(15, carry);
        self.pc = self.pc + 2;
    }

    /// Subtract `Vy` from `Vx` with borrow flag: `VF` is 1 exactly when
    /// `Vx >= Vy`, and `Vx` takes the wrapped difference.
    pub fn sub_vx_vy(&mut self)
        requires
            old(self).wf(),
            old(self).pc + 2 <= 0xFFFF,
        ensures
            final(self).wf(),
            final(self).instruction == old(self).instruction,
            sub_vx_vy_rel(*old(self), *final(self), old(self).instruction),
    {
        let x = self.get_x();
        let y = self.get_y();
        let vx = self.registers[x as usize];
        let vy = self.registers[y as usize];
        let flag: u8 = if vx >= vy {
            1
        } else {
            0
        };
        let diff = ((vx as u16 + 256 - vy as u16) % 256) as u8;
        self.registers.set(x as usize, diff);
        self.registers.set(15, flag);
        self.pc = self.pc + 2;
    }

    /// Shift `Vx` right by one: `VF` takes bit 0 of the pre-shift value.
    pub fn shr_vx_vy(&mut self)
        requires
            old(self).wf(),
            old(self).pc + 2 <= 0xFFFF,
        ensures
            final(self).wf(),
            final(self).instruction == old(self).instruction,
            shr_vx_vy_rel(*old(self), *final(self), old(self).instruction),
    {
        let x = self.get_x();
        let vx = self.registers[x as usize];
        self.registers.set(x as usize, vx / 2);
        self.registers.set(15, vx % 2);
        self.pc = self.pc + 2;
    }

    /// Reverse subtract, `Vx := Vy - Vx`, with borrow flag: `VF` is 1 exactly
    /// when `Vy >= Vx`.
    pub fn subn_vx_vy(&mut self)
        requires
            old(self).wf(),
            old(self).pc + 2 <= 0xFFFF,
        ensures
            final(self).wf(),
            final(self).instruction == old(self).instruction,
            subn_vx_vy_rel(*old(self), *final(self), old(self).instruction),
    {
        let x = self.get_x();
        let y = self.get_y();
        let vx = self.registers[x as usize];
        let vy = self.registers[y as usize];
        let flag: u8 = if vy >= vx {
            1
        } else {
            0
        };
        let diff = ((vy as u16 + 256 - vx as u16) % 256) as u8;
        self.registers.set(x as usize, diff);
        self.registers.set(15, flag);
        self.pc = self.pc + 2;
    }

    /// Shift `Vx` left by one, wrapping: `VF` takes bit 7 of the pre-shift
    /// value.
    pub fn shl_vx_vy(&mut self)
        requires
            old(self).wf(),
            old(self).pc + 2 <= 0xFFFF,
        ensures
            final(self).wf(),
            final(self).instruction == old(self).instruction,
            shl_vx_vy_rel(*old(self), *final(self), old(self).instruction),
    {
        let x = self.get_x();
        let vx = self.registers[x as usize];
        let flag: u8 = if vx >= 128 {
            1
        } else {
            0
        };
        self.registers.set(x as usize, ((vx as u16 * 2) % 256) as u8);
        self.registers.set(15, flag);
        self.pc = self.pc + 2;
    }

    /// Load the opcode's address field into the index register.
    pub fn ld_i_addr(&mut self)
        requires
            old(self).wf(),
            old(self).pc + 2 <= 0xFFFF,
        ensures
            final(self).wf(),
            final(self).instruction == old(self).instruction,
            ld_i_addr_rel(*old(self), *final(self), old(self).instruction),
    {
        self.index = self.get_nnn();
        self.pc = self.pc + 2;
    }

    /// Jump to the opcode's address field plus `V0`.
    pub fn jp_v0_addr(&mut self)
        requires
            old(self).wf(),
        ensures
            final(self).wf(),
            final(self).instruction == old(self).instruction,
            jp_v0_addr_rel(*old(self), *final(self), old(self).instruction),
    {
        proof {
            lemma_op_field_bounds(self.instruction);
        }
        self.pc = self.get_nnn() + self.registers[0] as u16;
    }

    /// Load into `Vx` the given random byte masked by the opcode's immediate
    /// byte. The byte comes from the outer driver's uniform byte generator.
    pub fn rnd_vx_byte(&mut self, random: u8)
        requires
            old(self).wf(),
            old(self).pc + 2 <= 0xFFFF,
        ensures
            final(self).wf(),
            final(self).instruction == old(self).instruction,
            rnd_vx_byte_rel(*old(self), *final(self), old(self).instruction, random),
    {
        let x = self.get_x();
        let nn = self.get_nn();
        self.registers.set(x as usize, random & nn);
        self.pc = self.pc + 2;
    }

    /// Skip the next instruction if the key named by `Vx` is pressed.
    pub fn skp_vx(&mut self)
        requires
            old(self).wf(),
            old(self).pc + 4 <= 0xFFFF,
        ensures
            final(self).wf(),
            final(self).instruction == old(self).instruction,
            skp_vx_rel(*old(self), *final(self), old(self).instruction),
    {
        let x = self.get_x();
        let key = self.registers[x as usize] % 16;
        if self.keyboard.is_pressed(key) {
            self.pc = self.pc + 4;
        } else {
            self.pc = self.pc + 2;
        }
    }

    /// Skip the next instruction if the key named by `Vx` is not pressed.
    pub fn sknp_vx(&mut self)
        requires
            old(self).wf(),
            old(self).pc + 4 <= 0xFFFF,
        ensures
            final(self).wf(),
            final(self).instruction == old(self).instruction,
            sknp_vx_rel(*old(self), *final(self), old(self).instruction),
    {
        let x = self.get_x();
        let key = self.registers[x as usize] % 16;
        if !self.keyboard.is_pressed(key) {
            self.pc = self.pc + 4;
        } else {
            self.pc = self.pc + 2;
        }
    }

    /// Load the delay timer into `Vx`.
    pub fn ld_vx_dt(&mut self)
        requires
            old(self).wf(),
            old(self).pc + 2 <= 0xFFFF,
        ensures
            final(self).wf(),
            final(self).instruction == old(self).instruction,
            ld_vx_dt_rel(*old(self), *final(self), old(self).instruction),
    {
        let x = self.get_x();
        let dt = self.delay;
        self.registers.set(x as usize, dt);
        self.pc = self.pc + 2;
    }

    /// Wait for a key press: consume a fresh press into `Vx` and step past,
    /// or leave the program counter in place so the instruction runs again.
    pub fn ld_vx_k(&mut self)
        requires
            old(self).wf(),
            old(self).pc + 2 <= 0xFFFF,
        ensures
            final(self).wf(),
            final(self).instruction == old(self).instruction,
            ld_vx_k_rel(*old(self), *final(self), old(self).instruction),
    {
        let x = self.get_x();
        let pressed = self.keyboard.take_press();
        match pressed {
            Some(k) => {
                self.registers.set(x as usize, k);
                self.pc = self.pc + 2;
            },
            None => {},
        }
    }

    /// Load `Vx` into the delay timer.
    pub fn ld_dt_vx(&mut self)
        requires
            old(self).wf(),
            old(self).pc + 2 <= 0xFFFF,
        ensures
            final(self).wf(),
            final(self).instruction == old(self).instruction,
            ld_dt_vx_rel(*old(self), *final(self), old(self).instruction),
    {
        let x = self.get_x();
        self.delay = self.registers[x as usize];
        self.pc = self.pc + 2;
    }

    /// Load `Vx` into the sound timer.
    pub fn ld_st_vx(&mut self)
        requires
            old(self).wf(),
            old(self).pc + 2 <= 0xFFFF,
        ensures
            final(self).wf(),
            final(self).instruction == old(self).instruction,
            ld_st_vx_rel(*old(self), *final(self), old(self).instruction),
    {
        let x = self.get_x();
        self.sound = self.registers[x as usize];
        self.pc = self.pc + 2;
    }

    /// Add `Vx` to the index register, wrapping modulo 65536.
    pub fn add_i_vx(&mut self)
        requires
            old(self).wf(),
            old(self).pc + 2 <= 0xFFFF,
        ensures
            final(self).wf(),
            final(self).instruction == old(self).instruction,
            add_i_vx_rel(*old(self), *final(self), old(self).instruction),
    {
        let x = self.get_x();
        let vx = self.registers[x as usize];
        self.index = ((self.index as u32 + vx as u32) % 65536) as u16;
        self.pc = self.pc + 2;
    }

    /// Point the index register at the font glyph for the low nibble of `Vx`.
    pub fn ld_f_vx(&mut self)
        requires
            old(self).wf(),
            old(self).pc + 2 <= 0xFFFF,
        ensures
            final(self).wf(),
            final(self).instruction == old(self).instruction,
            ld_f_vx_rel(*old(self), *final(self), old(self).instruction),
    {
        let x = self.get_x();
        let digit = (self.registers[x as usize] % 16) as u16;
        self.index = constants::FONTSET_START + 5 * digit;
        self.pc = self.pc + 2;
    }

    /// Store the decimal digits of `Vx` at the three bytes starting at the
    /// index register, hundreds first, each address taken modulo the memory
    /// size.
    pub fn ld_b_vx(&mut self)
        requires
            old(self).wf(),
            old(self).pc + 2 <= 0xFFFF,
        ensures
            final(self).wf(),
            final(self).instruction == old(self).instruction,
            ld_b_vx_rel(*old(self), *final(self), old(self).instruction),
    {
        let x = self.get_x();
        let vx = self.registers[x as usize];
        let base = self.index as usize;
        self.memory.set(base % 4096, vx / 100);
        self.memory.set((base + 1) % 4096, (vx / 10) % 10);
        self.memory.set((base + 2) % 4096, vx % 10);
        self.pc = self.pc + 2;
    }

    /// Draw the `n`-byte sprite at the index register to `(Vx, Vy)`, one row
    /// per byte, and set `VF` to 1 exactly when a lit pixel was cleared.
    pub fn drw_vx_vy_nibble(&mut self)
        requires
            old(self).wf(),
            old(self).pc + 2 <= 0xFFFF,
        ensures
            final(self).wf(),
            final(self).instruction == old(self).instruction,
            drw_vx_vy_nibble_rel(*old(self), *final(self), old(self).instruction),
    {
        let x = self.get_x();
        let y = self.get_y();
        let n = self.get_n();
        let vx = self.registers[x as usize];
        let vy = self.registers[y as usize];
        let ghost g0 = self.display.grid@;
        let ghost mem0 = self.memory@;
        let mut coll = false;
        let mut r: usize = 0;
        while r < n as usize
            invariant
                r <= n as usize,
                n < 16,
                vx == self.registers@[op_x(self.instruction) as int],
                vy == self.registers@[op_y(self.instruction) as int],
                n == op_n(self.instruction),
                self.wf(),
                mem0 == self.memory@,
                g0.len() == 2048,
                self.memory == old(self).memory,
                self.index == old(self).index,
                self.sp == old(self).sp,
                self.stack == old(self).stack,
                self.delay == old(self).delay,
                self.sound == old(self).sound,
                self.keyboard == old(self).keyboard,
                self.registers == old(self).registers,
                self.pc == old(self).pc,
                self.instruction == old(self).instruction,
                self.display.grid@ == sprite_rows(
                    g0,
                    mem0,
                    self.index as int,
                    vx as int,
                    vy as int,
                    r as nat,
                ),
                coll == sprite_collision(
                    g0,
                    mem0,
                    self.index as int,
                    vx as int,
                    vy as int,
                    r as nat,
                ),
            decreases n as int - r,
        {
            let bits = self.memory[(self.index as usize + r) % 4096];
            let c = self.display.draw_byte(vx as usize, vy as usize + r, bits);
            if c {
                coll = true;
            }
            r += 1;
        }
        let flag: u8 = if coll {
            1
        } else {
            0
        };
        self.registers.set(15, flag);
        self.pc = self.pc + 2;
    }

    /// Store registers `V0` through `Vx` (inclusive) at memory starting at
    /// the index register, each address taken modulo the memory size.
    pub fn ld_mem_vx(&mut self)
        requires
            old(self).wf(),
            old(self).pc + 2 <= 0xFFFF,
        ensures
            final(self).wf(),
            final(self).instruction == old(self).instruction,
            ld_mem_vx_rel(*old(self), *final(self), old(self).instruction),
    {
        let x = self.get_x();
        let mut i: usize = 0;
        while i < x as usize + 1
            invariant
                i <= x as usize + 1,
                x < 16,
                x == op_x(self.instruction),
                self.wf(),
                self.index == old(self).index,
                self.sp == old(self).sp,
                self.stack == old(self).stack,
                self.delay == old(self).delay,
                self.sound == old(self).sound,
                self.display == old(self).display,
                self.keyboard == old(self).keyboard,
                self.registers == old(self).registers,
                self.pc == old(self).pc,
                self.instruction == old(self).instruction,
                self.memory@ == store_regs(
                    old(self).memory@,
                    self.registers@,
                    self.index as int,
                    i as nat,
                ),
            decreases x as int + 1 - i,
        {
            let v = self.registers[i];
            self.memory.set((self.index as usize + i) % 4096, v);
            i += 1;
        }
        self.pc = self.pc + 2;
    }

    /// Load registers `V0` through `Vx` (inclusive) from memory starting at
    /// the index register, each address taken modulo the memory size.
    pub fn ld_vx_mem(&mut self)
        requires
            old(self).wf(),
            old(self).pc + 2 <= 0xFFFF,
        ensures
            final(self).wf(),
            final(self).instruction == old(self).instruction,
            ld_vx_mem_rel(*old(self), *final(self), old(self).instruction),
    {
        let x = self.get_x();
        let mut i: usize = 0;
        while i < x as usize + 1
            invariant
                i <= x as usize + 1,
                x < 16,
                x == op_x(self.instruction),
                self.wf(),
                self.memory == old(self).memory,
                self.index == old(self).index,
                self.sp == old(self).sp,
                self.stack == old(self).stack,
                self.delay == old(self).delay,
                self.sound == old(self).sound,
                self.display == old(self).display,
                self.keyboard == old(self).keyboard,
                self.pc == old(self).pc,
                self.instruction == old(self).instruction,
                self.registers@ == load_regs(
                    old(self).registers@,
                    self.memory@,
                    self.index as int,
                    i as nat,
                ),
            decreases x as int + 1 - i,
        {
            let v = self.memory[(self.index as usize + i) % 4096];
            self.registers.set(i, v);
            i += 1;
        }
        self.pc = self.pc + 2;
    }
}

/// Operand-field extraction and dispatch are pure functions of the 16-bit
/// opcode: decoding the same value twice extracts identical fields and
/// selects the same operation.
pub proof fn lemma_decode_deterministic(a: u16, b: u16)
    requires
        a == b,
    ensures
        op_tag(a) == op_tag(b),
        op_nnn(a) == op_nnn(b),
        op_nn(a) == op_nn(b),
        op_n(a) == op_n(b),
        op_x(a) == op_x(b),
        op_y(a) == op_y(b),
        decode(a) == decode(b),
{
}

/// Drawing a one-row sprite with a single set bit twice at the same
/// coordinates, through the executor's draw model, lights the pixel without
/// collision the first time, then XORs it back to cleared and reports a
/// collision the second time, leaving the framebuffer as it began.
pub proof fn lemma_sprite_drawn_twice_single_pixel(
    g: Seq<bool>,
    mem: Seq<u8>,
    index: int,
    x: int,
    y: int,
    j: int,
)
    requires
        g.len() == 2048,
        0 <= index,
        0 <= j < 8,
        mem[index % 4096] == crate::display::bit_mask(j),
        !g[crate::display::pix(x + j, y)],
    ensures
        !sprite_collision(g, mem, index, x, y, 1),
        sprite_rows(g, mem, index, x, y, 1)[crate::display::pix(x + j, y)],
        sprite_collision(sprite_rows(g, mem, index, x, y, 1), mem, index, x, y, 1),
        sprite_rows(sprite_rows(g, mem, index, x, y, 1), mem, index, x, y, 1) =~= g,
{
    let bits = mem[index % 4096];
    let g1 = crate::display::draw_row(g, x, y, bits, 8);
    assert(sprite_rows(g, mem, index, x, y, 0) == g);
    assert(!sprite_collision(g, mem, index, x, y, 0));
    assert(sprite_rows(g1, mem, index, x, y, 0) == g1);
    assert(!sprite_collision(g1, mem, index, x, y, 0));
    assert(sprite_rows(g, mem, index, x, y, 1) == g1);
    assert(sprite_collision(g, mem, index, x, y, 1) == crate::display::row_collision(
        g,
        x,
        y,
        bits,
        8,
    ));
    assert(sprite_rows(g1, mem, index, x, y, 1) == crate::display::draw_row(g1, x, y, bits, 8));
    assert(sprite_collision(g1, mem, index, x, y, 1) == crate::display::row_collision(
        g1,
        x,
        y,
        bits,
        8,
    ));
    crate::display::lemma_draw_twice_single_pixel(g, x, y, j);
}

/// A call followed by a return is a round trip: the return pops exactly the
/// address the call pushed, so the program counter lands just past the call
/// site, the stack pointer is back at its pre-call value, and the register
/// file, memory, timers and peripherals are untouched.
pub proof fn lemma_call_ret_roundtrip(pre: Emulator, mid: Emulator, post: Emulator, op: u16)
    requires
        pre.wf(),
        pre.sp < 16,
        pre.pc + 2 <= 0xFFFF,
        call_addr_rel(pre, mid, op),
        ret_rel(mid, post),
    ensures
        post.pc == pre.pc + 2,
        post.sp == pre.sp,
        post.registers == pre.registers,
        post.memory == pre.memory,
        post.index == pre.index,
        post.delay == pre.delay,
        post.sound == pre.sound,
        post.display == pre.display,
        post.keyboard == pre.keyboard,
{
}

} // verus!
