//! Memory of a 6502 machine: one or more banks, with an optional Apple 1
//! keyboard/display PIA mapped at 0xD010..0xD013.

use vstd::prelude::*;
use crate::bus::{Bus, next_addr, word, word_spec, low_byte, high_byte, low_byte_spec, high_byte_spec};
use crate::mos6502::config::{MachineConfig, copy_config};
use crate::text::{decimal, push_decimal};

verus! {

/// A bank of memory: `size` bytes, addressed modulo `size`.
#[derive(Debug, Clone)]
pub struct MemoryBank {
    pub data: Vec<u8>,
    pub size: usize,
}

/// A bank as plain values.
pub struct BankView {
    pub data: Seq<u8>,
    pub size: usize,
}

impl View for MemoryBank {
    type V = BankView;

    open spec fn view(&self) -> BankView {
        BankView { data: self.data@, size: self.size }
    }
}

impl BankView {
    /// A bank can be read and written: its size is positive and its data has that size.
    pub open spec fn wf(self) -> bool {
        self.size > 0 && self.data.len() == self.size
    }

    /// The cell an address falls on: the address modulo the size.
    pub open spec fn cell(self, addr: u16) -> int {
        (addr as nat % self.size as nat) as int
    }

    pub open spec fn read(self, addr: u16) -> u8 {
        self.data[self.cell(addr)]
    }

    pub open spec fn write(self, addr: u16, value: u8) -> BankView {
        BankView { data: self.data.update(self.cell(addr), value), size: self.size }
    }
}

impl MemoryBank {
    /// A bank of `size` zero bytes.
    pub fn new(size: usize) -> (r: Self)
        ensures
            r@.size == size,
            r@.data == Seq::new(size as nat, |i: int| 0u8),
    {
        MemoryBank { data: vec![0; size], size }
    }

    pub fn read(&self, addr: u16) -> (r: u8)
        requires
            self@.wf(),
        ensures
            r == self@.read(addr),
    {
        let wrapped_addr = addr as usize % self.size;
        self.data[wrapped_addr]
    }

    pub fn write(&mut self, addr: u16, value: u8)
        requires
            old(self)@.wf(),
        ensures
            final(self)@ == old(self)@.write(addr, value),
    {
        let wrapped_addr = addr as usize % self.size;
        self.data.set(wrapped_addr, value);
    }
}

#[derive(Debug, Clone)]
struct Apple1Pia {
    keyboard_data: u8,
    keyboard_ready: bool,
    keyboard_control: u8,
    display_control: u8,
    display_configured: bool,
    display_output: Vec<u8>,
}

/// The Apple 1 keyboard/display PIA as plain values.
pub struct PiaView {
    pub keyboard_data: u8,
    pub keyboard_ready: bool,
    pub keyboard_control: u8,
    pub display_control: u8,
    pub display_configured: bool,
    pub display_output: Seq<u8>,
}

impl View for Apple1Pia {
    type V = PiaView;

    closed spec fn view(&self) -> PiaView {
        PiaView {
            keyboard_data: self.keyboard_data,
            keyboard_ready: self.keyboard_ready,
            keyboard_control: self.keyboard_control,
            display_control: self.display_control,
            display_configured: self.display_configured,
            display_output: self.display_output@,
        }
    }
}

/// The PIA state at power-on.
pub open spec fn pia_power_on() -> PiaView {
    PiaView {
        keyboard_data: 0,
        keyboard_ready: false,
        keyboard_control: 0,
        display_control: 0,
        display_configured: false,
        display_output: Seq::empty(),
    }
}

fn copy_pia(p: &Apple1Pia) -> (r: Apple1Pia)
    ensures
        r@ == p@,
{
    Apple1Pia {
        keyboard_data: p.keyboard_data,
        keyboard_ready: p.keyboard_ready,
        keyboard_control: p.keyboard_control,
        display_control: p.display_control,
        display_configured: p.display_configured,
        display_output: copy_bytes(&p.display_output),
    }
}

fn copy_bytes(v: &Vec<u8>) -> (r: Vec<u8>)
    ensures
        r@ == v@,
{
    let mut r: Vec<u8> = Vec::new();
    let mut i: usize = 0;
    while i < v.len()
        invariant
            i <= v.len(),
            r@ == v@.subrange(0, i as int),
        decreases v.len() - i,
    {
        r.push(v[i]);
        i = i + 1;
        assert(r@ =~= v@.subrange(0, i as int));
    }
    assert(v@.subrange(0, v.len() as int) =~= v@);
    r
}

/// The memory of a 6502 machine.
#[derive(Debug, Clone)]
pub struct Memory {
    pub banks: Vec<MemoryBank>,
    pub current_bank: usize,
    pub size: usize,
    config: MachineConfig,
    apple1_pia: Option<Apple1Pia>,
}

/// A memory as plain values.
pub struct MemoryView {
    pub banks: Seq<BankView>,
    pub current_bank: usize,
    pub size: usize,
    pub config: MachineConfig,
    pub pia: Option<PiaView>,
}

impl View for Memory {
    type V = MemoryView;

    closed spec fn view(&self) -> MemoryView {
        MemoryView {
            banks: self.banks@.map_values(|b: MemoryBank| b@),
            current_bank: self.current_bank,
            size: self.size,
            config: self.config,
            pia: match self.apple1_pia {
                Some(p) => Some(p@),
                None => None,
            },
        }
    }
}

/// Whether `addr` is one of the four PIA registers.
pub open spec fn is_pia_addr(addr: u16) -> bool {
    0xD010 <= addr <= 0xD013
}

impl MemoryView {
    /// Every bank can be read and written, and the current bank exists.
    pub open spec fn wf(self) -> bool {
        &&& self.banks.len() >= 1
        &&& self.current_bank < self.banks.len()
        &&& forall|i: int| 0 <= i < self.banks.len() ==> (#[trigger] self.banks[i]).wf()
    }

    /// The bank that reads and writes go to: the current bank when bank
    /// switching is on and there is more than one bank, else bank 0.
    pub open spec fn active(self) -> int {
        if self.config.memory.bank_switching && self.banks.len() > 1 {
            self.current_bank as int
        } else {
            0
        }
    }

    /// Whether `addr` is served by the Apple 1 PIA.
    pub open spec fn pia_serves(self, addr: u16) -> bool {
        self.pia is Some && is_pia_addr(addr)
    }

    /// What a read of `addr` returns.
    pub open spec fn peek(self, addr: u16) -> u8 {
        if self.pia_serves(addr) {
            let p = self.pia->0;
            if addr == 0xD010 {
                p.keyboard_data
            } else if addr == 0xD011 {
                (p.keyboard_control & 0x7F) | (if p.keyboard_ready { 0x80u8 } else { 0u8 })
            } else if addr == 0xD012 {
                0
            } else {
                p.display_control
            }
        } else {
            self.banks[self.active()].read(addr)
        }
    }

    /// The memory after `value` is written at `addr`.
    pub open spec fn write(self, addr: u16, value: u8) -> MemoryView {
        if self.pia_serves(addr) {
            let p = self.pia->0;
            let p2 = if addr == 0xD010 {
                PiaView { keyboard_data: value, keyboard_ready: true, ..p }
            } else if addr == 0xD011 {
                PiaView { keyboard_control: value, ..p }
            } else if addr == 0xD012 {
                if p.display_configured {
                    PiaView { display_output: p.display_output.push(value & 0x7F), ..p }
                } else {
                    p
                }
            } else {
                PiaView { display_control: value, display_configured: true, ..p }
            };
            MemoryView { pia: Some(p2), ..self }
        } else {
            MemoryView {
                banks: self.banks.update(self.active(), self.banks[self.active()].write(addr, value)),
                ..self
            }
        }
    }

    /// The 16-bit little-endian word at `addr`.
    pub open spec fn peek_u16(self, addr: u16) -> u16 {
        word_spec(self.peek(addr), self.peek(next_addr(addr)))
    }

    /// The memory after a little-endian 16-bit write.
    pub open spec fn write_u16(self, addr: u16, value: u16) -> MemoryView {
        self.write(addr, low_byte_spec(value)).write(next_addr(addr), high_byte_spec(value))
    }

    /// The keyboard-ready flag cleared (as a bus read of 0xD010 does).
    pub open spec fn clear_key_ready(self) -> MemoryView {
        match self.pia {
            Some(p) => MemoryView { pia: Some(PiaView { keyboard_ready: false, ..p }), ..self },
            None => self,
        }
    }

    /// The memory after `data` is written byte by byte from `offset`
    /// (addresses wrapping at 0xFFFF), up to byte `n`.
    pub open spec fn load(self, data: Seq<u8>, offset: u16, n: nat) -> MemoryView
        decreases n,
    {
        if n == 0 {
            self
        } else {
            let i = (n - 1) as nat;
            self.load(data, offset, i).write(offset.wrapping_add(i as u16), data[i as int])
        }
    }

    /// Bank `bank` after `data` is written byte by byte from `offset` into
    /// it directly (the PIA is bypassed), up to byte `n`.
    pub open spec fn load_bank(self, bank: int, data: Seq<u8>, offset: u16, n: nat) -> MemoryView
        decreases n,
    {
        if n == 0 {
            self
        } else {
            let i = (n - 1) as nat;
            let m = self.load_bank(bank, data, offset, i);
            MemoryView {
                banks: m.banks.update(bank, m.banks[bank].write(offset.wrapping_add(i as u16), data[i as int])),
                ..m
            }
        }
    }
}

/// The banks a configuration asks for: `num_banks` banks of `size / num_banks`
/// bytes when bank switching is on with more than one bank, else one bank of `size`.
pub open spec fn configured_banks(config: MachineConfig) -> Seq<BankView> {
    if config.memory.bank_switching && config.memory.num_banks > 1 {
        let bank_size = (config.memory.size / config.memory.num_banks) as usize;
        Seq::new(
            config.memory.num_banks as nat,
            |i: int| BankView { data: Seq::new(bank_size as nat, |j: int| 0u8), size: bank_size },
        )
    } else {
        seq![BankView { data: Seq::new(config.memory.size as nat, |j: int| 0u8), size: config.memory.size }]
    }
}

/// Whether every configured bank has at least one byte.
pub open spec fn config_banks_nonempty(config: MachineConfig) -> bool {
    if config.memory.bank_switching && config.memory.num_banks > 1 {
        config.memory.size >= config.memory.num_banks
    } else {
        config.memory.size > 0
    }
}

/// A freshly built memory for a configuration.
pub open spec fn fresh_memory(config: MachineConfig) -> MemoryView {
    MemoryView {
        banks: configured_banks(config),
        current_bank: 0,
        size: config.memory.size,
        config,
        pia: if config.is_apple1 { Some(pia_power_on()) } else { None },
    }
}

impl Memory {
    proof fn lemma_view_banks(&self)
        ensures
            self@.banks.len() == self.banks@.len(),
            forall|i: int| 0 <= i < self.banks@.len() ==> #[trigger] self@.banks[i] == self.banks@[i]@,
    {
    }

    /// Memory laid out as the configuration says, all zero, with the PIA
    /// present exactly for an Apple 1 configuration.
    pub fn new(config: &MachineConfig) -> (r: Self)
        ensures
            r@ == fresh_memory(*config),
            config_banks_nonempty(*config) ==> r@.wf(),
    {
        let mut banks: Vec<MemoryBank> = Vec::new();
        if config.memory.bank_switching && config.memory.num_banks > 1 {
            let bank_size = config.memory.size / config.memory.num_banks;
            let mut i: usize = 0;
            while i < config.memory.num_banks
                invariant
                    i <= config.memory.num_banks,
                    bank_size == config.memory.size / config.memory.num_banks,
                    banks@.len() == i,
                    forall|k: int| 0 <= k < i ==> (#[trigger] banks@[k])@ == (BankView {
                        data: Seq::new(bank_size as nat, |j: int| 0u8),
                        size: bank_size,
                    }),
                decreases config.memory.num_banks - i,
            {
                banks.push(MemoryBank::new(bank_size));
                i = i + 1;
            }
        } else {
            banks.push(MemoryBank::new(config.memory.size));
        }
        let r = Memory {
            banks,
            current_bank: 0,
            size: config.memory.size,
            config: copy_config(config),
            apple1_pia: Self::apple1_pia_for(config),
        };
        proof {
            r.lemma_view_banks();
            assert(r@.banks =~= configured_banks(*config));
            if config_banks_nonempty(*config) {
                if config.memory.bank_switching && config.memory.num_banks > 1 {
                    assert(config.memory.size / config.memory.num_banks >= 1) by (nonlinear_arith)
                        requires
                            config.memory.size >= config.memory.num_banks,
                            config.memory.num_banks > 1,
                    ;
                }
            }
        }
        r
    }

    fn apple1_pia_for(config: &MachineConfig) -> (r: Option<Apple1Pia>)
        ensures
            config.is_apple1 <==> r is Some,
            r matches Some(p) ==> p@ == pia_power_on(),
    {
        if !config.is_apple1 {
            return None;
        }
        Some(
            Apple1Pia {
                keyboard_data: 0,
                keyboard_ready: false,
                keyboard_control: 0,
                display_control: 0,
                display_configured: false,
                display_output: Vec::new(),
            },
        )
    }

    /// The memory of the default (NMOS 6502, 64 KiB) configuration.
    pub fn with_defaults() -> (r: Self)
        ensures
            r@.wf(),
            r@.banks.len() == 1,
            r@.banks[0].size == 65536,
            r@.banks[0].data == Seq::new(65536, |j: int| 0u8),
            r@.pia is None,
    {
        let c = MachineConfig::default();
        let r = Self::new(&c);
        r
    }

    /// Reads a byte; PIA registers when the Apple 1 PIA is present, else the active bank.
    pub fn read(&self, addr: u16) -> (r: u8)
        requires
            self@.wf(),
        ensures
            r == self@.peek(addr),
    {
        proof {
            self.lemma_view_banks();
        }
        if let Some(pia) = &self.apple1_pia {
            if addr == 0xD010 {
                return pia.keyboard_data;
            } else if addr == 0xD011 {
                let ready: u8 = if pia.keyboard_ready { 0x80 } else { 0x00 };
                return (pia.keyboard_control & 0x7F) | ready;
            } else if addr == 0xD012 {
                return 0x00;
            } else if addr == 0xD013 {
                return pia.display_control;
            }
        }
        let idx = if self.config.memory.bank_switching && self.banks.len() > 1 {
            self.current_bank
        } else {
            0
        };
        assert(self@.banks[idx as int].wf());
        self.banks[idx].read(addr)
    }

    /// Writes a byte; PIA registers when the Apple 1 PIA is present, else the active bank.
    pub fn write(&mut self, addr: u16, value: u8)
        requires
            old(self)@.wf(),
        ensures
            final(self)@ == old(self)@.write(addr, value),
            final(self)@.wf(),
    {
        proof {
            self.lemma_view_banks();
        }
        if let Some(pia) = &mut self.apple1_pia {
            if addr == 0xD010 {
                pia.keyboard_data = value;
                pia.keyboard_ready = true;
                return;
            } else if addr == 0xD011 {
                pia.keyboard_control = value;
                return;
            } else if addr == 0xD012 {
                if pia.display_configured {
                    pia.display_output.push(value & 0x7F);
                }
                return;
            } else if addr == 0xD013 {
                pia.display_control = value;
                pia.display_configured = true;
                return;
            }
        }
        let idx = if self.config.memory.bank_switching && self.banks.len() > 1 {
            self.current_bank
        } else {
            0
        };
        assert(self@.banks[idx as int].wf());
        let mut bank = self.banks.remove(idx);
        bank.write(addr, value);
        self.banks.insert(idx, bank);
        proof {
            self.lemma_view_banks();
            assert(self@.banks =~= old(self)@.banks.update(idx as int, old(self)@.banks[idx as int].write(addr, value)));
        }
    }

    pub fn read_u16(&self, addr: u16) -> (r: u16)
        requires
            self@.wf(),
        ensures
            r == self@.peek_u16(addr),
    {
        let lo = self.read(addr);
        let hi = self.read(addr.wrapping_add(1));
        word(lo, hi)
    }

    pub fn write_u16(&mut self, addr: u16, value: u16)
        requires
            old(self)@.wf(),
        ensures
            final(self)@ == old(self)@.write_u16(addr, value),
            final(self)@.wf(),
    {
        self.write(addr, low_byte(value));
        self.write(addr.wrapping_add(1), high_byte(value));
    }

    /// Writes `data` byte by byte from `offset`, through `write` (addresses wrap at 0xFFFF).
    pub fn load_rom(&mut self, data: &[u8], offset: u16)
        requires
            old(self)@.wf(),
        ensures
            final(self)@ == old(self)@.load(data@, offset, data@.len()),
            final(self)@.wf(),
    {
        let mut i: usize = 0;
        while i < data.len()
            invariant
                i <= data@.len(),
                self@.wf(),
                self@ == old(self)@.load(data@, offset, i as nat),
            decreases data.len() - i,
        {
            let addr = offset.wrapping_add(i as u16);
            self.write(addr, data[i]);
            i = i + 1;
        }
    }

    /// Writes `data` from `offset` directly into bank `bank`; an error when
    /// the bank does not exist.
    pub fn load_rom_bank(&mut self, bank: usize, data: &[u8], offset: u16) -> (r: Result<(), String>)
        requires
            old(self)@.wf(),
        ensures
            final(self)@.wf(),
            bank < old(self)@.banks.len() ==> r is Ok && final(self)@ == old(self)@.load_bank(
                bank as int,
                data@,
                offset,
                data@.len(),
            ),
            bank >= old(self)@.banks.len() ==> r is Err && final(self)@ == old(self)@ && r->Err_0@
                == "Bank "@ + decimal(bank as nat) + " out of range (max: "@ + decimal(
                (old(self)@.banks.len() - 1) as nat,
            ) + ")"@,
    {
        proof {
            self.lemma_view_banks();
        }
        if bank >= self.banks.len() {
            let mut msg = "Bank ".to_owned();
            push_decimal(&mut msg, bank);
            msg.append(" out of range (max: ");
            push_decimal(&mut msg, self.banks.len() - 1);
            msg.append(")");
            return Err(msg);
        }
        let mut b = self.banks.remove(bank);
        let ghost start = old(self)@;
        let mut i: usize = 0;
        while i < data.len()
            invariant
                i <= data@.len(),
                b@ == start.load_bank(bank as int, data@, offset, i as nat).banks[bank as int],
                start.load_bank(bank as int, data@, offset, i as nat).banks.len() == start.banks.len(),
                start.load_bank(bank as int, data@, offset, i as nat).banks[bank as int].wf(),
                forall|k: int| 0 <= k < start.banks.len() && k != bank ==> (#[trigger] start.load_bank(bank as int, data@, offset, i as nat).banks[k]) == start.banks[k],
                start.load_bank(bank as int, data@, offset, i as nat) == (MemoryView {
                    banks: start.load_bank(bank as int, data@, offset, i as nat).banks,
                    ..start
                }),
                start.wf(),
                bank < start.banks.len(),
            decreases data.len() - i,
        {
            let addr = offset.wrapping_add(i as u16);
            b.write(addr, data[i]);
            i = i + 1;
        }
        self.banks.insert(bank, b);
        proof {
            self.lemma_view_banks();
            let fin = start.load_bank(bank as int, data@, offset, data@.len());
            assert(self@.banks =~= fin.banks);
        }
        Ok(())
    }

    /// Selects the current bank; an error when it does not exist.
    pub fn set_bank(&mut self, bank: usize) -> (r: Result<(), String>)
        requires
            old(self)@.wf(),
        ensures
            final(self)@.wf(),
            bank < old(self)@.banks.len() ==> r is Ok && final(self)@ == (MemoryView {
                current_bank: bank,
                ..old(self)@
            }),
            bank >= old(self)@.banks.len() ==> r is Err && final(self)@ == old(self)@ && r->Err_0@
                == "Bank "@ + decimal(bank as nat) + " out of range"@,
    {
        if bank >= self.banks.len() {
            let mut msg = "Bank ".to_owned();
            push_decimal(&mut msg, bank);
            msg.append(" out of range");
            return Err(msg);
        }
        self.current_bank = bank;
        Ok(())
    }

    pub fn get_bank(&self) -> (r: usize)
        ensures
            r == self@.current_bank,
    {
        self.current_bank
    }

    pub fn num_banks(&self) -> (r: usize)
        ensures
            r == self@.banks.len(),
    {
        proof {
            self.lemma_view_banks();
        }
        self.banks.len()
    }

    pub fn bank_size(&self) -> (r: usize)
        requires
            self@.wf(),
        ensures
            r == self@.banks[self@.current_bank as int].size,
    {
        proof {
            self.lemma_view_banks();
        }
        self.banks[self.current_bank].size
    }

    /// The bytes of bank 0.
    pub fn as_slice(&self) -> (r: &[u8])
        requires
            self@.wf(),
        ensures
            r@ == self@.banks[0].data,
    {
        proof {
            self.lemma_view_banks();
        }
        self.banks[0].data.as_slice()
    }

    /// The configured memory size.
    pub fn len(&self) -> (r: usize)
        ensures
            r == self@.size,
    {
        self.size
    }

    pub fn is_zero_page(addr: u16) -> (r: bool)
        ensures
            r == (addr <= 0xFF),
    {
        addr <= 0xFF
    }

    pub fn is_stack_page(addr: u16) -> (r: bool)
        ensures
            r == (0x0100 <= addr <= 0x01FF),
    {
        addr >= 0x0100 && addr <= 0x01FF
    }

    pub fn get_reset_vector(&self) -> (r: u16)
        requires
            self@.wf(),
        ensures
            r == self@.peek_u16(self@.config.reset_vector),
    {
        self.read_u16(self.config.reset_vector)
    }

    pub fn set_reset_vector(&mut self, addr: u16)
        requires
            old(self)@.wf(),
        ensures
            final(self)@ == old(self)@.write_u16(old(self)@.config.reset_vector, addr),
            final(self)@.wf(),
    {
        let v = self.config.reset_vector;
        self.write_u16(v, addr);
    }

    pub fn get_nmi_vector(&self) -> (r: u16)
        requires
            self@.wf(),
        ensures
            r == self@.peek_u16(self@.config.nmi_vector),
    {
        self.read_u16(self.config.nmi_vector)
    }

    pub fn set_nmi_vector(&mut self, addr: u16)
        requires
            old(self)@.wf(),
        ensures
            final(self)@ == old(self)@.write_u16(old(self)@.config.nmi_vector, addr),
            final(self)@.wf(),
    {
        let v = self.config.nmi_vector;
        self.write_u16(v, addr);
    }

    pub fn get_irq_vector(&self) -> (r: u16)
        requires
            self@.wf(),
        ensures
            r == self@.peek_u16(self@.config.irq_vector),
    {
        self.read_u16(self.config.irq_vector)
    }

    pub fn set_irq_vector(&mut self, addr: u16)
        requires
            old(self)@.wf(),
        ensures
            final(self)@ == old(self)@.write_u16(old(self)@.config.irq_vector, addr),
            final(self)@.wf(),
    {
        let v = self.config.irq_vector;
        self.write_u16(v, addr);
    }

    /// Zeroes every bank and puts the PIA (if the configuration has one) back to power-on.
    pub fn clear(&mut self)
        requires
            old(self)@.wf(),
        ensures
            final(self)@ == (MemoryView {
                banks: old(self)@.banks.map_values(
                    |b: BankView| BankView { data: Seq::new(b.size as nat, |j: int| 0u8), size: b.size },
                ),
                pia: if old(self)@.config.is_apple1 { Some(pia_power_on()) } else { None },
                ..old(self)@
            }),
            final(self)@.wf(),
    {
        let ghost start = old(self)@;
        let mut i: usize = 0;
        let n = self.banks.len();
        proof {
            self.lemma_view_banks();
        }
        while i < n
            invariant
                n == self.banks@.len(),
                n == start.banks.len(),
                i <= n,
                self@.current_bank == start.current_bank,
                self@.size == start.size,
                self@.config == start.config,
                self@.pia == start.pia,
                start.wf(),
                forall|k: int| 0 <= k < n ==> (#[trigger] self.banks@[k]).size == start.banks[k].size,
                forall|k: int| 0 <= k < n ==> (#[trigger] self.banks@[k]).data@.len() == start.banks[k].data.len(),
                forall|k: int| 0 <= k < i ==> (#[trigger] self.banks@[k]).data@ == Seq::new(start.banks[k].size as nat, |j: int| 0u8),
                forall|k: int| i <= k < n ==> (#[trigger] self.banks@[k])@ == start.banks[k],
            decreases n - i,
        {
            let mut bank = self.banks.remove(i);
            let len = bank.data.len();
            bank.data = vec![0; len];
            self.banks.insert(i, bank);
            i = i + 1;
        }
        self.apple1_pia = Self::apple1_pia_for(&self.config);
        proof {
            self.lemma_view_banks();
            assert(self@.banks =~= start.banks.map_values(
                |b: BankView| BankView { data: Seq::new(b.size as nat, |j: int| 0u8), size: b.size },
            ));
        }
    }

    /// Copies the bytes of each bank that `other` also has, and takes its PIA state.
    pub fn copy_from(&mut self, other: &Memory)
        requires
            old(self)@.wf(),
            forall|k: int| 0 <= k < old(self)@.banks.len() && k < other@.banks.len() ==>
                (#[trigger] old(self)@.banks[k]).data.len() == other@.banks[k].data.len(),
        ensures
            final(self)@ == (MemoryView {
                banks: Seq::new(
                    old(self)@.banks.len(),
                    |k: int| if k < other@.banks.len() {
                        BankView { data: other@.banks[k].data, size: old(self)@.banks[k].size }
                    } else {
                        old(self)@.banks[k]
                    },
                ),
                pia: other@.pia,
                ..old(self)@
            }),
            final(self)@.wf(),
    {
        let ghost start = old(self)@;
        let n = self.banks.len();
        proof {
            self.lemma_view_banks();
            other.lemma_view_banks();
        }
        let mut i: usize = 0;
        while i < n
            invariant
                n == self.banks@.len(),
                n == start.banks.len(),
                i <= n,
                self@.current_bank == start.current_bank,
                self@.size == start.size,
                self@.config == start.config,
                self@.pia == start.pia,
                start.wf(),
                other@.banks.len() == other.banks@.len(),
                forall|k: int| 0 <= k < other.banks@.len() ==> #[trigger] other@.banks[k] == other.banks@[k]@,
                forall|k: int| 0 <= k < start.banks.len() && k < other@.banks.len() ==>
                    (#[trigger] start.banks[k]).data.len() == other@.banks[k].data.len(),
                forall|k: int| 0 <= k < i ==> (#[trigger] self.banks@[k])@ == (if k < other@.banks.len() {
                    BankView { data: other@.banks[k].data, size: start.banks[k].size }
                } else {
                    start.banks[k]
                }),
                forall|k: int| i <= k < n ==> (#[trigger] self.banks@[k])@ == start.banks[k],
            decreases n - i,
        {
            if i < other.banks.len() {
                let mut bank = self.banks.remove(i);
                bank.data = copy_bytes(&other.banks[i].data);
                self.banks.insert(i, bank);
            }
            i = i + 1;
        }
        self.apple1_pia = match &other.apple1_pia {
            Some(p) => Some(copy_pia(p)),
            None => None,
        };
        proof {
            self.lemma_view_banks();
            assert(self@.banks =~= Seq::new(
                start.banks.len(),
                |k: int| if k < other@.banks.len() {
                    BankView { data: other@.banks[k].data, size: start.banks[k].size }
                } else {
                    start.banks[k]
                },
            ));
        }
    }

    /// Overwrites the bytes of bank 0 with an image of the same length.
    pub fn restore_bank0(&mut self, image: &[u8])
        requires
            old(self)@.wf(),
            image@.len() == old(self)@.banks[0].data.len(),
        ensures
            final(self)@ == (MemoryView {
                banks: old(self)@.banks.update(0, BankView { data: image@, size: old(self)@.banks[0].size }),
                ..old(self)@
            }),
            final(self)@.wf(),
    {
        proof {
            self.lemma_view_banks();
        }
        let mut bank = self.banks.remove(0);
        bank.data = vstd::slice::slice_to_vec(image);
        self.banks.insert(0, bank);
        proof {
            self.lemma_view_banks();
            assert(self@.banks =~= old(self)@.banks.update(0, BankView { data: image@, size: old(self)@.banks[0].size }));
        }
    }

    /// Apple 1 key press: the key code with bit 7 set, and the ready flag.
    pub fn apple1_press_key(&mut self, ascii: u8)
        ensures
            final(self)@ == (match old(self)@.pia {
                Some(p) => MemoryView {
                    pia: Some(PiaView { keyboard_data: ascii | 0x80, keyboard_ready: true, ..p }),
                    ..old(self)@
                },
                None => old(self)@,
            }),
    {
        if let Some(pia) = &mut self.apple1_pia {
            pia.keyboard_data = ascii | 0x80;
            pia.keyboard_ready = true;
        }
    }

    pub fn apple1_clear_key_ready(&mut self)
        ensures
            final(self)@ == old(self)@.clear_key_ready(),
    {
        if let Some(pia) = &mut self.apple1_pia {
            pia.keyboard_ready = false;
        }
    }

    /// Takes the characters the Apple 1 display has received so far.
    pub fn apple1_take_output(&mut self) -> (r: Vec<u8>)
        ensures
            (match old(self)@.pia {
                Some(p) => r@ == p.display_output && final(self)@ == (MemoryView {
                    pia: Some(PiaView { display_output: Seq::empty(), ..p }),
                    ..old(self)@
                }),
                None => r@ == Seq::<u8>::empty() && final(self)@ == old(self)@,
            }),
    {
        if let Some(pia) = &mut self.apple1_pia {
            let mut out: Vec<u8> = Vec::new();
            std::mem::swap(&mut out, &mut pia.display_output);
            return out;
        }
        Vec::new()
    }
}

impl Bus for Memory {
    open spec fn inv(s: MemoryView) -> bool {
        s.wf()
    }

    proof fn lemma_inv(s: MemoryView, addr: u16, value: u8) {
        assert(s.wf());
        let w = s.write(addr, value);
        if !s.pia_serves(addr) {
            let k = s.active();
            assert(0 <= k < s.banks.len());
            assert(s.banks[k].wf());
            assert(s.banks[k].write(addr, value).wf());
            assert(w.banks.len() == s.banks.len());
            assert forall|i: int| 0 <= i < w.banks.len() implies (#[trigger] w.banks[i]).wf() by {
                if i != k {
                    assert(s.banks[i].wf());
                }
            }
        }
        assert(w.wf());
        assert(<Memory as Bus>::after_write(s, addr, value) == w);
        assert(<Memory as Bus>::inv(w));
    }

    open spec fn peek(s: MemoryView, addr: u16) -> u8 {
        s.peek(addr)
    }

    /// A bus read of 0xD010 (the Apple 1 keyboard register) clears the key-ready flag.
    open spec fn after_read(s: MemoryView, addr: u16) -> MemoryView {
        if addr == 0xD010 {
            s.clear_key_ready()
        } else {
            s
        }
    }

    open spec fn after_write(s: MemoryView, addr: u16, value: u8) -> MemoryView {
        s.write(addr, value)
    }

    fn read(&mut self, addr: u16) -> (r: u8) {
        let value = Memory::read(self, addr);
        if addr == 0xD010 {
            self.apple1_clear_key_ready();
        }
        value
    }

    fn write(&mut self, addr: u16, value: u8) {
        Memory::write(self, addr, value)
    }
}

/// A byte written outside the PIA registers reads back; bytes on other
/// cells of the active bank, and the other banks, are unchanged.
pub proof fn lemma_write_then_read(m: MemoryView, addr: u16, value: u8, other: u16)
    requires
        m.wf(),
        !m.pia_serves(addr),
    ensures
        m.write(addr, value).peek(addr) == value,
        m.write(addr, value).wf(),
        !m.pia_serves(other) && m.banks[m.active()].cell(other) != m.banks[m.active()].cell(addr)
            ==> m.write(addr, value).peek(other) == m.peek(other),
        forall|j: int| 0 <= j < m.banks.len() && j != m.active() ==> #[trigger] m.write(addr, value).banks[j] == m.banks[j],
{
    <Memory as Bus>::lemma_inv(m, addr, value);
    assert(m.banks[m.active()].wf());
}

/// A word written outside the PIA registers, on two distinct cells, reads back.
pub proof fn lemma_write_u16_then_read_u16(m: MemoryView, addr: u16, value: u16)
    requires
        m.wf(),
        !m.pia_serves(addr),
        !m.pia_serves(next_addr(addr)),
        m.banks[m.active()].cell(addr) != m.banks[m.active()].cell(next_addr(addr)),
    ensures
        m.write_u16(addr, value).peek_u16(addr) == value,
{
    let m1 = m.write(addr, low_byte_spec(value));
    lemma_write_then_read(m, addr, low_byte_spec(value), next_addr(addr));
    lemma_write_then_read(m1, next_addr(addr), high_byte_spec(value), addr);
    crate::bus::lemma_word_bytes(value);
}

/// An Apple 1 key press is seen at 0xD010 with bit 7 set, and 0xD011 reports
/// it ready; a bus read of 0xD010 then clears the ready bit.
pub proof fn lemma_apple1_key(m: MemoryView, ascii: u8)
    requires
        m.pia is Some,
    ensures
        ({
            let p = m.pia->0;
            let m1 = MemoryView {
                pia: Some(PiaView { keyboard_data: ascii | 0x80, keyboard_ready: true, ..p }),
                ..m
            };
            &&& m1.peek(0xD010) == ascii | 0x80
            &&& m1.peek(0xD011) & 0x80 == 0x80
            &&& <Memory as Bus>::after_read(m1, 0xD010).peek(0xD011) & 0x80 == 0
        }),
{
    let p = m.pia->0;
    let c = p.keyboard_control;
    assert(((c & 0x7F) | 0x80u8) & 0x80 == 0x80 && ((c & 0x7F) | 0u8) & 0x80 == 0) by (bit_vector);
}

} // verus!
