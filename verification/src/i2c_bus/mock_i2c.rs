use vstd::prelude::*;

verus! {

/// The error that the simulated bus reports.
#[derive(Clone, Copy, Debug, PartialEq, Eq, Structural)]
pub enum MockI2cError {
    BusError,
}

/// A simulated I2C device with 256 byte registers and a register pointer: a write selects a
/// register (its first byte) and stores the remaining bytes from there; a read continues
/// from the selected register.
#[derive(Clone, Copy, Debug, PartialEq, Eq)]
pub struct MockI2c {
    /// Simulated device register space.
    pub registers: [u8; 256],
    /// Register selected by the most recent transfer.
    current_register: u8,
}

/// The register pointer advanced by `n` and wrapped to a byte.
pub open spec fn advance_register(register: u8, n: nat) -> u8 {
    ((register + n) % 256) as u8
}

impl MockI2c {
    /// The contents of the registers.
    pub closed spec fn register_file(&self) -> Seq<u8> {
        self.registers@
    }

    /// The register that the next read starts from.
    pub closed spec fn selected(&self) -> u8 {
        self.current_register
    }

    /// Every device holds exactly 256 registers.
    pub proof fn lemma_register_file_len(&self)
        ensures
            self.register_file().len() == 256,
    {
    }

    pub fn new() -> (r: Self)
        ensures
            r.register_file() == Seq::new(256, |i: int| 0u8),
            r.selected() == 0,
    {
        let r = Self { registers: [0u8; 256], current_register: 0 };
        assert(r.registers@ =~= Seq::new(256, |i: int| 0u8));
        r
    }

    /// Set the value of a simulated register.
    pub fn set_register(&mut self, register: u8, value: u8)
        ensures
            final(self).register_file() == old(self).register_file().update(register as int, value),
            final(self).selected() == old(self).selected(),
    {
        self.registers[register as usize] = value;
    }

    /// Set consecutive registers from `register` on; values that would pass the last
    /// register are dropped.
    pub fn set_registers(&mut self, register: u8, values: &[u8])
        ensures
            final(self).selected() == old(self).selected(),
            final(self).register_file() == stored_from(old(self).register_file(), register as int, values@),
    {
        self.store(register, values);
    }

    fn store(&mut self, register: u8, values: &[u8])
        ensures
            final(self).selected() == old(self).selected(),
            final(self).register_file() == stored_from(old(self).register_file(), register as int, values@),
    {
        let start = register as usize;
        let end = if values.len() < 256 - start {
            start + values.len()
        } else {
            256
        };
        let mut i = start;
        while i < end
            invariant
                start <= i <= end <= 256,
                end == if start + values@.len() < 256 { start + values@.len() } else { 256 },
                self.current_register == old(self).current_register,
                forall|j: int|
                    0 <= j < 256 ==> #[trigger] self.registers@[j] == if start <= j < i {
                        values@[j - start]
                    } else {
                        old(self).registers@[j]
                    },
            decreases end - i,
        {
            self.registers[i] = values[i - start];
            i = i + 1;
        }
        assert(self.registers@ =~= stored_from(old(self).register_file(), register as int, values@));
    }

    /// Read the value of a simulated register.
    pub fn register(&self, register: u8) -> (r: u8)
        ensures
            r == self.register_file()[register as int],
    {
        self.registers[register as usize]
    }

    /// Fills `read` from the selected register on, with zeros past the last register, and
    /// advances the register pointer by the number of bytes read (wrapping).
    pub fn read(&mut self, read: &mut [u8]) -> (r: Result<(), MockI2cError>)
        ensures
            r is Ok,
            final(read)@ == read_bytes(old(self).register_file(), old(self).selected(), old(read)@.len()),
            final(self).register_file() == old(self).register_file(),
            final(self).selected() == advance_register(old(self).selected(), old(read)@.len()),
    {
        let start = self.current_register as usize;
        let n = read.len();
        let mut j: usize = 0;
        while j < n
            invariant
                n == read@.len(),
                n == old(read)@.len(),
                start == self.current_register,
                self.registers@ == old(self).registers@,
                self.current_register == old(self).current_register,
                j <= n,
                forall|k: int|
                    0 <= k < j ==> #[trigger] read@[k] == if start + k < 256 {
                        self.registers@[start + k]
                    } else {
                        0u8
                    },
            decreases n - j,
        {
            let b = if j < 256 - start {
                self.registers[start + j]
            } else {
                0
            };
            read[j] = b;
            j = j + 1;
        }
        self.current_register = ((start + n % 256) % 256) as u8;
        assert(read@ =~= read_bytes(old(self).register_file(), old(self).selected(), n as nat));
        Ok(())
    }

    /// A write: its first byte selects a register; the remaining bytes, if any, are stored
    /// from that register on (up to the last register) and the pointer moves past them
    /// (wrapping). An empty write changes nothing.
    pub fn write(&mut self, write: &[u8]) -> (r: Result<(), MockI2cError>)
        ensures
            r is Ok,
            final(self).register_file() == written_registers(old(self).register_file(), write@),
            final(self).selected() == selected_after_write(old(self).selected(), write@),
    {
        if write.len() == 0 {
            return Ok(());
        }
        let register = write[0];
        self.current_register = register;
        if write.len() > 1 {
            let data = &write[1..write.len()];
            self.store(register, data);
            self.current_register = register.wrapping_add((data.len() % 256) as u8);
            assert(data@ =~= write@.skip(1));
        } else {
            assert(self.registers@ =~= written_registers(old(self).register_file(), write@));
        }
        Ok(())
    }

    /// A write followed by a read.
    pub fn write_read(&mut self, write: &[u8], read: &mut [u8]) -> (r: Result<(), MockI2cError>)
        ensures
            r is Ok,
            final(read)@ == read_bytes(
                written_registers(old(self).register_file(), write@),
                selected_after_write(old(self).selected(), write@),
                old(read)@.len(),
            ),
            final(self).register_file() == written_registers(old(self).register_file(), write@),
            final(self).selected() == advance_register(
                selected_after_write(old(self).selected(), write@),
                old(read)@.len(),
            ),
    {
        let _ = self.write(write);
        self.read(read)
    }
}

/// The bytes that a read of `n` bytes from register `selected` returns: the registers from
/// there on, and zeros past the last register.
pub open spec fn read_bytes(registers: Seq<u8>, selected: u8, n: nat) -> Seq<u8> {
    Seq::new(n, |j: int| if selected + j < 256 { registers[selected + j] } else { 0u8 })
}

/// The registers after a write.
pub open spec fn written_registers(registers: Seq<u8>, write: Seq<u8>) -> Seq<u8> {
    if write.len() == 0 {
        registers
    } else {
        stored_from(registers, write[0] as int, write.skip(1))
    }
}

/// The register pointer after a write.
pub open spec fn selected_after_write(selected: u8, write: Seq<u8>) -> u8 {
    if write.len() == 0 {
        selected
    } else {
        advance_register(write[0], (write.len() - 1) as nat)
    }
}

/// What a write stores is what a read gives back: after writing `data` from register `reg`
/// (within the register space), selecting `reg` with a one-byte write and reading up to
/// `data.len()` bytes returns the first bytes of `data`.
pub proof fn lemma_read_returns_written(registers: Seq<u8>, selected: u8, reg: u8, data: Seq<u8>, n: nat)
    requires
        registers.len() == 256,
        reg + data.len() <= 256,
        n <= data.len(),
    ensures
        ({
            let write = seq![reg] + data;
            let regs = written_registers(registers, write);
            let sel = selected_after_write(selected_after_write(selected, write), seq![reg]);
            &&& regs.len() == 256
            &&& written_registers(regs, seq![reg]) == regs
            &&& read_bytes(written_registers(regs, seq![reg]), sel, n) == data.take(n as int)
        }),
{
    let write = seq![reg] + data;
    assert(write.skip(1) =~= data);
    let regs = written_registers(registers, write);
    assert(seq![reg].skip(1) =~= Seq::<u8>::empty());
    assert(stored_from(regs, reg as int, Seq::<u8>::empty()) =~= regs);
    let sel = selected_after_write(selected_after_write(selected, write), seq![reg]);
    assert(sel == reg);
    assert(read_bytes(regs, sel, n) =~= data.take(n as int));
}

/// What a store from register `register` leaves in a device: the registers from `register` on
/// hold `values` (as many as fit before the last register) and every other register keeps its
/// value.
pub proof fn lemma_stored_registers(m: MockI2c, register: u8, values: Seq<u8>)
    ensures
        ({
            let before = m.register_file();
            let after = stored_from(before, register as int, values);
            let n = if register + values.len() <= 256 { values.len() as int } else { 256 - register };
            &&& after.len() == 256
            &&& forall|i: int| 0 <= i < n ==> #[trigger] after[register + i] == values[i]
            &&& forall|j: int|
                0 <= j < 256 && !(register <= j < register + n) ==> #[trigger] after[j] == before[j]
        }),
{
    m.lemma_register_file_len();
}

/// `values` stored into `registers` from index `start` on, up to the last register.
pub open spec fn stored_from(registers: Seq<u8>, start: int, values: Seq<u8>) -> Seq<u8> {
    Seq::new(
        registers.len(),
        |j: int|
            if start <= j < start + values.len() {
                values[j - start]
            } else {
                registers[j]
            },
    )
}

} // verus!
