use vstd::prelude::*;

verus! {

/// The little-endian 16-bit word made of `lo` and `hi`.
pub open spec fn word(lo: u8, hi: u8) -> u16 {
    (hi as int * 256 + lo as int) as u16
}

/// `a + k` in the 16-bit address space, which wraps around.
pub open spec fn add16(a: u16, k: int) -> u16 {
    ((a as int + k) % 0x10000) as u16
}

/// The address that follows `a` in the 16-bit address space.
pub open spec fn next_addr(a: u16) -> u16 {
    add16(a, 1)
}

/// The memory and I/O collaborator of the processor.
///
/// Memory is modelled as a map from 16-bit addresses to bytes and the
/// elapsed time as a count of T-states. Port I/O lives in its own address
/// space: it neither touches memory nor advances the clock by itself.
pub trait Bus {
    /// The byte stored at each address.
    spec fn memory(&self) -> Map<u16, u8>;

    /// T-states reported through `tick` so far.
    spec fn clock(&self) -> int;

    /// The (port, byte) pairs written through `port_write` so far, oldest first.
    spec fn outputs(&self) -> Seq<(u8, u8)>;

    fn memory_read(&self, address: u16) -> (r: u8)
        ensures
            r == self.memory()[address],
    ;

    fn memory_read_word(&self, address: u16) -> (r: u16)
        ensures
            r == word(self.memory()[address], self.memory()[next_addr(address)]),
    ;

    fn memory_write(&mut self, address: u16, value: u8)
        ensures
            final(self).memory() == old(self).memory().insert(address, value),
            final(self).clock() == old(self).clock(),
            final(self).outputs() == old(self).outputs(),
    ;

    fn memory_write_word(&mut self, address: u16, value: u16)
        ensures
            final(self).memory() == old(self).memory().insert(address, (value % 256) as u8).insert(
                next_addr(address),
                (value / 256) as u8,
            ),
            final(self).clock() == old(self).clock(),
            final(self).outputs() == old(self).outputs(),
    ;

    fn port_read(&mut self, port: u8) -> (r: u8)
        ensures
            final(self).memory() == old(self).memory(),
            final(self).clock() == old(self).clock(),
            final(self).outputs() == old(self).outputs(),
    ;

    fn port_write(&mut self, port: u8, value: u8)
        ensures
            final(self).memory() == old(self).memory(),
            final(self).clock() == old(self).clock(),
            final(self).outputs() == old(self).outputs().push((port, value)),
    ;

    fn tick(&mut self, machine_cycles: u8, t_states: u8)
        ensures
            final(self).memory() == old(self).memory(),
            final(self).clock() == old(self).clock() + t_states,
            final(self).outputs() == old(self).outputs(),
    ;
}

/// Grows `v` with zeros until it holds index `i`.
fn reach(v: &mut Vec<u8>, i: usize)
    ensures
        final(v)@.len() > i,
        final(v)@.len() >= old(v)@.len(),
        forall|j: int| 0 <= j < old(v)@.len() ==> final(v)@[j] == old(v)@[j],
        forall|j: int| old(v)@.len() <= j < final(v)@.len() ==> final(v)@[j] == 0,
{
    while v.len() <= i
        invariant
            v@.len() >= old(v)@.len(),
            forall|j: int| 0 <= j < old(v)@.len() ==> v@[j] == old(v)@[j],
            forall|j: int| old(v)@.len() <= j < v@.len() ==> v@[j] == 0,
        decreases i + 1 - v@.len(),
    {
        v.push(0);
    }
}

/// The byte at index `i` of `v`, zero past its end.
pub open spec fn byte_or_zero(v: Seq<u8>, i: int) -> u8 {
    if 0 <= i < v.len() {
        v[i]
    } else {
        0
    }
}

/// A bus of 64 KiB of RAM and 256 output port latches.
///
/// Port reads return a fixed input byte; each port write is kept in its
/// latch and appended to a log. The cycle counters wrap; the model clock
/// does not.
pub struct FlatBus {
    ram: Vec<u8>,
    ports: Vec<u8>,
    log: Vec<(u8, u8)>,
    port_input: u8,
    m_cycles: u64,
    t_states: u64,
    elapsed: Ghost<int>,
}

impl FlatBus {
    /// The byte at each address of RAM.
    pub closed spec fn ram_view(self) -> Map<u16, u8> {
        Map::new(|a: u16| true, |a: u16| byte_or_zero(self.ram@, a as int))
    }

    /// A bus whose RAM starts with `program` (cut at 64 KiB) followed by zeros,
    /// with all latches zero and port reads yielding 0xff.
    pub fn new(program: &Vec<u8>) -> (r: FlatBus)
        ensures
            forall|a: u16| (a as int) < program@.len() ==> #[trigger] r.memory()[a] == program@[a as int],
            forall|a: u16| (a as int) >= program@.len() ==> #[trigger] r.memory()[a] == 0,
            r.clock() == 0,
            r.outputs().len() == 0,
    {
        let mut ram: Vec<u8> = Vec::new();
        let mut i: usize = 0;
        while i < 0x10000
            invariant
                i <= 0x10000,
                ram@.len() == i,
                forall|j: int| 0 <= j < i && j < program@.len() ==> ram@[j] == program@[j],
                forall|j: int| 0 <= j < i && j >= program@.len() ==> ram@[j] == 0,
            decreases 0x10000 - i,
        {
            if i < program.len() {
                ram.push(program[i]);
            } else {
                ram.push(0);
            }
            i = i + 1;
        }
        let mut ports: Vec<u8> = Vec::new();
        reach(&mut ports, 0xff);
        FlatBus {
            ram,
            ports,
            log: Vec::new(),
            port_input: 0xff,
            m_cycles: 0,
            t_states: 0,
            elapsed: Ghost(0),
        }
    }

    /// Sets the byte that port reads return.
    pub fn set_port_input(&mut self, value: u8)
        ensures
            final(self).memory() == old(self).memory(),
            final(self).clock() == old(self).clock(),
            final(self).outputs() == old(self).outputs(),
    {
        self.port_input = value;
    }

    /// The last byte written to `port`.
    pub fn port_value(&self, port: u8) -> u8 {
        if (port as usize) < self.ports.len() {
            self.ports[port as usize]
        } else {
            0
        }
    }

    /// Every port write so far, as (port, byte), oldest first.
    pub fn port_writes(&self) -> (r: &Vec<(u8, u8)>)
        ensures
            r@ == self.outputs(),
    {
        &self.log
    }

    /// Machine cycles reported so far, modulo 2^64.
    pub fn m_cycles(&self) -> u64 {
        self.m_cycles
    }

    /// T-states reported so far, modulo 2^64.
    pub fn t_states(&self) -> u64 {
        self.t_states
    }

    /// Stores `value` at `address`.
    fn store(&mut self, address: u16, value: u8)
        ensures
            final(self).ram_view() == old(self).ram_view().insert(address, value),
            final(self).elapsed == old(self).elapsed,
            final(self).log == old(self).log,
    {
        reach(&mut self.ram, address as usize);
        self.ram.set(address as usize, value);
        assert(self.ram_view() =~= old(self).ram_view().insert(address, value));
    }

    /// The byte at `address`.
    fn load(&self, address: u16) -> (r: u8)
        ensures
            r == self.ram_view()[address],
    {
        if (address as usize) < self.ram.len() {
            self.ram[address as usize]
        } else {
            0
        }
    }
}

impl Bus for FlatBus {
    closed spec fn memory(&self) -> Map<u16, u8> {
        self.ram_view()
    }

    closed spec fn clock(&self) -> int {
        self.elapsed@
    }

    closed spec fn outputs(&self) -> Seq<(u8, u8)> {
        self.log@
    }

    fn memory_read(&self, address: u16) -> (r: u8) {
        self.load(address)
    }

    fn memory_read_word(&self, address: u16) -> (r: u16) {
        let lo = self.load(address);
        let next: u16 = if address == 0xffff {
            0
        } else {
            address + 1
        };
        let hi = self.load(next);
        (hi as u16) * 256 + (lo as u16)
    }

    fn memory_write(&mut self, address: u16, value: u8) {
        self.store(address, value);
    }

    fn memory_write_word(&mut self, address: u16, value: u16) {
        let next: u16 = if address == 0xffff {
            0
        } else {
            address + 1
        };
        self.store(address, (value % 256) as u8);
        self.store(next, (value / 256) as u8);
    }

    fn port_read(&mut self, port: u8) -> (r: u8) {
        self.port_input
    }

    fn port_write(&mut self, port: u8, value: u8) {
        reach(&mut self.ports, port as usize);
        self.ports.set(port as usize, value);
        self.log.push((port, value));
    }

    fn tick(&mut self, machine_cycles: u8, t_states: u8) {
        self.m_cycles = self.m_cycles.wrapping_add(machine_cycles as u64);
        self.t_states = self.t_states.wrapping_add(t_states as u64);
        self.elapsed = Ghost(self.elapsed@ + t_states);
    }
}

} // verus!
