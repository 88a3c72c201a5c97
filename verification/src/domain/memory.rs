//! Memory model: addresses, words, cores, store-buffer entries and the
//! configuration of a simulated weak-memory system.

use vstd::prelude::*;
use crate::text::{decimal, format_decimal, format_digits, hex};

verus! {

/// Memory address.
#[derive(Debug, Clone, Copy, PartialEq, Eq, Structural, Hash, PartialOrd, Ord)]
pub struct Address(pub usize);

impl Address {
    /// The address as displayed: `0x` and its lower-case hexadecimal digits.
    pub open spec fn display(self) -> Seq<char> {
        "0x"@ + hex(self.0 as nat)
    }

    /// Wraps a raw address index.
    pub fn new(addr: usize) -> (r: Self)
        ensures
            r.0 == addr,
    {
        Address(addr)
    }

    /// The raw address index.
    pub fn as_usize(self) -> (r: usize)
        ensures
            r == self.0,
    {
        self.0
    }

    /// Renders the address as `0x<hex>`.
    pub fn to_display_string(&self) -> (r: String)
        ensures
            r@ == self.display(),
    {
        String::from_str("0x").concat(format_digits(self.0 as u64, 16).as_str())
    }
}

impl From<usize> for Address {
    fn from(v: usize) -> (r: Self) {
        Address(v)
    }
}

impl vstd::std_specs::convert::FromSpecImpl<usize> for Address {
    open spec fn obeys_from_spec() -> bool {
        true
    }

    open spec fn from_spec(v: usize) -> Self {
        Address(v)
    }
}

/// Memory value: a 64-bit word.
#[derive(Debug, Clone, Copy, PartialEq, Eq, Structural, Hash, PartialOrd, Ord)]
pub struct Value(pub u64);

impl Value {
    /// The value as displayed: its decimal digits.
    pub open spec fn display(self) -> Seq<char> {
        decimal(self.0 as nat)
    }

    /// Wraps a raw word.
    pub fn new(val: u64) -> (r: Self)
        ensures
            r.0 == val,
    {
        Value(val)
    }

    /// The raw word.
    pub fn as_u64(self) -> (r: u64)
        ensures
            r == self.0,
    {
        self.0
    }

    /// Renders the value in decimal.
    pub fn to_display_string(&self) -> (r: String)
        ensures
            r@ == self.display(),
    {
        format_decimal(self.0)
    }
}

impl From<u64> for Value {
    fn from(v: u64) -> (r: Self) {
        Value(v)
    }
}

impl vstd::std_specs::convert::FromSpecImpl<u64> for Value {
    open spec fn obeys_from_spec() -> bool {
        true
    }

    open spec fn from_spec(v: u64) -> Self {
        Value(v)
    }
}

/// CPU core identifier; each core owns a store buffer.
#[derive(Debug, Clone, Copy, PartialEq, Eq, Structural, Hash, PartialOrd, Ord)]
pub struct CoreId(pub usize);

impl CoreId {
    /// The core as displayed: `Core(<index>)`.
    pub open spec fn display(self) -> Seq<char> {
        "Core("@ + decimal(self.0 as nat) + ")"@
    }

    /// Wraps a zero-based core index.
    pub fn new(id: usize) -> (r: Self)
        ensures
            r.0 == id,
    {
        CoreId(id)
    }

    /// The raw core index.
    pub fn as_usize(self) -> (r: usize)
        ensures
            r == self.0,
    {
        self.0
    }

    /// Renders the core as `Core(<index>)`.
    pub fn to_display_string(&self) -> (r: String)
        ensures
            r@ == self.display(),
    {
        String::from_str("Core(").concat(format_decimal(self.0 as u64).as_str()).concat(")")
    }
}

impl From<usize> for CoreId {
    fn from(v: usize) -> (r: Self) {
        CoreId(v)
    }
}

impl vstd::std_specs::convert::FromSpecImpl<usize> for CoreId {
    open spec fn obeys_from_spec() -> bool {
        true
    }

    open spec fn from_spec(v: usize) -> Self {
        CoreId(v)
    }
}

/// A pending write in a core's store buffer.
#[derive(Debug, Clone, Copy, PartialEq, Eq, Structural)]
pub struct StoreEntry {
    /// Target address of the pending write.
    pub addr: Address,
    /// Value to be written when the entry is drained.
    pub val: Value,
}

impl StoreEntry {
    /// Creates a store-buffer entry.
    pub fn new(addr: Address, val: Value) -> (r: Self)
        ensures
            r == (StoreEntry { addr, val }),
    {
        StoreEntry { addr, val }
    }
}

/// A single memory access: read, buffered write, or fence.
#[derive(Debug, Clone, Copy, PartialEq, Eq, Structural)]
pub enum MemoryOp {
    /// Read from an address, forwarding from the core's own store buffer.
    Read {
        /// Core performing the read.
        core: CoreId,
        /// Address read.
        addr: Address,
    },
    /// Write placed in the core's store buffer.
    Write {
        /// Core performing the write.
        core: CoreId,
        /// Address written.
        addr: Address,
        /// Value written.
        val: Value,
    },
    /// Fence: the core's store buffer is drained to main memory.
    Fence {
        /// Core issuing the fence.
        core: CoreId,
    },
}

impl MemoryOp {
    /// The operation as displayed.
    pub open spec fn display(self) -> Seq<char> {
        match self {
            MemoryOp::Read { core, addr } =>
                "Read(core="@ + core.display() + ", addr="@ + addr.display() + ")"@,
            MemoryOp::Write { core, addr, val } =>
                "Write(core="@ + core.display() + ", addr="@ + addr.display() + ", val="@
                    + val.display() + ")"@,
            MemoryOp::Fence { core } => "Fence(core="@ + core.display() + ")"@,
        }
    }

    /// Renders the operation, e.g. `Write(core=Core(0), addr=0x10, val=7)`.
    pub fn to_display_string(&self) -> (r: String)
        ensures
            r@ == self.display(),
    {
        match self {
            MemoryOp::Read { core, addr } => String::from_str("Read(core=")
                .concat(core.to_display_string().as_str())
                .concat(", addr=")
                .concat(addr.to_display_string().as_str())
                .concat(")"),
            MemoryOp::Write { core, addr, val } => String::from_str("Write(core=")
                .concat(core.to_display_string().as_str())
                .concat(", addr=")
                .concat(addr.to_display_string().as_str())
                .concat(", val=")
                .concat(val.to_display_string().as_str())
                .concat(")"),
            MemoryOp::Fence { core } => String::from_str("Fence(core=")
                .concat(core.to_display_string().as_str())
                .concat(")"),
        }
    }
}

/// Memory consistency model governing when buffered writes become visible.
#[derive(Debug, Clone, Copy, PartialEq, Eq, Structural)]
pub enum ConsistencyModel {
    /// No reordering: writes are immediately visible.
    SequentiallyConsistent,
    /// Writes are buffered and may be delayed (weak memory architectures).
    Relaxed,
}

/// Shape of a simulated memory system.
#[derive(Debug, Clone, PartialEq, Eq, Structural)]
pub struct MemoryConfig {
    /// Number of CPU cores.
    pub num_cores: usize,
    /// Maximum store-buffer entries per core.
    pub max_buffer_size: usize,
    /// The consistency model simulated.
    pub consistency_model: ConsistencyModel,
    /// Initial addressable memory size.
    pub initial_size: usize,
}

impl Default for MemoryConfig {
    /// Two cores, two buffer entries each, relaxed consistency, 1024 addresses.
    fn default() -> (r: Self)
        ensures
            r == (MemoryConfig {
                num_cores: 2,
                max_buffer_size: 2,
                consistency_model: ConsistencyModel::Relaxed,
                initial_size: 1024,
            }),
    {
        MemoryConfig {
            num_cores: 2,
            max_buffer_size: 2,
            consistency_model: ConsistencyModel::Relaxed,
            initial_size: 1024,
        }
    }
}

/// Memory state of a simulated machine: main memory and one FIFO store buffer per core.
pub trait MemoryBackend {
    /// The value in main memory at `addr` (zero if never written), bypassing store buffers.
    fn read_main(&self, addr: Address) -> Value;

    /// Writes `val` to main memory at `addr`, visible to all cores at once.
    fn write_main(&mut self, addr: Address, val: Value);

    /// Whether `core`'s store buffer holds no pending write.
    fn is_buffer_empty(&self, core: CoreId) -> bool;

    /// Number of pending writes in `core`'s store buffer.
    fn buffer_len(&self, core: CoreId) -> usize;

    /// Appends `entry` to `core`'s store buffer; fails when it is full or `core` is out of range.
    fn buffer_push(&mut self, core: CoreId, entry: StoreEntry) -> Result<(), &'static str>;

    /// Removes and returns the oldest entry of `core`'s store buffer.
    fn buffer_pop(&mut self, core: CoreId) -> Option<StoreEntry>;

    /// The most recent pending write to `addr` in `core`'s store buffer.
    fn buffer_lookup(&self, core: CoreId, addr: Address) -> Option<Value>;

    /// Empties every store buffer and zeroes main memory.
    fn clear_all(&mut self);

    /// Number of cores the backend was configured for.
    fn num_cores(&self) -> usize;

    /// Store-buffer capacity per core.
    fn max_buffer_size(&self) -> usize;
}

/// A memory backend that can be built for a given number of cores and buffer capacity.
pub trait ConfigurableBackend: MemoryBackend + Sized {
    /// A backend for `num_cores` cores with store buffers of `max_buffer_size` entries.
    fn with_config(num_cores: usize, max_buffer_size: usize) -> Self;
}

} // verus!
