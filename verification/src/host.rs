//! The host-capability interface, the set-once registration state, and the
//! callback shims.
//!
//! The interpreter depends entirely on a set of primitive operations supplied
//! by its embedding environment: memory management, firmware-table lookup,
//! port and PCI configuration-space I/O, physical-memory mapping, timing and
//! logging.  [`Host`] is that contract; the embedding kernel implements it
//! once and registers the implementation in a [`Lai`] context before any
//! interpreter entry point is reached.
//!
//! Each `laihost_*` method is the verified core of one foreign callback: the
//! embedding layer receives the native call, turns raw pointers into plain
//! values, and forwards here; the shim retrieves the registered host and
//! performs the one matching capability call.  Pointers that merely cross
//! this boundary are carried as plain addresses, with 0 standing for the
//! native null.

use vstd::prelude::*;

use crate::Lai;

verus! {

/// Severity of a message the interpreter asks the host to log.
#[derive(Clone, Copy, Debug, PartialEq, Eq, Structural)]
pub enum LogLevel {
    Debug,
    Warn,
}

/// Native encoding of [`LogLevel::Debug`].
pub const LAI_DEBUG_LOG: i32 = 1;

/// Native encoding of [`LogLevel::Warn`].
pub const LAI_WARN_LOG: i32 = 2;

/// Decodes a native log severity.  Total: the two known levels decode to
/// their variant, everything else to `None` — an unknown severity is a
/// defect of the caller, to be reported, not silently dropped.
pub fn log_level_from_native(level: i32) -> (r: Option<LogLevel>)
    ensures
        level == LAI_DEBUG_LOG ==> r == Some(LogLevel::Debug),
        level == LAI_WARN_LOG ==> r == Some(LogLevel::Warn),
        r is None <==> level != LAI_DEBUG_LOG && level != LAI_WARN_LOG,
{
    if level == LAI_DEBUG_LOG {
        Some(LogLevel::Debug)
    } else if level == LAI_WARN_LOG {
        Some(LogLevel::Warn)
    } else {
        None
    }
}

/// Every primitive the interpreter may require from its environment.
///
/// The embedding kernel supplies one implementation for the lifetime of the
/// process.  Pointers cross this interface as plain addresses (0 for null):
/// the implementation owns the unsafe work of honoring them.  Nothing is
/// promised here of any operation — what an implementation returns is its
/// own affair, and the verified code around this trait states only what
/// holds whatever comes back.
pub trait Host {
    /// Returns the address of the `index`th firmware table (0-indexed) with
    /// the given four-character signature, or 0 when there is none — a valid
    /// "not found" answer, not an error.
    fn scan(&self, signature: &str, index: usize) -> usize;

    /// Blocks the calling context for the given number of milliseconds.
    fn sleep(&self, ms: u64);

    fn outb(&self, port: u16, value: u8);

    fn outw(&self, port: u16, value: u16);

    fn outd(&self, port: u16, value: u32);

    fn inb(&self, port: u16) -> u8;

    fn inw(&self, port: u16) -> u16;

    fn ind(&self, port: u16) -> u32;

    fn pci_writeb(&self, seg: u16, bus: u8, slot: u8, fun: u8, offset: u16, value: u8);

    fn pci_writew(&self, seg: u16, bus: u8, slot: u8, fun: u8, offset: u16, value: u16);

    fn pci_writed(&self, seg: u16, bus: u8, slot: u8, fun: u8, offset: u16, value: u32);

    fn pci_readb(&self, seg: u16, bus: u8, slot: u8, fun: u8, offset: u16) -> u8;

    fn pci_readw(&self, seg: u16, bus: u8, slot: u8, fun: u8, offset: u16) -> u16;

    fn pci_readd(&self, seg: u16, bus: u8, slot: u8, fun: u8, offset: u16) -> u32;

    /// Maps `count` bytes of physical memory starting at `address` and
    /// returns an address through which they can be accessed.
    fn map(&self, address: usize, count: usize) -> usize;

    /// Undoes a mapping made with the same `address` and `count` pair.
    fn unmap(&self, address: usize, count: usize);

    /// Reads a monotonic counter; its resolution is the host's affair.
    fn timer(&self) -> u64;

    /// Records a message at the given severity.
    fn log(&self, level: LogLevel, message: &str);

    /// Returns the address of `size` bytes of zeroed, 16-byte-aligned
    /// memory owned by the caller.
    fn allocate(&self, size: usize) -> usize;

    /// Releases memory obtained from [`Host::allocate`]; `size` must be the
    /// byte count given at allocation.
    fn deallocate(&self, ptr: usize, size: usize);

    /// Resizes an allocation from `old_size` to `new_size` bytes and
    /// returns its new address.
    fn reallocate(&self, ptr: usize, new_size: usize, old_size: usize) -> usize;
}

/// The capability call a native reallocation request stands for.
///
/// The interpreter's reallocation callback is documented to accept a null
/// pointer (meaning "allocate fresh") and a zero new size (meaning "free and
/// answer null") — both undefined behavior for a general-purpose reallocate.
/// The shim therefore dispatches on this decision rather than passing the
/// arguments through.
#[derive(Clone, Copy, Debug, PartialEq, Eq, Structural)]
pub enum ReallocAction {
    /// Null pointer: allocate `new_size` fresh bytes.
    Allocate,
    /// Zero new size: free the old allocation and answer null.
    Free,
    /// The remaining case: a true reallocation.
    Reallocate,
}

/// The dispatch rule of the reallocation shim.
pub open spec fn realloc_action(ptr: usize, new_size: usize) -> ReallocAction {
    if ptr == 0 {
        ReallocAction::Allocate
    } else if new_size == 0 {
        ReallocAction::Free
    } else {
        ReallocAction::Reallocate
    }
}

/// The reallocation policy, spelled out: a null pointer always allocates, a
/// live pointer with zero new size always frees, and only a live pointer
/// with a positive new size reaches the real reallocate.
pub proof fn lemma_realloc_policy(ptr: usize, new_size: usize)
    ensures
        ptr == 0 ==> realloc_action(ptr, new_size) == ReallocAction::Allocate,
        ptr != 0 && new_size == 0 ==> realloc_action(ptr, new_size) == ReallocAction::Free,
        ptr != 0 && new_size != 0 ==> realloc_action(ptr, new_size) == ReallocAction::Reallocate,
{
}

impl<H: Host> Lai<H> {
    /// Registers the host implementation.  This may happen exactly once in
    /// the lifetime of the context: registering twice is a programming
    /// error, excluded here by precondition — an unverified caller must go
    /// through [`Lai::try_init`], which refuses a second registration, and
    /// abort on refusal rather than proceed.
    pub fn init(&mut self, host: H)
        requires
            !old(self).initialized(),
        ensures
            final(self).initialized(),
            final(self).host_spec() == Some(host),
            final(self).revision_spec() == old(self).revision_spec(),
            final(self).namespace_created() == old(self).namespace_created(),
            final(self).acpi_enabled() == old(self).acpi_enabled(),
            final(self).pic_mode_spec() == old(self).pic_mode_spec(),
    {
        let registered = self.try_init(host);
        proof {
            assert(registered);
        }
    }

    /// Registers the host implementation unless one is already registered.
    /// A second registration fails and changes nothing, whatever host it
    /// carries — even one equal to the registered one.
    pub fn try_init(&mut self, host: H) -> (registered: bool)
        ensures
            old(self).initialized() ==> !registered && *final(self) == *old(self),
            !old(self).initialized() ==> registered && final(self).initialized()
                && final(self).host_spec() == Some(host)
                && final(self).revision_spec() == old(self).revision_spec()
                && final(self).namespace_created() == old(self).namespace_created()
                && final(self).acpi_enabled() == old(self).acpi_enabled()
                && final(self).pic_mode_spec() == old(self).pic_mode_spec(),
    {
        if self.host.is_some() {
            false
        } else {
            self.host = Some(host);
            true
        }
    }

    /// The registered host.  Reaching for it before registration is a fatal
    /// precondition violation, excluded here; an unverified caller must test
    /// [`Lai::is_initialized`] first and abort on failure rather than
    /// proceed with a default.
    pub fn get_laihost(&self) -> (host: &H)
        requires
            self.initialized(),
        ensures
            self.host_spec() == Some(*host),
    {
        self.host.as_ref().unwrap()
    }

    /// Whether a host implementation has been registered.
    pub fn is_initialized(&self) -> (r: bool)
        ensures
            r == self.initialized(),
    {
        self.host.is_some()
    }

    /// Log callback: decodes the native severity and forwards the message.
    /// Only the two known severities are defined; any other value is a
    /// defect of the interpreter, excluded by precondition — an unverified
    /// caller must decode through [`log_level_from_native`] first and treat
    /// `None` as unreachable.
    pub fn laihost_log(&self, level: i32, message: &str)
        requires
            self.initialized(),
            level == LAI_DEBUG_LOG || level == LAI_WARN_LOG,
    {
        let decoded = log_level_from_native(level);
        self.get_laihost().log(decoded.unwrap(), message);
    }

    /// Allocation callback: forwards to the host allocator.
    pub fn laihost_malloc(&self, size: usize) -> (ptr: usize)
        requires
            self.initialized(),
    {
        self.get_laihost().allocate(size)
    }

    /// Deallocation callback: forwards to the host allocator.
    pub fn laihost_free(&self, ptr: usize, size: usize)
        requires
            self.initialized(),
    {
        self.get_laihost().deallocate(ptr, size)
    }

    /// Reallocation callback.  The native contract allows a null pointer
    /// ("allocate fresh") and a zero new size ("free and answer null");
    /// both would be undefined behavior for the host's reallocate, so each
    /// is routed to the capability [`realloc_action`] names, and only the
    /// remaining case reaches the real reallocate — a deliberate deviation
    /// from a naive pass-through.
    pub fn laihost_realloc(&self, ptr: usize, new_size: usize, old_size: usize) -> (r: usize)
        requires
            self.initialized(),
        ensures
            realloc_action(ptr, new_size) == ReallocAction::Free ==> r == 0,
    {
        if ptr == 0 {
            self.get_laihost().allocate(new_size)
        } else if new_size == 0 {
            self.get_laihost().deallocate(ptr, old_size);
            0
        } else {
            self.get_laihost().reallocate(ptr, new_size, old_size)
        }
    }

    /// Firmware-table scan callback: forwards signature and occurrence
    /// index.  An answer of 0 is the valid "no such table" result.
    pub fn laihost_scan(&self, signature: &str, index: usize) -> (table: usize)
        requires
            self.initialized(),
    {
        self.get_laihost().scan(signature, index)
    }

    /// Port output callback, byte width.
    pub fn laihost_outb(&self, port: u16, value: u8)
        requires
            self.initialized(),
    {
        self.get_laihost().outb(port, value)
    }

    /// Port output callback, word width.
    pub fn laihost_outw(&self, port: u16, value: u16)
        requires
            self.initialized(),
    {
        self.get_laihost().outw(port, value)
    }

    /// Port output callback, doubleword width.
    pub fn laihost_outd(&self, port: u16, value: u32)
        requires
            self.initialized(),
    {
        self.get_laihost().outd(port, value)
    }

    /// Port input callback, byte width.
    pub fn laihost_inb(&self, port: u16) -> (value: u8)
        requires
            self.initialized(),
    {
        self.get_laihost().inb(port)
    }

    /// Port input callback, word width.
    pub fn laihost_inw(&self, port: u16) -> (value: u16)
        requires
            self.initialized(),
    {
        self.get_laihost().inw(port)
    }

    /// Port input callback, doubleword width.
    pub fn laihost_ind(&self, port: u16) -> (value: u32)
        requires
            self.initialized(),
    {
        self.get_laihost().ind(port)
    }

    /// Sleep callback: blocks for the given number of milliseconds.
    pub fn laihost_sleep(&self, ms: u64)
        requires
            self.initialized(),
    {
        self.get_laihost().sleep(ms)
    }

    /// PCI configuration-space read callback, byte width.
    pub fn laihost_pci_readb(&self, seg: u16, bus: u8, slot: u8, fun: u8, offset: u16) -> (value:
        u8)
        requires
            self.initialized(),
    {
        self.get_laihost().pci_readb(seg, bus, slot, fun, offset)
    }

    /// PCI configuration-space read callback, word width.
    pub fn laihost_pci_readw(&self, seg: u16, bus: u8, slot: u8, fun: u8, offset: u16) -> (value:
        u16)
        requires
            self.initialized(),
    {
        self.get_laihost().pci_readw(seg, bus, slot, fun, offset)
    }

    /// PCI configuration-space read callback, doubleword width.
    pub fn laihost_pci_readd(&self, seg: u16, bus: u8, slot: u8, fun: u8, offset: u16) -> (value:
        u32)
        requires
            self.initialized(),
    {
        self.get_laihost().pci_readd(seg, bus, slot, fun, offset)
    }

    /// PCI configuration-space write callback, byte width.
    pub fn laihost_pci_writeb(&self, seg: u16, bus: u8, slot: u8, fun: u8, offset: u16, value: u8)
        requires
            self.initialized(),
    {
        self.get_laihost().pci_writeb(seg, bus, slot, fun, offset, value)
    }

    /// PCI configuration-space write callback, word width.
    pub fn laihost_pci_writew(&self, seg: u16, bus: u8, slot: u8, fun: u8, offset: u16, value: u16)
        requires
            self.initialized(),
    {
        self.get_laihost().pci_writew(seg, bus, slot, fun, offset, value)
    }

    /// PCI configuration-space write callback, doubleword width.
    pub fn laihost_pci_writed(&self, seg: u16, bus: u8, slot: u8, fun: u8, offset: u16, value: u32)
        requires
            self.initialized(),
    {
        self.get_laihost().pci_writed(seg, bus, slot, fun, offset, value)
    }

    /// Physical-memory map callback.
    pub fn laihost_map(&self, address: usize, count: usize) -> (mapped: usize)
        requires
            self.initialized(),
    {
        self.get_laihost().map(address, count)
    }

    /// Physical-memory unmap callback.
    pub fn laihost_unmap(&self, address: usize, count: usize)
        requires
            self.initialized(),
    {
        self.get_laihost().unmap(address, count)
    }

    /// Monotonic timer callback.
    pub fn laihost_timer(&self) -> (ticks: u64)
        requires
            self.initialized(),
    {
        self.get_laihost().timer()
    }
}

} // verus!
