//! Host-capability bridge for an embedded ACPI bytecode interpreter.
//!
//! The interpreter itself is an opaque external component: it parses and
//! executes ACPI bytecode, but it cannot allocate memory, perform I/O or read
//! firmware tables on its own.  Everything it needs from its environment goes
//! through a fixed set of primitive callbacks, and everything the embedding
//! kernel asks of it goes through a small set of entry points.  This crate
//! holds the verified side of that boundary:
//!
//! - null-terminated byte-string marshaling ([`helper`]),
//! - the capability interface and the set-once registration state with the
//!   callback shims ([`host`]),
//! - the System Control Interrupt event bit-set ([`sci`]),
//! - the native status-code translation and the entry-point completions
//!   (this module).
//!
//! The embedding layer owns the raw-pointer and foreign-call plumbing; it
//! hands this crate plain values and performs the native calls, feeding each
//! returned status code into the matching completion here.

use vstd::prelude::*;

pub mod helper;
pub mod host;
pub mod sci;

pub use host::Host;
pub use host::LogLevel;
pub use host::ReallocAction;
pub use sci::SciEvent;

verus! {

/// The interpreter's native result codes, as a closed enumeration.
///
/// The native side signals results as small integers; code 0 means success
/// and is represented by `Ok(())` at this boundary, so it has no variant
/// here.  The mapping to the native codes is [`error_code`], its inverse is
/// [`error_from_code`], and both are total and exhaustive: an unrecognized
/// native code translates to no variant at all, never silently to success.
#[derive(Clone, Copy, Debug, PartialEq, Eq, Structural)]
pub enum Error {
    OutOfMemory,
    TypeMismatch,
    NoSuchNode,
    OutOfBounds,
    ExecutionFailure,
    IllegalArguments,
    /// Evaluating external inputs (e.g., nodes of the ACPI namespace)
    /// returned an unexpected result: the resulting object fails to satisfy
    /// some expectation (wrong type, unexpected size or contents), as
    /// opposed to execution itself failing.
    UnexpectedResult,
    /// Reported when the end of an iteration is reached; not a fault.
    EndReached,
    Unsupported,
}

/// The native integer code of each error variant.
pub open spec fn error_code(e: Error) -> u32 {
    match e {
        Error::OutOfMemory => 1,
        Error::TypeMismatch => 2,
        Error::NoSuchNode => 3,
        Error::OutOfBounds => 4,
        Error::ExecutionFailure => 5,
        Error::IllegalArguments => 6,
        Error::UnexpectedResult => 7,
        Error::EndReached => 8,
        Error::Unsupported => 9,
    }
}

/// The error variant denoted by a native code, if any: codes 1 through 9
/// denote errors, code 0 means success, and every other code is undefined.
pub open spec fn error_from_code(code: u32) -> Option<Error> {
    if code == 1 {
        Some(Error::OutOfMemory)
    } else if code == 2 {
        Some(Error::TypeMismatch)
    } else if code == 3 {
        Some(Error::NoSuchNode)
    } else if code == 4 {
        Some(Error::OutOfBounds)
    } else if code == 5 {
        Some(Error::ExecutionFailure)
    } else if code == 6 {
        Some(Error::IllegalArguments)
    } else if code == 7 {
        Some(Error::UnexpectedResult)
    } else if code == 8 {
        Some(Error::EndReached)
    } else if code == 9 {
        Some(Error::Unsupported)
    } else {
        None
    }
}

/// Whether a native status code is one the interpreter defines: 0 for
/// success, or one of the nine error codes.
pub open spec fn status_defined(status: u32) -> bool {
    status <= 9
}

/// Encodes an error variant as its native integer code.
pub fn error_to_native(e: Error) -> (code: u32)
    ensures
        code == error_code(e),
{
    match e {
        Error::OutOfMemory => 1,
        Error::TypeMismatch => 2,
        Error::NoSuchNode => 3,
        Error::OutOfBounds => 4,
        Error::ExecutionFailure => 5,
        Error::IllegalArguments => 6,
        Error::UnexpectedResult => 7,
        Error::EndReached => 8,
        Error::Unsupported => 9,
    }
}

/// Decodes a native integer code into an error variant.  Total: an
/// undefined code — including 0, which is not an error — yields `None`
/// rather than being coerced into any variant.
pub fn error_from_native(code: u32) -> (r: Option<Error>)
    ensures
        r == error_from_code(code),
        r is Some <==> 1 <= code <= 9,
        r matches Some(e) ==> error_code(e) == code,
{
    if code == 1 {
        Some(Error::OutOfMemory)
    } else if code == 2 {
        Some(Error::TypeMismatch)
    } else if code == 3 {
        Some(Error::NoSuchNode)
    } else if code == 4 {
        Some(Error::OutOfBounds)
    } else if code == 5 {
        Some(Error::ExecutionFailure)
    } else if code == 6 {
        Some(Error::IllegalArguments)
    } else if code == 7 {
        Some(Error::UnexpectedResult)
    } else if code == 8 {
        Some(Error::EndReached)
    } else if code == 9 {
        Some(Error::Unsupported)
    } else {
        None
    }
}

/// Translates a defined native status code into a result: success exactly
/// for code 0, and the matching error variant for each of the nine error
/// codes.  Undefined codes are a contract violation by the interpreter and
/// are excluded here; an unverified caller must test [`status_defined`]
/// first and treat a failure as fatal.
pub fn lai_call(status: u32) -> (r: Result<(), Error>)
    requires
        status_defined(status),
    ensures
        r is Ok <==> status == 0,
        r matches Err(e) ==> error_code(e) == status && error_from_code(status) == Some(e),
{
    if status == 0 {
        Ok(())
    } else {
        Err(error_from_native(status).unwrap())
    }
}

/// The error-code translation is total, exhaustive and invertible: every
/// variant round-trips through its native code, every defined error code
/// round-trips through its variant, and an undefined code denotes nothing —
/// in particular it can never be mistaken for success.
pub proof fn lemma_error_translation_invertible()
    ensures
        forall|e: Error| #[trigger] error_from_code(error_code(e)) == Some(e),
        forall|c: u32| (#[trigger] error_from_code(c)) matches Some(e) ==> error_code(e) == c,
        forall|c: u32| #[trigger] error_from_code(c) is Some <==> 1 <= c <= 9,
        forall|c: u32| !status_defined(c) ==> #[trigger] error_from_code(c) is None,
{
    assert forall|e: Error| #[trigger] error_from_code(error_code(e)) == Some(e) by {
        match e {
            Error::OutOfMemory => assert(error_from_code(1) == Some(Error::OutOfMemory)),
            Error::TypeMismatch => assert(error_from_code(2) == Some(Error::TypeMismatch)),
            Error::NoSuchNode => assert(error_from_code(3) == Some(Error::NoSuchNode)),
            Error::OutOfBounds => assert(error_from_code(4) == Some(Error::OutOfBounds)),
            Error::ExecutionFailure => assert(error_from_code(5) == Some(Error::ExecutionFailure)),
            Error::IllegalArguments => assert(error_from_code(6) == Some(Error::IllegalArguments)),
            Error::UnexpectedResult => assert(error_from_code(7) == Some(Error::UnexpectedResult)),
            Error::EndReached => assert(error_from_code(8) == Some(Error::EndReached)),
            Error::Unsupported => assert(error_from_code(9) == Some(Error::Unsupported)),
        }
    }
    assert forall|c: u32| #[trigger] error_from_code(c) is Some <==> 1 <= c <= 9 by {
        if 1 <= c <= 9 {
            assert(error_from_code(c) is Some);
        }
    }
}

/// Interrupt mode handed to the interpreter when ACPI is enabled
/// (ACPI specification, section 5.8.1).
#[derive(Clone, Copy, Debug, PartialEq, Eq, Structural)]
pub enum PICMethod {
    PIC,
    APIC,
    SAPIC,
}

/// The native encoding of an interrupt mode.
pub open spec fn pic_method_code(mode: PICMethod) -> u32 {
    match mode {
        PICMethod::PIC => 0,
        PICMethod::APIC => 1,
        PICMethod::SAPIC => 2,
    }
}

/// Encodes an interrupt mode for the native enable-ACPI call.
pub fn pic_method_to_native(mode: PICMethod) -> (code: u32)
    ensures
        code == pic_method_code(mode),
{
    match mode {
        PICMethod::PIC => 0,
        PICMethod::APIC => 1,
        PICMethod::SAPIC => 2,
    }
}

/// A system sleeping state, S0 through S5.
#[derive(Clone, Copy, Debug, PartialEq, Eq, Structural)]
pub enum SleepState {
    Normal,
    Standby,
    SuspendToRam,
    SuspendToDisk,
    Shutdown,
}

/// The native encoding of a sleeping state: the number of its S-state.
pub open spec fn sleep_state_code(state: SleepState) -> u8 {
    match state {
        SleepState::Normal => 0,
        SleepState::Standby => 1,
        SleepState::SuspendToRam => 3,
        SleepState::SuspendToDisk => 4,
        SleepState::Shutdown => 5,
    }
}

/// Encodes a sleeping state for the native sleep-entry call.
pub fn sleep_state_to_native(state: SleepState) -> (code: u8)
    ensures
        code == sleep_state_code(state),
{
    match state {
        SleepState::Normal => 0,
        SleepState::Standby => 1,
        SleepState::SuspendToRam => 3,
        SleepState::SuspendToDisk => 4,
        SleepState::Shutdown => 5,
    }
}

/// A resource descriptor as the interpreter produces it for PCI interrupt
/// routing: a fixed-layout record of plain fields.  The bridge carries it
/// through by value; ownership transfers fully to the caller on success,
/// and the record means nothing unless the interpreter reported success.
#[derive(Clone, Copy, Debug, PartialEq, Eq, Structural)]
pub struct AcpiResource {
    pub kind: u8,
    pub base: u64,
    pub length: u64,
    pub address_space: u8,
    pub bit_width: u8,
    pub bit_offset: u8,
    pub irq_flags: u8,
}

impl AcpiResource {
    /// An all-zero record, as handed to the interpreter to be populated.
    pub fn empty() -> (r: AcpiResource)
        ensures
            r == (AcpiResource {
                kind: 0,
                base: 0,
                length: 0,
                address_space: 0,
                bit_width: 0,
                bit_offset: 0,
                irq_flags: 0,
            }),
    {
        AcpiResource {
            kind: 0,
            base: 0,
            length: 0,
            address_space: 0,
            bit_width: 0,
            bit_offset: 0,
            irq_flags: 0,
        }
    }
}

/// What namespace creation surfaces for a given answer to the DSDT
/// firmware-table scan: the table's address, or 0 when the host found none.
/// No table means there is no namespace to build — a no-such-node error,
/// not a crash.
pub fn dsdt_scan_outcome(dsdt_table: usize) -> (r: Result<(), Error>)
    ensures
        dsdt_table != 0 <==> r == Ok::<(), Error>(()),
        dsdt_table == 0 <==> r == Err::<(), Error>(Error::NoSuchNode),
{
    if dsdt_table == 0 {
        Err(Error::NoSuchNode)
    } else {
        Ok(())
    }
}

/// One bridge context: the registration slot for the host implementation,
/// and the interpreter-visible state the entry points establish.
///
/// The slot begins empty, is populated exactly once by [`Lai::init`] or
/// [`Lai::try_init`], and never becomes empty again: no method gives the
/// host up.  Every capability-dependent entry point and every callback shim
/// requires the slot to be populated.
pub struct Lai<H> {
    host: Option<H>,
    revision: i32,
    namespace_created: bool,
    acpi_enabled: bool,
    pic_mode: Option<PICMethod>,
}

impl<H> Lai<H> {
    /// Whether a host implementation has been registered.
    pub closed spec fn initialized(&self) -> bool {
        self.host is Some
    }

    /// The registered host implementation, if any.
    pub closed spec fn host_spec(&self) -> Option<H> {
        self.host
    }

    /// The ACPI revision last set, 0 before any was.
    pub closed spec fn revision_spec(&self) -> i32 {
        self.revision
    }

    /// Whether the ACPI namespace has been created.
    pub closed spec fn namespace_created(&self) -> bool {
        self.namespace_created
    }

    /// Whether ACPI has been enabled.
    pub closed spec fn acpi_enabled(&self) -> bool {
        self.acpi_enabled
    }

    /// The interrupt mode ACPI was enabled with, if it was.
    pub closed spec fn pic_mode_spec(&self) -> Option<PICMethod> {
        self.pic_mode
    }

    /// The ACPI revision last set, 0 before any was.
    pub fn revision(&self) -> (r: i32)
        ensures
            r == self.revision_spec(),
    {
        self.revision
    }

    /// Whether the ACPI namespace has been created.
    pub fn is_namespace_created(&self) -> (r: bool)
        ensures
            r == self.namespace_created(),
    {
        self.namespace_created
    }

    /// Whether ACPI has been enabled.
    pub fn is_acpi_enabled(&self) -> (r: bool)
        ensures
            r == self.acpi_enabled(),
    {
        self.acpi_enabled
    }

    /// The interrupt mode ACPI was enabled with, if it was.
    pub fn pic_mode(&self) -> (r: Option<PICMethod>)
        ensures
            r == self.pic_mode_spec(),
    {
        self.pic_mode
    }

    /// A fresh context: no host registered, revision 0, nothing created or
    /// enabled.
    pub fn new() -> (lai: Lai<H>)
        ensures
            !lai.initialized(),
            lai.revision_spec() == 0,
            !lai.namespace_created(),
            !lai.acpi_enabled(),
            lai.pic_mode_spec() is None,
    {
        Lai {
            host: None,
            revision: 0,
            namespace_created: false,
            acpi_enabled: false,
            pic_mode: None,
        }
    }
}

impl<H: Host> Lai<H> {
    /// Records the ACPI revision the interpreter is to assume.  The
    /// embedding layer forwards the same value to the native revision call.
    pub fn set_acpi_revision(&mut self, revision: i32)
        ensures
            final(self).revision_spec() == revision,
            final(self).initialized() == old(self).initialized(),
            final(self).host_spec() == old(self).host_spec(),
            final(self).namespace_created() == old(self).namespace_created(),
            final(self).acpi_enabled() == old(self).acpi_enabled(),
            final(self).pic_mode_spec() == old(self).pic_mode_spec(),
    {
        self.revision = revision;
    }

    /// Creates the ACPI namespace.  The namespace is built from the DSDT
    /// firmware table, so the host's scan capability is asked for it first:
    /// if the host knows no such table there is nothing to build, the
    /// context is left untouched and the outcome is the no-such-node error
    /// ([`dsdt_scan_outcome`]).  Requires a registered host — calling any
    /// capability-dependent entry point before registration is a fatal
    /// precondition violation, never a silent default.
    pub fn create_namespace(&mut self) -> (r: Result<(), Error>)
        requires
            old(self).initialized(),
        ensures
            final(self).initialized(),
            final(self).host_spec() == old(self).host_spec(),
            final(self).revision_spec() == old(self).revision_spec(),
            final(self).acpi_enabled() == old(self).acpi_enabled(),
            final(self).pic_mode_spec() == old(self).pic_mode_spec(),
            r is Ok ==> final(self).namespace_created(),
            r is Err ==> *final(self) == *old(self) && r == Err::<(), Error>(Error::NoSuchNode),
    {
        let dsdt = self.get_laihost().scan("DSDT", 0);
        let r = dsdt_scan_outcome(dsdt);
        if r.is_ok() {
            self.namespace_created = true;
        }
        r
    }

    /// Records that ACPI is enabled in the given interrupt mode.  The
    /// native enable call itself is the embedding layer's to make; it must
    /// treat a failure there as fatal, as the interpreter documents the
    /// call as infallible.
    pub fn enable_acpi(&mut self, mode: PICMethod)
        requires
            old(self).initialized(),
        ensures
            final(self).acpi_enabled(),
            final(self).pic_mode_spec() == Some(mode),
            final(self).initialized(),
            final(self).host_spec() == old(self).host_spec(),
            final(self).revision_spec() == old(self).revision_spec(),
            final(self).namespace_created() == old(self).namespace_created(),
    {
        self.pic_mode = Some(mode);
        self.acpi_enabled = true;
    }

    /// Completion of a sleep-state entry: `status` is what the native call
    /// returned for the state's [`sleep_state_code`].  Success exactly for
    /// status 0, else the matching error, by [`lai_call`].
    pub fn enter_sleep(&self, status: u32) -> (r: Result<(), Error>)
        requires
            self.initialized(),
            status_defined(status),
        ensures
            r is Ok <==> status == 0,
            r matches Err(e) ==> error_code(e) == status,
    {
        lai_call(status)
    }

    /// Completion of a system reset request: `status` is what the native
    /// call returned.  Success exactly for status 0, else the matching
    /// error, by [`lai_call`].
    pub fn reset(&self, status: u32) -> (r: Result<(), Error>)
        requires
            self.initialized(),
            status_defined(status),
        ensures
            r is Ok <==> status == 0,
            r matches Err(e) ==> error_code(e) == status,
    {
        lai_call(status)
    }

    /// Completion of a PCI interrupt-pin routing request: the interpreter
    /// was handed an empty descriptor to populate and answered `status`.
    /// On success the populated descriptor is passed to the caller, who
    /// then owns it; on any error exactly that error is surfaced, the
    /// descriptor is discarded as meaningless, and nothing of the context
    /// changes.
    pub fn pci_route_pin(&self, status: u32, descriptor: AcpiResource) -> (r: Result<
        AcpiResource,
        Error,
    >)
        requires
            self.initialized(),
            status_defined(status),
        ensures
            status == 0 ==> r == Ok::<AcpiResource, Error>(descriptor),
            status != 0 ==> (r matches Err(e) && error_code(e) == status),
    {
        match lai_call(status) {
            Ok(()) => Ok(descriptor),
            Err(e) => Err(e),
        }
    }

    /// Decodes the pending System Control Interrupt events the interpreter
    /// reported: every bit of the native word is kept, recognized or not.
    pub fn get_sci_event(&self, raw: u16) -> (r: SciEvent)
        requires
            self.initialized(),
        ensures
            r.bits_spec() == raw,
    {
        SciEvent::from_bits_retain(raw)
    }
}

} // verus!
