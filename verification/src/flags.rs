use vstd::prelude::*;

verus! {

// The capability bits below are the engine's documented open-flag values;
// the flag word built here is handed to the native open call unchanged.
/// Open the database for reading only.
pub const OPEN_READ_ONLY: i32 = 0x00000001;

/// Open the database for reading and writing.
pub const OPEN_READ_WRITE: i32 = 0x00000002;

/// Create the database if it does not already exist.
pub const OPEN_CREATE: i32 = 0x00000004;

/// Open the database in the multi-thread threading mode.
pub const OPEN_NO_MUTEX: i32 = 0x00008000;

/// Open the database in the serialized threading mode.
pub const OPEN_FULL_MUTEX: i32 = 0x00010000;

/// Flags for opening a database connection: an accumulation of independent
/// capability bits, built with a fluent builder starting from no flags set.
#[derive(Clone, Copy, Debug)]
pub struct OpenFlags(i32);

impl OpenFlags {
    /// The accumulated capability bits, exactly as the engine expects them.
    pub closed spec fn bits(&self) -> i32 {
        self.0
    }

    /// Create flags for opening a database connection; no capability is set.
    pub fn new() -> (flags: Self)
        ensures
            flags.bits() == 0,
    {
        OpenFlags(0)
    }

    /// Create the database if it does not already exist.
    pub fn set_create(self) -> (flags: Self)
        ensures
            flags.bits() == self.bits() | OPEN_CREATE,
    {
        OpenFlags(self.0 | OPEN_CREATE)
    }

    /// Open the database in the serialized threading mode.
    pub fn set_full_mutex(self) -> (flags: Self)
        ensures
            flags.bits() == self.bits() | OPEN_FULL_MUTEX,
    {
        OpenFlags(self.0 | OPEN_FULL_MUTEX)
    }

    /// Open the database in the multi-thread threading mode.
    pub fn set_no_mutex(self) -> (flags: Self)
        ensures
            flags.bits() == self.bits() | OPEN_NO_MUTEX,
    {
        OpenFlags(self.0 | OPEN_NO_MUTEX)
    }

    /// Open the database for reading only.
    pub fn set_read_only(self) -> (flags: Self)
        ensures
            flags.bits() == self.bits() | OPEN_READ_ONLY,
    {
        OpenFlags(self.0 | OPEN_READ_ONLY)
    }

    /// Open the database for reading and writing.
    pub fn set_read_write(self) -> (flags: Self)
        ensures
            flags.bits() == self.bits() | OPEN_READ_WRITE,
    {
        OpenFlags(self.0 | OPEN_READ_WRITE)
    }

    /// The raw flag word to hand to the engine's open call.
    pub fn as_raw(&self) -> (bits: i32)
        ensures
            bits == self.bits(),
    {
        self.0
    }
}

} // verus!
