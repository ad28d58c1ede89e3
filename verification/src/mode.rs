//! How the flag bitmask of an open request is read.

use vstd::prelude::*;

verus! {

/// The bit that asks for write access.
pub const WRITE_BIT: u32 = 1;

/// The bit that asks for read and write access.
pub const READ_WRITE_BIT: u32 = 2;

/// The intent with which a path is opened.
#[derive(Debug, Clone, Copy, PartialEq, Eq, Structural)]
pub enum OpenMode {
    /// Read only; the path must exist.
    ReadOnly,
    /// Write, creating the path if it is absent.
    WriteCreate,
    /// Read and write, creating the path if it is absent.
    ReadWriteCreate,
}


impl OpenMode {
    /// The mode that a bitmask stands for: the write bit wins over the
    /// read-write bit, and a mask with neither is read-only. All other bits
    /// are ignored.
    pub open spec fn of_flags(flags: u32) -> OpenMode {
        if flags as nat % 2 == 1 {
            OpenMode::WriteCreate
        } else if (flags as nat / 2) % 2 == 1 {
            OpenMode::ReadWriteCreate
        } else {
            OpenMode::ReadOnly
        }
    }

    /// Reads an open request's bitmask.
    pub fn from_flags(flags: u32) -> (m: OpenMode)
        ensures
            m == OpenMode::of_flags(flags),
    {
        assert(((flags & 1) != 0) == (flags % 2 == 1)) by (bit_vector);
        assert(((flags & 2) != 0) == ((flags / 2) % 2 == 1)) by (bit_vector);
        if (flags & WRITE_BIT) != 0 {
            OpenMode::WriteCreate
        } else if (flags & READ_WRITE_BIT) != 0 {
            OpenMode::ReadWriteCreate
        } else {
            OpenMode::ReadOnly
        }
    }

    /// Whether the host is asked for read access.
    pub fn read(&self) -> (b: bool)
        ensures
            b == (*self != OpenMode::WriteCreate),
    {
        match self {
            OpenMode::WriteCreate => false,
            _ => true,
        }
    }

    /// Whether the host is asked for write access.
    pub fn write(&self) -> (b: bool)
        ensures
            b == (*self != OpenMode::ReadOnly),
    {
        match self {
            OpenMode::ReadOnly => false,
            _ => true,
        }
    }

    /// Whether the host is asked to create an absent path.
    pub fn create(&self) -> (b: bool)
        ensures
            b == (*self != OpenMode::ReadOnly),
    {
        match self {
            OpenMode::ReadOnly => false,
            _ => true,
        }
    }
}

} // verus!
