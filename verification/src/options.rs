//! How a serial port is to be opened.

use vstd::prelude::*;

verus! {

/// The access with which a device is opened.
#[derive(Clone, Copy, Debug, PartialEq, Eq, Structural)]
pub enum Access {
    ReadOnly,
    WriteOnly,
    ReadWrite,
}

/// Options and flags which configure how a serial port is opened.
#[derive(Clone, Copy, Debug)]
pub struct OpenOptions {
    /// The port is to be readable.
    pub read: bool,
    /// The port is to be writable.
    pub write: bool,
}

impl OpenOptions {
    /// A blank set of options: read and write access are both off.
    pub fn new() -> (options: OpenOptions)
        ensures
            !options.read,
            !options.write,
    {
        OpenOptions { read: false, write: false }
    }

    /// Sets the option for read access.
    pub fn read(&mut self, read: bool) -> (options: &mut OpenOptions)
        ensures
            *options == (OpenOptions { read, write: old(self).write }),
            *final(self) == *final(options),
    {
        self.read = read;
        self
    }

    /// Sets the option for write access.
    pub fn write(&mut self, write: bool) -> (options: &mut OpenOptions)
        ensures
            *options == (OpenOptions { read: old(self).read, write }),
            *final(self) == *final(options),
    {
        self.write = write;
        self
    }

    /// The access that the options ask for: a port that is not to be
    /// writable is opened for reading only, whether or not read access was
    /// asked for.
    pub open spec fn spec_access(&self) -> Access {
        if !self.write {
            Access::ReadOnly
        } else if self.read {
            Access::ReadWrite
        } else {
            Access::WriteOnly
        }
    }

    /// The access that the options ask for. With no permission specified the
    /// port is opened for reading only.
    #[verifier::when_used_as_spec(spec_access)]
    pub fn access(&self) -> (access: Access)
        ensures
            access == self.spec_access(),
    {
        match (self.read, self.write) {
            (true, true) => Access::ReadWrite,
            (false, true) => Access::WriteOnly,
            (_, false) => Access::ReadOnly,
        }
    }
}

impl Access {
    /// Whether a device opened with this access can be read.
    pub open spec fn spec_readable(self) -> bool {
        self != Access::WriteOnly
    }

    /// Whether a device opened with this access can be read.
    #[verifier::when_used_as_spec(spec_readable)]
    pub fn readable(self) -> (yes: bool)
        ensures
            yes == self.spec_readable(),
    {
        match self {
            Access::ReadOnly | Access::ReadWrite => true,
            Access::WriteOnly => false,
        }
    }

    /// Whether a device opened with this access can be written.
    pub open spec fn spec_writable(self) -> bool {
        self != Access::ReadOnly
    }

    /// Whether a device opened with this access can be written.
    #[verifier::when_used_as_spec(spec_writable)]
    pub fn writable(self) -> (yes: bool)
        ensures
            yes == self.spec_writable(),
    {
        match self {
            Access::WriteOnly | Access::ReadWrite => true,
            Access::ReadOnly => false,
        }
    }
}

} // verus!
