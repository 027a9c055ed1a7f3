//! Scalar value types of the configuration model and their fixed textual
//! renderings: the on/off toggle, decimal byte sizes, closed string
//! enumerations, and the tagged variants that render as a single token.

use vstd::prelude::*;
use crate::text::{dec_of, prefixed, prefixed_u64};
use crate::tokens::TagArg;

verus! {

/// Two-valued toggle, rendered as the literals `on` / `off`.
#[derive(Clone, Debug, PartialEq, Eq)]
pub enum OnOff {
    On,
    Off,
}

impl OnOff {
    /// The literal this toggle renders as.
    pub open spec fn text_view(&self) -> Seq<char> {
        match self {
            OnOff::On => "on"@,
            OnOff::Off => "off"@,
        }
    }

    pub fn as_text(&self) -> (r: &'static str)
        ensures
            r@ == self.text_view(),
    {
        match self {
            OnOff::On => "on",
            OnOff::Off => "off",
        }
    }
}

/// A size in decimal (SI) bytes; it renders as the raw byte count, never
/// with a unit suffix.
#[derive(Clone, Copy, Debug, PartialEq, Eq)]
pub struct ByteSize(pub u64);

impl ByteSize {
    /// The decimal rendering of the byte count.
    pub open spec fn text_view(&self) -> Seq<char> {
        dec_of(self.0 as nat)
    }

    pub fn b(n: u64) -> (r: ByteSize)
        ensures
            r.0 == n,
    {
        ByteSize(n)
    }

    pub fn kb(n: u64) -> (r: ByteSize)
        requires
            n * 1000 <= u64::MAX,
        ensures
            r.0 == n * 1000,
    {
        ByteSize(n * 1000)
    }

    pub fn mb(n: u64) -> (r: ByteSize)
        requires
            n * 1000000 <= u64::MAX,
        ensures
            r.0 == n * 1000000,
    {
        ByteSize(n * 1000000)
    }

    pub fn gb(n: u64) -> (r: ByteSize)
        requires
            n * 1000000000 <= u64::MAX,
        ensures
            r.0 == n * 1000000000,
    {
        ByteSize(n * 1000000000)
    }
}

/// How memory is hot-plugged; each variant renders as one fixed literal.
#[derive(Clone, Debug, PartialEq, Eq)]
pub enum MemoryHotplugMethod {
    Acpi,
    VirtioMem,
}

impl MemoryHotplugMethod {
    pub open spec fn text_view(&self) -> Seq<char> {
        match self {
            MemoryHotplugMethod::Acpi => "acpi"@,
            MemoryHotplugMethod::VirtioMem => "virtio-mem"@,
        }
    }

    pub fn as_text(&self) -> (r: &'static str)
        ensures
            r@ == self.text_view(),
    {
        match self {
            MemoryHotplugMethod::Acpi => "acpi",
            MemoryHotplugMethod::VirtioMem => "virtio-mem",
        }
    }
}

/// Which side of a vhost-user connection the monitor takes.
#[derive(Clone, Debug, PartialEq, Eq)]
pub enum VhostMode {
    Client,
    Server,
}

impl VhostMode {
    pub open spec fn text_view(&self) -> Seq<char> {
        match self {
            VhostMode::Client => "client"@,
            VhostMode::Server => "server"@,
        }
    }

    pub fn as_text(&self) -> (r: &'static str)
        ensures
            r@ == self.text_view(),
    {
        match self {
            VhostMode::Client => "client",
            VhostMode::Server => "server",
        }
    }
}

/// A filesystem path or a small file-descriptor number; renders as
/// `path=<p>` or `fd=<n>`, never bare.
#[derive(Clone, Debug, PartialEq, Eq)]
pub enum PathOrFileDescriptorOption {
    Path(String),
    Fd(usize),
}

impl TagArg for PathOrFileDescriptorOption {
    open spec fn arg_view(&self) -> Seq<char> {
        match self {
            PathOrFileDescriptorOption::Path(p) => "path="@ + p@,
            PathOrFileDescriptorOption::Fd(n) => "fd="@ + dec_of(*n as nat),
        }
    }

    fn arg(&self) -> (r: String) {
        match self {
            PathOrFileDescriptorOption::Path(p) => prefixed("path=", p.as_str()),
            PathOrFileDescriptorOption::Fd(n) => prefixed_u64("fd=", *n as u64),
        }
    }
}

/// The RNG source: a device path or an IOMMU toggle.
#[derive(Clone, Debug, PartialEq, Eq)]
pub enum Rng {
    Src(String),
    Iommu(OnOff),
}

impl TagArg for Rng {
    open spec fn arg_view(&self) -> Seq<char> {
        match self {
            Rng::Src(p) => "src="@ + p@,
            Rng::Iommu(state) => "iommu="@ + state.text_view(),
        }
    }

    fn arg(&self) -> (r: String) {
        match self {
            Rng::Src(p) => prefixed("src=", p.as_str()),
            Rng::Iommu(state) => prefixed("iommu=", state.as_text()),
        }
    }
}

/// The serial port target.
#[derive(Clone, Debug, PartialEq, Eq)]
pub enum Serial {
    Off,
    Null,
    Pty,
    Tty,
    File(String),
    Socket(String),
}

impl TagArg for Serial {
    open spec fn arg_view(&self) -> Seq<char> {
        match self {
            Serial::Off => "off"@,
            Serial::Null => "null"@,
            Serial::Pty => "pty"@,
            Serial::Tty => "tty"@,
            Serial::File(p) => "file="@ + p@,
            Serial::Socket(p) => "socket="@ + p@,
        }
    }

    fn arg(&self) -> (r: String) {
        match self {
            Serial::Off => "off".to_owned(),
            Serial::Null => "null".to_owned(),
            Serial::Pty => "pty".to_owned(),
            Serial::Tty => "tty".to_owned(),
            Serial::File(p) => prefixed("file=", p.as_str()),
            Serial::Socket(p) => prefixed("socket=", p.as_str()),
        }
    }
}

/// The console target.
#[derive(Clone, Debug, PartialEq, Eq)]
pub enum Console {
    Off,
    Null,
    Pty,
    Tty,
    File(String),
    Iommu(OnOff),
}

impl TagArg for Console {
    open spec fn arg_view(&self) -> Seq<char> {
        match self {
            Console::Off => "off"@,
            Console::Null => "null"@,
            Console::Pty => "pty"@,
            Console::Tty => "tty"@,
            Console::File(p) => "file="@ + p@,
            Console::Iommu(state) => "iommu="@ + state.text_view(),
        }
    }

    fn arg(&self) -> (r: String) {
        match self {
            Console::Off => "off".to_owned(),
            Console::Null => "null".to_owned(),
            Console::Pty => "pty".to_owned(),
            Console::Tty => "tty".to_owned(),
            Console::File(p) => prefixed("file=", p.as_str()),
            Console::Iommu(state) => prefixed("iommu=", state.as_text()),
        }
    }
}

/// The seccomp mode; each variant renders as one fixed literal.
#[derive(Clone, Debug, PartialEq, Eq)]
pub enum SecComp {
    True,
    False,
    Log,
}

impl TagArg for SecComp {
    open spec fn arg_view(&self) -> Seq<char> {
        match self {
            SecComp::True => "true"@,
            SecComp::False => "false"@,
            SecComp::Log => "log"@,
        }
    }

    fn arg(&self) -> (r: String) {
        match self {
            SecComp::True => "true".to_owned(),
            SecComp::False => "false".to_owned(),
            SecComp::Log => "log".to_owned(),
        }
    }
}

/// The kind of debug console: a bare tag or a backing file.
#[derive(Clone, Debug, PartialEq, Eq)]
pub enum DebugConsoleType {
    Off,
    Pty,
    Tty,
    File(String),
}

impl DebugConsoleType {
    /// The payload part this variant contributes.
    pub open spec fn text_view(&self) -> Seq<char> {
        match self {
            DebugConsoleType::Off => "off"@,
            DebugConsoleType::Pty => "pty"@,
            DebugConsoleType::Tty => "tty"@,
            DebugConsoleType::File(p) => "file="@ + p@,
        }
    }

    pub fn as_text(&self) -> (r: String)
        ensures
            r@ == self.text_view(),
    {
        match self {
            DebugConsoleType::Off => "off".to_owned(),
            DebugConsoleType::Pty => "pty".to_owned(),
            DebugConsoleType::Tty => "tty".to_owned(),
            DebugConsoleType::File(p) => prefixed("file=", p.as_str()),
        }
    }
}

} // verus!
