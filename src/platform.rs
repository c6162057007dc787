use vstd::prelude::*;
use crate::text::{decimal, decimal_digits, push_str, views};

verus! {

/// The host platform, which fixes the engine binary, its accelerator and
/// where UEFI firmware may be found.
#[derive(Debug, Clone, Copy, PartialEq, Eq, Structural)]
pub enum Platform {
    MacOs,
    Windows,
    Linux,
}

impl Platform {
    pub open spec fn binary_spec(self) -> Seq<char> {
        match self {
            Platform::MacOs => "qemu-system-aarch64"@,
            _ => "qemu-system-x86_64"@,
        }
    }

    pub open spec fn accel_spec(self) -> Seq<char> {
        match self {
            Platform::MacOs => "hvf"@,
            Platform::Windows => "whpx"@,
            Platform::Linux => "kvm"@,
        }
    }

    /// Firmware files probed in order; only the platform whose accelerated
    /// machine type needs UEFI has any.
    pub open spec fn firmware_spec(self) -> Seq<Seq<char>> {
        match self {
            Platform::MacOs => seq![
                "/opt/homebrew/share/qemu/edk2-aarch64-code.fd"@,
                "/usr/local/share/qemu/edk2-aarch64-code.fd"@,
            ],
            _ => seq![],
        }
    }

    /// The engine binary for this platform.
    pub fn qemu_binary(&self) -> (r: &'static str)
        ensures
            r@ == self.binary_spec(),
    {
        match self {
            Platform::MacOs => "qemu-system-aarch64",
            _ => "qemu-system-x86_64",
        }
    }

    /// The hardware-acceleration backend for this platform.
    pub fn accel(&self) -> (r: &'static str)
        ensures
            r@ == self.accel_spec(),
    {
        match self {
            Platform::MacOs => "hvf",
            Platform::Windows => "whpx",
            Platform::Linux => "kvm",
        }
    }

    /// The firmware files to probe, in order.
    pub fn firmware_candidates(&self) -> (r: Vec<String>)
        ensures
            views(r@) == self.firmware_spec(),
    {
        let mut v: Vec<String> = Vec::new();
        match self {
            Platform::MacOs => {
                v.push(String::from_str("/opt/homebrew/share/qemu/edk2-aarch64-code.fd"));
                v.push(String::from_str("/usr/local/share/qemu/edk2-aarch64-code.fd"));
            },
            _ => {},
        }
        assert(views(v@) =~= self.firmware_spec());
        v
    }

    /// The package-manager command that installs the engine, where one is
    /// known: none on Linux, whose distributions differ.
    pub open spec fn installer_spec(self) -> Option<Seq<Seq<char>>> {
        match self {
            Platform::MacOs => Some(seq!["brew"@, "install"@, "qemu"@]),
            Platform::Windows => Some(seq!["winget"@, "install"@, "-e"@, "--id"@, "SoftwareFreedomConservancy.QEMU"@]),
            Platform::Linux => None,
        }
    }

    /// The installer command, program first.
    pub fn installer(&self) -> (r: Option<Vec<String>>)
        ensures
            r is None <==> self.installer_spec() is None,
            r matches Some(v) ==> views(v@) == self.installer_spec()->0,
    {
        let mut v: Vec<String> = Vec::new();
        match self {
            Platform::MacOs => {
                push_str(&mut v, "brew");
                push_str(&mut v, "install");
                push_str(&mut v, "qemu");
            },
            Platform::Windows => {
                push_str(&mut v, "winget");
                push_str(&mut v, "install");
                push_str(&mut v, "-e");
                push_str(&mut v, "--id");
                push_str(&mut v, "SoftwareFreedomConservancy.QEMU");
            },
            Platform::Linux => {
                return None;
            },
        }
        assert(views(v@) =~= self.installer_spec()->0);
        Some(v)
    }
}

/// The address a viewer connects to for the display on `port`.
pub fn vnc_address(port: u16) -> (r: String)
    ensures
        r@ == "localhost:"@ + decimal_digits(port as nat),
{
    String::from_str("localhost:").concat(decimal(port as u64).as_str())
}

/// The URL that hands the display on `port` to the system's viewer.
pub fn vnc_url(port: u16) -> (r: String)
    ensures
        r@ == "vnc://localhost:"@ + decimal_digits(port as nat),
{
    String::from_str("vnc://localhost:").concat(decimal(port as u64).as_str())
}

} // verus!
