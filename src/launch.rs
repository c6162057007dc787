use vstd::prelude::*;
use crate::platform::Platform;
use crate::select::{first_true, find_first_true};
use crate::text::{decimal, decimal_digits, views, push_str, push_string};
use crate::vm_config::VMConfig;

verus! {

/// The first port of the remote-display range; display `n` listens on
/// `VNC_BASE_PORT + n`.
pub const VNC_BASE_PORT: u16 = 5900;

/// The engine binary and the ordered arguments that start one VM.
pub struct LaunchCommand {
    pub program: String,
    pub args: Vec<String>,
}

/// The VNC display option for a display port.
pub open spec fn display_arg(port: u16) -> Seq<char> {
    "vnc=127.0.0.1:"@ + decimal_digits((port - VNC_BASE_PORT) as nat)
}

/// Accelerator, machine, CPU, memory and display arguments for a platform.
pub open spec fn machine_args(c: VMConfig, p: Platform, port: u16) -> Seq<Seq<char>> {
    let cpus = decimal_digits(c.cpu_cores as nat);
    let ram = decimal_digits(c.ram_mb as nat);
    match p {
        Platform::MacOs => seq![
            "-accel"@, p.accel_spec(), "-M"@, "virt,highmem=on"@, "-cpu"@, "host"@,
            "-smp"@, cpus, "-m"@, ram,
            "-device"@, "virtio-gpu-pci"@, "-display"@, display_arg(port),
        ],
        Platform::Windows => seq![
            "-accel"@, p.accel_spec(), "-m"@, ram, "-smp"@, cpus, "-display"@, display_arg(port),
        ],
        Platform::Linux => seq![
            "-enable-kvm"@, "-m"@, ram, "-smp"@, cpus, "-display"@, display_arg(port),
        ],
    }
}

/// USB controller with keyboard and pointer, and one NAT network device.
pub open spec fn device_args() -> Seq<Seq<char>> {
    seq![
        "-device"@, "qemu-xhci"@, "-device"@, "usb-kbd"@, "-device"@, "usb-tablet"@,
        "-device"@, "virtio-net-pci,netdev=net0"@, "-netdev"@, "user,id=net0"@,
    ]
}

/// A virtio block device on `drive` with boot index `boot`.
pub open spec fn block_device(drive: Seq<char>, boot: nat) -> Seq<char> {
    "virtio-blk-pci,drive="@ + drive + ",bootindex="@ + decimal_digits(boot)
}

pub open spec fn disk_boot_index() -> nat {
    2
}

pub open spec fn cdrom_boot_index() -> nat {
    1
}

/// The block device of the persistent disk.
pub open spec fn disk_device() -> Seq<char> {
    block_device("hd0"@, disk_boot_index())
}

/// The block device of the installation medium.
pub open spec fn cdrom_device() -> Seq<char> {
    block_device("cd0"@, cdrom_boot_index())
}

pub open spec fn disk_args(disk: Seq<char>) -> Seq<Seq<char>> {
    if disk.len() == 0 {
        seq![]
    } else {
        seq!["-drive"@, "file="@ + disk + ",if=none,id=hd0,format=qcow2"@, "-device"@, disk_device()]
    }
}

/// An installation medium is given and its path is not empty.
pub open spec fn has_install_media(iso: Option<String>) -> bool {
    iso is Some && iso->0@.len() > 0
}

pub open spec fn cdrom_args(iso: Option<String>) -> Seq<Seq<char>> {
    if has_install_media(iso) {
        seq!["-drive"@, "file="@ + iso->0@ + ",if=none,id=cd0,media=cdrom"@, "-device"@, cdrom_device()]
    } else {
        seq![]
    }
}

/// The first firmware candidate reported present, if any.
pub open spec fn firmware_choice(p: Platform, present: Seq<bool>) -> Option<Seq<char>> {
    match first_true(present) {
        Some(i) => if i < p.firmware_spec().len() { Some(p.firmware_spec()[i]) } else { None },
        None => None,
    }
}

pub open spec fn firmware_args(fw: Option<Seq<char>>) -> Seq<Seq<char>> {
    match fw {
        Some(f) => seq!["-bios"@, f],
        None => seq![],
    }
}

/// The full engine argument vector.
pub open spec fn launch_args(c: VMConfig, p: Platform, port: u16, present: Seq<bool>) -> Seq<Seq<char>> {
    machine_args(c, p, port) + device_args() + disk_args(c.disk_path@) + cdrom_args(c.iso_path)
        + firmware_args(firmware_choice(p, present))
}

/// Every character of a decimal numeral is a digit.
pub proof fn lemma_decimal_is_digits(n: nat)
    ensures
        decimal_digits(n).len() >= 1,
        forall|k: int| 0 <= k < decimal_digits(n).len() ==> '0' <= #[trigger] decimal_digits(n)[k] <= '9',
    decreases n,
{
    if n >= 10 {
        lemma_decimal_is_digits(n / 10);
    }
}

proof fn lemma_disk_device_text()
    ensures
        disk_device() == "virtio-blk-pci,drive=hd0,bootindex=2"@,
        cdrom_device() == "virtio-blk-pci,drive=cd0,bootindex=1"@,
{
    reveal_strlit("virtio-blk-pci,drive=");
    reveal_strlit("hd0");
    reveal_strlit("cd0");
    reveal_strlit(",bootindex=");
    reveal_strlit("virtio-blk-pci,drive=hd0,bootindex=2");
    reveal_strlit("virtio-blk-pci,drive=cd0,bootindex=1");
    assert(decimal_digits(2) =~= seq!['2']);
    assert(decimal_digits(1) =~= seq!['1']);
    assert(disk_device() =~= "virtio-blk-pci,drive=hd0,bootindex=2"@);
    assert(cdrom_device() =~= "virtio-blk-pci,drive=cd0,bootindex=1"@);
}

/// Without a persistent disk, no argument attaches a block device at the
/// disk's boot index.
pub proof fn lemma_no_disk_device_without_disk(c: VMConfig, p: Platform, port: u16, present: Seq<bool>)
    requires
        c.disk_path@.len() == 0,
        port >= VNC_BASE_PORT,
    ensures
        !launch_args(c, p, port, present).contains(disk_device()),
{
    let a = launch_args(c, p, port, present);
    let dd = disk_device();
    lemma_disk_device_text();
    reveal_strlit("virtio-blk-pci,drive=hd0,bootindex=2");
    reveal_strlit("virtio-blk-pci,drive=cd0,bootindex=1");
    reveal_strlit("vnc=127.0.0.1:");
    reveal_strlit("file=");
    reveal_strlit("-accel");
    reveal_strlit("hvf");
    reveal_strlit("whpx");
    reveal_strlit("-M");
    reveal_strlit("virt,highmem=on");
    reveal_strlit("-cpu");
    reveal_strlit("host");
    reveal_strlit("-smp");
    reveal_strlit("-m");
    reveal_strlit("-device");
    reveal_strlit("virtio-gpu-pci");
    reveal_strlit("-display");
    reveal_strlit("-enable-kvm");
    reveal_strlit("qemu-xhci");
    reveal_strlit("usb-kbd");
    reveal_strlit("usb-tablet");
    reveal_strlit("virtio-net-pci,netdev=net0");
    reveal_strlit("-netdev");
    reveal_strlit("user,id=net0");
    reveal_strlit("-drive");
    reveal_strlit("-bios");
    reveal_strlit("/opt/homebrew/share/qemu/edk2-aarch64-code.fd");
    reveal_strlit("/usr/local/share/qemu/edk2-aarch64-code.fd");
    lemma_decimal_is_digits(c.cpu_cores as nat);
    lemma_decimal_is_digits(c.ram_mb as nat);
    assert(dd[0] == 'v' && dd[1] == 'i' && dd[7] == 'b' && dd[21] == 'h');
    assert forall|i: int| 0 <= i < a.len() implies a[i] != dd by {
        let e = a[i];
        if e == dd {
            if e.len() > 1 && e[1] == 'n' {
            } else {
                assert(e[0] == dd[0]);
                assert(e[1] == dd[1]);
                assert(e[7] == dd[7]);
                assert(e[21] == dd[21]);
            }
        }
    }
}

/// With an installation medium, the arguments attach it as a block device
/// whose boot index comes before the disk's, and the disk's block device
/// appears only when there is a disk.
pub proof fn lemma_cdrom_boots_before_disk(c: VMConfig, p: Platform, port: u16, present: Seq<bool>)
    requires
        has_install_media(c.iso_path),
        port >= VNC_BASE_PORT,
    ensures
        launch_args(c, p, port, present).contains(cdrom_device()),
        launch_args(c, p, port, present).contains(disk_device()) ==> c.disk_path@.len() > 0,
        cdrom_boot_index() < disk_boot_index(),
{
    let a = launch_args(c, p, port, present);
    let k = (machine_args(c, p, port).len() + device_args().len() + disk_args(c.disk_path@).len() + 3) as int;
    assert(a[k] == cdrom_device());
    if c.disk_path@.len() == 0 {
        lemma_no_disk_device_without_disk(c, p, port, present);
    }
}

fn block_device_arg(drive: &str, boot: u64) -> (r: String)
    ensures
        r@ == block_device(drive@, boot as nat),
{
    let d = decimal(boot);
    String::from_str("virtio-blk-pci,drive=").concat(drive).concat(",bootindex=").concat(d.as_str())
}

fn push_machine_args(v: &mut Vec<String>, c: &VMConfig, p: Platform, port: u16)
    requires
        port >= VNC_BASE_PORT,
    ensures
        views(final(v)@) == views(old(v)@) + machine_args(*c, p, port),
{
    let cpus = decimal(c.cpu_cores as u64);
    let ram = decimal(c.ram_mb as u64);
    let display = String::from_str("vnc=127.0.0.1:").concat(decimal((port - VNC_BASE_PORT) as u64).as_str());
    match p {
        Platform::MacOs => {
            push_str(v, "-accel");
            push_str(v, p.accel());
            push_str(v, "-M");
            push_str(v, "virt,highmem=on");
            push_str(v, "-cpu");
            push_str(v, "host");
            push_str(v, "-smp");
            push_string(v, cpus);
            push_str(v, "-m");
            push_string(v, ram);
            push_str(v, "-device");
            push_str(v, "virtio-gpu-pci");
            push_str(v, "-display");
            push_string(v, display);
        },
        Platform::Windows => {
            push_str(v, "-accel");
            push_str(v, p.accel());
            push_str(v, "-m");
            push_string(v, ram);
            push_str(v, "-smp");
            push_string(v, cpus);
            push_str(v, "-display");
            push_string(v, display);
        },
        Platform::Linux => {
            push_str(v, "-enable-kvm");
            push_str(v, "-m");
            push_string(v, ram);
            push_str(v, "-smp");
            push_string(v, cpus);
            push_str(v, "-display");
            push_string(v, display);
        },
    }
    assert(views(v@) =~= views(old(v)@) + machine_args(*c, p, port));
}

fn push_device_args(v: &mut Vec<String>)
    ensures
        views(final(v)@) == views(old(v)@) + device_args(),
{
    push_str(v, "-device");
    push_str(v, "qemu-xhci");
    push_str(v, "-device");
    push_str(v, "usb-kbd");
    push_str(v, "-device");
    push_str(v, "usb-tablet");
    push_str(v, "-device");
    push_str(v, "virtio-net-pci,netdev=net0");
    push_str(v, "-netdev");
    push_str(v, "user,id=net0");
    assert(views(v@) =~= views(old(v)@) + device_args());
}

fn push_disk_args(v: &mut Vec<String>, disk: &str)
    ensures
        views(final(v)@) == views(old(v)@) + disk_args(disk@),
{
    if !disk.is_empty() {
        push_str(v, "-drive");
        push_string(v, String::from_str("file=").concat(disk).concat(",if=none,id=hd0,format=qcow2"));
        push_str(v, "-device");
        push_string(v, block_device_arg("hd0", 2));
    }
    assert(views(v@) =~= views(old(v)@) + disk_args(disk@));
}

fn push_cdrom_args(v: &mut Vec<String>, iso: &Option<String>)
    ensures
        views(final(v)@) == views(old(v)@) + cdrom_args(*iso),
{
    if let Some(path) = iso {
        if !path.as_str().is_empty() {
            push_str(v, "-drive");
            push_string(v, String::from_str("file=").concat(path.as_str()).concat(",if=none,id=cd0,media=cdrom"));
            push_str(v, "-device");
            push_string(v, block_device_arg("cd0", 1));
        }
    }
    assert(views(v@) =~= views(old(v)@) + cdrom_args(*iso));
}

/// Builds the engine command for `config` with its display on `vnc_port`.
/// `firmware_present[i]` tells whether the platform's `i`-th firmware
/// candidate exists; the first one that does is passed to the engine.
pub fn build_launch_command(
    config: &VMConfig,
    platform: Platform,
    vnc_port: u16,
    firmware_present: &Vec<bool>,
) -> (r: LaunchCommand)
    requires
        vnc_port >= VNC_BASE_PORT,
    ensures
        r.program@ == platform.binary_spec(),
        views(r.args@) == launch_args(*config, platform, vnc_port, firmware_present@),
{
    let mut args: Vec<String> = Vec::new();
    assert(views(args@) =~= Seq::<Seq<char>>::empty());
    push_machine_args(&mut args, config, platform, vnc_port);
    push_device_args(&mut args);
    push_disk_args(&mut args, config.disk_path.as_str());
    push_cdrom_args(&mut args, &config.iso_path);
    let candidates = platform.firmware_candidates();
    let ghost before = views(args@);
    match find_first_true(firmware_present) {
        Some(i) => {
            if i < candidates.len() {
                push_str(&mut args, "-bios");
                push_str(&mut args, candidates[i].as_str());
            }
        },
        None => {},
    }
    assert(views(args@) =~= before + firmware_args(firmware_choice(platform, firmware_present@)));
    LaunchCommand { program: String::from_str(platform.qemu_binary()), args }
}

} // verus!
