use orbit_vm::catalog::{clone_vm, disk_to_delete, find_vm, fresh_id, list_vms_by_space, stop_record};
use orbit_vm::launch::build_launch_command;
use orbit_vm::platform::Platform;
use orbit_vm::port::find_free_port;
use orbit_vm::qemu::{mark_stopped, QemuManager, VmError};
use orbit_vm::registry::ProcessRegistry;
use orbit_vm::snapshot::{
    disk_image_args, list_args, list_outcome, parse_snapshot_list, snapshot_args, split_words, tool_outcome,
    SnapshotOp,
};
use orbit_vm::text::{decimal, hexadecimal, join_path, lowercase, replace_char};
use orbit_vm::vm_config::{Space, VMConfig, VMStatus};

fn vm(id: &str, space: &str, disk: &str, iso: Option<&str>) -> VMConfig {
    VMConfig {
        id: id.to_string(),
        name: format!("vm {}", id),
        space_id: space.to_string(),
        cpu_cores: 4,
        ram_mb: 2048,
        disk_path: disk.to_string(),
        iso_path: iso.map(|s| s.to_string()),
        arch: "x86_64".to_string(),
        status: VMStatus::Stopped,
        vnc_port: None,
    }
}

fn strs(v: &[&str]) -> Vec<String> {
    v.iter().map(|s| s.to_string()).collect()
}

#[test]
fn linux_launch_args_with_disk_and_iso() {
    let c = vm("a", "default", "/d/a.qcow2", Some("/i/x.iso"));
    let cmd = build_launch_command(&c, Platform::Linux, 5901, &vec![]);
    assert_eq!(cmd.program, "qemu-system-x86_64");
    assert_eq!(
        cmd.args,
        strs(&[
            "-enable-kvm", "-m", "2048", "-smp", "4", "-display", "vnc=127.0.0.1:1",
            "-device", "qemu-xhci", "-device", "usb-kbd", "-device", "usb-tablet",
            "-device", "virtio-net-pci,netdev=net0", "-netdev", "user,id=net0",
            "-drive", "file=/d/a.qcow2,if=none,id=hd0,format=qcow2",
            "-device", "virtio-blk-pci,drive=hd0,bootindex=2",
            "-drive", "file=/i/x.iso,if=none,id=cd0,media=cdrom",
            "-device", "virtio-blk-pci,drive=cd0,bootindex=1",
        ])
    );
}

#[test]
fn macos_launch_args_pick_first_present_firmware() {
    let c = vm("a", "default", "", None);
    let cmd = build_launch_command(&c, Platform::MacOs, 5900, &vec![false, true]);
    assert_eq!(cmd.program, "qemu-system-aarch64");
    assert_eq!(
        cmd.args,
        strs(&[
            "-accel", "hvf", "-M", "virt,highmem=on", "-cpu", "host", "-smp", "4", "-m", "2048",
            "-device", "virtio-gpu-pci", "-display", "vnc=127.0.0.1:0",
            "-device", "qemu-xhci", "-device", "usb-kbd", "-device", "usb-tablet",
            "-device", "virtio-net-pci,netdev=net0", "-netdev", "user,id=net0",
            "-bios", "/usr/local/share/qemu/edk2-aarch64-code.fd",
        ])
    );
}

#[test]
fn windows_launch_args_without_firmware() {
    let c = vm("a", "default", "", Some(""));
    let cmd = build_launch_command(&c, Platform::Windows, 5902, &vec![false, false]);
    assert_eq!(cmd.program, "qemu-system-x86_64");
    assert_eq!(cmd.args[0..8].to_vec(), strs(&["-accel", "whpx", "-m", "2048", "-smp", "4", "-display", "vnc=127.0.0.1:2"]));
    assert_eq!(cmd.args.len(), 18);
}

#[test]
fn empty_disk_has_no_boot_index_two_device() {
    for p in [Platform::Linux, Platform::MacOs, Platform::Windows] {
        let c = vm("a", "default", "", Some("/i/x.iso"));
        let cmd = build_launch_command(&c, p, 5900, &vec![true]);
        assert!(!cmd.args.iter().any(|a| a.contains("bootindex=2")));
        assert!(cmd.args.iter().any(|a| a == "virtio-blk-pci,drive=cd0,bootindex=1"));
    }
}

#[test]
fn all_ports_busy_returns_start() {
    assert_eq!(find_free_port(5900, &vec![false; 100]), 5900);
}

#[test]
fn first_free_port_is_chosen() {
    assert_eq!(find_free_port(5900, &vec![false, false, true]), 5902);
    assert_eq!(find_free_port(5900, &vec![true]), 5900);
    assert_eq!(find_free_port(5900, &vec![]), 5900);
}

#[test]
fn free_port_beyond_range_is_ignored() {
    let mut free = vec![false; 100];
    free.push(true);
    assert_eq!(find_free_port(5900, &free), 5900);
}

#[test]
fn snapshot_listing_is_parsed() {
    let out = "ID  TAG  VM SIZE ...\n--  ---  ------- ...\n1  snap-a  ...\n2  snap-b  ...\n";
    assert_eq!(parse_snapshot_list(out), strs(&["snap-a", "snap-b"]));
}

#[test]
fn snapshot_listing_edge_cases() {
    assert_eq!(parse_snapshot_list(""), Vec::<String>::new());
    assert_eq!(parse_snapshot_list("h1\nh2"), Vec::<String>::new());
    assert_eq!(parse_snapshot_list("h1\r\nh2\r\n1 a b\r\n\r\nlonely\n  3\t c\n"), strs(&["a", "c"]));
}

#[test]
fn words_split_on_unicode_whitespace() {
    let w = split_words(&"a\u{3000}b  c\u{a0}".chars().collect());
    assert_eq!(w, vec![vec!['a'], vec!['b'], vec!['c']]);
}

#[test]
fn failed_listing_is_empty() {
    assert_eq!(list_outcome(false, "h\nh\n1 x\n"), Vec::<String>::new());
    assert_eq!(list_outcome(true, "h\nh\n1 x\n"), strs(&["x"]));
}

#[test]
fn tool_failure_carries_stderr() {
    assert_eq!(tool_outcome(true, "x".to_string()), Ok(()));
    assert_eq!(tool_outcome(false, "boom".to_string()), Err(VmError::ToolExecution("boom".to_string())));
    assert_eq!(VmError::ToolExecution("boom".to_string()).message(), "boom");
    assert_eq!(VmError::NotFound.message(), "VM not found");
}

#[test]
fn snapshot_and_image_arguments() {
    assert_eq!(snapshot_args(SnapshotOp::Create, "/d.qcow2", "s1"), strs(&["snapshot", "-c", "s1", "/d.qcow2"]));
    assert_eq!(snapshot_args(SnapshotOp::Apply, "/d.qcow2", "s1"), strs(&["snapshot", "-a", "s1", "/d.qcow2"]));
    assert_eq!(snapshot_args(SnapshotOp::Delete, "/d.qcow2", "s1"), strs(&["snapshot", "-d", "s1", "/d.qcow2"]));
    assert_eq!(list_args("/d.qcow2"), strs(&["snapshot", "-l", "/d.qcow2"]));
    assert_eq!(disk_image_args("/d.qcow2", 20), strs(&["create", "-f", "qcow2", "/d.qcow2", "20G"]));
}

#[test]
fn text_helpers() {
    assert_eq!(decimal(0), "0");
    assert_eq!(decimal(4096), "4096");
    assert_eq!(hexadecimal(255), "ff");
    assert_eq!(lowercase("My VM"), "my vm");
    assert_eq!(replace_char("a b c", ' ', '-'), "a-b-c");
    assert_eq!(join_path("/home/u", ".config"), "/home/u/.config");
    assert_eq!(join_path("/home/u/", "x"), "/home/u/x");
    assert_eq!(join_path("", "x"), "x");
}

#[test]
fn config_paths() {
    assert_eq!(VMConfig::config_dir_in(Some("/home/u".to_string())), "/home/u/.config/orbit-vm");
    assert_eq!(VMConfig::config_dir_in(None), "./.config/orbit-vm");
    assert!(VMConfig::vms_dir().ends_with("/.config/orbit-vm/vms"));
    assert!(VMConfig::spaces_file().ends_with("/.config/orbit-vm/spaces.json"));
    assert_eq!(VMConfig::record_file_name("abc"), "abc.json");
}

#[test]
fn default_space_record() {
    let s = Space::default_space();
    assert_eq!(s.id, "default");
    assert_eq!(s.name, "Default");
    assert_eq!(s.icon, "folder");
    assert_eq!(s.description, Some("Your personal VMs".to_string()));
    assert_eq!(VMStatus::default(), VMStatus::Stopped);
}

#[test]
fn registry_refuses_second_entry() {
    let mut r: ProcessRegistry<u32> = ProcessRegistry::new();
    assert_eq!(r.insert("a".to_string(), 1), Ok(()));
    assert_eq!(r.insert("a".to_string(), 2), Err(2));
    assert!(r.contains("a"));
    assert_eq!(r.remove("a"), Some(1));
    assert_eq!(r.remove("a"), None);
    assert!(!r.contains("a"));
}

#[test]
fn start_then_stop_updates_record() {
    let mut m: QemuManager<u32> = QemuManager::new(Platform::Linux);
    let mut vms = vec![vm("a", "default", "/d.qcow2", None), vm("b", "default", "", None)];
    let cmd = m.launch_command(&vms[0], 5903, &vec![]);
    assert!(cmd.is_ok());
    assert_eq!(m.start_vm(&mut vms[0], 5903, 7), Ok(5903));
    assert_eq!(vms[0].status, VMStatus::Running);
    assert_eq!(vms[0].vnc_port, Some(5903));
    assert!(m.is_running("a"));
    assert!(matches!(m.launch_command(&vms[0], 5904, &vec![]), Err(VmError::AlreadyRunning)));
    assert_eq!(m.start_vm(&mut vms[0], 5904, 8), Err(8));
    assert_eq!(vms[0].vnc_port, Some(5903));
    assert_eq!(m.stop_and_clear(&mut vms, "a"), Some(7));
    assert_eq!(vms[0].status, VMStatus::Stopped);
    assert_eq!(vms[0].vnc_port, None);
    assert!(!m.is_running("a"));
}

#[test]
fn stop_without_process_still_clears_record() {
    let mut m: QemuManager<u32> = QemuManager::new(Platform::MacOs);
    let mut vms = vec![vm("a", "default", "", None)];
    vms[0].status = VMStatus::Running;
    vms[0].vnc_port = Some(5900);
    assert_eq!(m.stop_and_clear(&mut vms, "a"), None);
    assert_eq!(vms[0].status, VMStatus::Stopped);
    assert_eq!(vms[0].vnc_port, None);
    assert_eq!(m.stop_and_clear(&mut vms, "missing"), None);
    assert_eq!(m.platform(), Platform::MacOs);
}

#[test]
fn stop_record_and_mark_stopped() {
    let mut vms = vec![vm("a", "s", "", None), vm("b", "s", "", None)];
    vms[1].status = VMStatus::Running;
    vms[1].vnc_port = Some(5901);
    assert_eq!(stop_record(&mut vms, "b"), Some(1));
    assert_eq!(vms[1].vnc_port, None);
    assert_eq!(stop_record(&mut vms, "z"), None);
    let mut c = vm("c", "s", "", None);
    c.status = VMStatus::Running;
    mark_stopped(&mut c);
    assert_eq!(c.status, VMStatus::Stopped);
}

#[test]
fn find_and_filter_records() {
    let vms = vec![vm("a", "s1", "", None), vm("b", "s2", "", None), vm("c", "s1", "", None)];
    assert_eq!(find_vm(&vms, "b"), Some(1));
    assert_eq!(find_vm(&vms, "z"), None);
    let ids: Vec<String> = list_vms_by_space(vms, "s1").into_iter().map(|v| v.id).collect();
    assert_eq!(ids, strs(&["a", "c"]));
}

#[test]
fn fresh_id_avoids_collisions() {
    let vms = vec![vm("ff", "s", "", None), vm("ff-", "s", "", None)];
    assert_eq!(fresh_id(&vms, 255), "ff--");
    assert_eq!(fresh_id(&vms, 16), "10");
}

#[test]
fn clone_copies_settings_and_resets_state() {
    let mut src = vm("18c", "work", "/d/src.qcow2", Some("/i/x.iso"));
    src.status = VMStatus::Running;
    src.vnc_port = Some(5900);
    let vms = vec![vm("x", "s", "", None), src];
    let plan = clone_vm(&vms, "18c", "My New VM".to_string(), 396, "/home/u/.config/orbit-vm").unwrap();
    let c = plan.config;
    assert_eq!(c.id, "18c-");
    assert_eq!(c.name, "My New VM");
    assert_eq!(c.space_id, "work");
    assert_eq!(c.cpu_cores, 4);
    assert_eq!(c.ram_mb, 2048);
    assert_eq!(c.arch, "x86_64");
    assert_eq!(c.iso_path, Some("/i/x.iso".to_string()));
    assert_eq!(c.disk_path, "/home/u/.config/orbit-vm/disks/my-new-vm.qcow2");
    assert_eq!(c.status, VMStatus::Stopped);
    assert_eq!(c.vnc_port, None);
    assert_eq!(plan.copy_from, Some("/d/src.qcow2".to_string()));
}

#[test]
fn clone_of_missing_vm_is_not_found() {
    let vms = vec![vm("x", "s", "", None)];
    assert!(matches!(clone_vm(&vms, "y", "n".to_string(), 1, "/c"), Err(VmError::NotFound)));
    let plan = clone_vm(&vms, "x", "N".to_string(), 1, "/c").unwrap();
    assert_eq!(plan.copy_from, None);
    assert_eq!(plan.config.id, "1");
}

#[test]
fn disk_deletion_choice() {
    let a = vm("a", "s", "/d.qcow2", None);
    assert_eq!(disk_to_delete(&a, true), Some("/d.qcow2".to_string()));
    assert_eq!(disk_to_delete(&a, false), None);
    assert_eq!(disk_to_delete(&vm("b", "s", "", None), true), None);
}

#[test]
fn platform_table() {
    assert_eq!(Platform::MacOs.qemu_binary(), "qemu-system-aarch64");
    assert_eq!(Platform::Linux.accel(), "kvm");
    assert_eq!(Platform::Windows.accel(), "whpx");
    assert_eq!(Platform::Linux.firmware_candidates().len(), 0);
    assert_eq!(Platform::MacOs.installer(), Some(strs(&["brew", "install", "qemu"])));
    assert_eq!(Platform::Linux.installer(), None);
    assert_eq!(orbit_vm::platform::vnc_url(5901), "vnc://localhost:5901");
    assert_eq!(orbit_vm::platform::vnc_address(5900), "localhost:5900");
}

#[test]
fn home_fallback() {
    assert_eq!(orbit_vm::vm_config::home_or_default(None), "/Users/user");
    assert_eq!(orbit_vm::vm_config::home_or_default(Some("/h".to_string())), "/h");
}
