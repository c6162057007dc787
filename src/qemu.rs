use vstd::prelude::*;
use crate::catalog::{has_id, is_first_with_id, stop_record};
use crate::launch::{LaunchCommand, VNC_BASE_PORT, build_launch_command, launch_args};
use crate::platform::Platform;
use crate::registry::ProcessRegistry;
use crate::text::views;
use crate::vm_config::{VMConfig, VMStatus};

verus! {

/// The ways an operation on a VM can fail.
#[derive(Debug, Clone, PartialEq, Eq)]
pub enum VmError {
    /// No VM record has the id asked for.
    NotFound,
    /// The VM already has a live engine process.
    AlreadyRunning,
    /// An external tool could not be started.
    ToolInvocation(String),
    /// An external tool ran and failed; its standard error, verbatim.
    ToolExecution(String),
    /// Reading or writing a file failed.
    Io(String),
}

impl VmError {
    /// A human-readable message.
    pub fn message(&self) -> (r: String)
        ensures
            *self == VmError::NotFound ==> r@ == "VM not found"@,
            *self == VmError::AlreadyRunning ==> r@ == "VM is already running"@,
            self matches VmError::ToolInvocation(m) ==> r@ == m@,
            self matches VmError::ToolExecution(m) ==> r@ == m@,
            self matches VmError::Io(m) ==> r@ == m@,
    {
        match self {
            VmError::NotFound => String::from_str("VM not found"),
            VmError::AlreadyRunning => String::from_str("VM is already running"),
            VmError::ToolInvocation(m) => m.clone(),
            VmError::ToolExecution(m) => m.clone(),
            VmError::Io(m) => m.clone(),
        }
    }
}

/// A record after its engine process was started with its display on `port`.
pub open spec fn started(c: VMConfig, port: u16) -> VMConfig {
    VMConfig { status: VMStatus::Running, vnc_port: Some(port), ..c }
}

/// A record after its VM was stopped.
pub open spec fn stopped(c: VMConfig) -> VMConfig {
    VMConfig { status: VMStatus::Stopped, vnc_port: None, ..c }
}

/// Clears the running state of a record.
pub fn mark_stopped(config: &mut VMConfig)
    ensures
        *final(config) == stopped(*old(config)),
{
    config.status = VMStatus::Stopped;
    config.vnc_port = None;
}

/// Starting a VM records it as running on the port it was given, and the
/// matching stop, whether or not a process was still registered, records it
/// as stopped with no port; identity and hardware are kept throughout.
pub proof fn lemma_start_then_stop(c: VMConfig, port: u16)
    ensures
        started(c, port).status == VMStatus::Running,
        started(c, port).vnc_port == Some(port),
        started(c, port).wf(),
        stopped(started(c, port)).status == VMStatus::Stopped,
        stopped(started(c, port)).vnc_port is None,
        stopped(started(c, port)).wf(),
        stopped(started(c, port)) == stopped(c),
        stopped(stopped(c)) == stopped(c),
{
}

/// Starts and stops engine processes for VMs on one host platform, and keeps
/// the table of those that are live.
pub struct QemuManager<H> {
    processes: ProcessRegistry<H>,
    platform: Platform,
}

impl<H> QemuManager<H> {
    pub closed spec fn wf(&self) -> bool {
        self.processes.wf()
    }

    /// The id of each VM with a live process, mapped to its handle.
    pub closed spec fn running(&self) -> Map<Seq<char>, H> {
        self.processes.view()
    }

    pub closed spec fn platform_spec(&self) -> Platform {
        self.platform
    }

    /// A manager with no live processes.
    pub fn new(platform: Platform) -> (r: Self)
        ensures
            r.wf(),
            r.running() == Map::<Seq<char>, H>::empty(),
            r.platform_spec() == platform,
    {
        QemuManager { processes: ProcessRegistry::new(), platform }
    }

    /// The host platform this manager launches for.
    pub fn platform(&self) -> (r: Platform)
        ensures
            r == self.platform_spec(),
    {
        self.platform
    }

    /// Whether the VM `id` has a live process.
    pub fn is_running(&self, id: &str) -> (r: bool)
        requires
            self.wf(),
        ensures
            r == self.running().contains_key(id@),
    {
        self.processes.contains(id)
    }

    /// The engine command that starts `config` with its display on
    /// `vnc_port`; a VM that already has a live process is refused.
    /// `firmware_present` reports which firmware candidates exist.
    pub fn launch_command(&self, config: &VMConfig, vnc_port: u16, firmware_present: &Vec<bool>) -> (r: Result<LaunchCommand, VmError>)
        requires
            self.wf(),
            vnc_port >= VNC_BASE_PORT,
        ensures
            self.running().contains_key(config.id@) ==> r == Err::<LaunchCommand, VmError>(VmError::AlreadyRunning),
            !self.running().contains_key(config.id@) ==> (r matches Ok(cmd) && cmd.program@ == self.platform_spec().binary_spec()
                && views(cmd.args@) == launch_args(*config, self.platform_spec(), vnc_port, firmware_present@)),
    {
        if self.processes.contains(config.id.as_str()) {
            Err(VmError::AlreadyRunning)
        } else {
            Ok(build_launch_command(config, self.platform, vnc_port, firmware_present))
        }
    }

    /// Records the engine process `child`, spawned for `config` with its
    /// display on `vnc_port`, and marks the record running on that port. A VM
    /// that already has a live process is refused, and `child` given back.
    pub fn start_vm(&mut self, config: &mut VMConfig, vnc_port: u16, child: H) -> (r: Result<u16, H>)
        requires
            old(self).wf(),
        ensures
            final(self).wf(),
            final(self).platform_spec() == old(self).platform_spec(),
            old(self).running().contains_key(old(config).id@) ==> r == Err::<u16, H>(child)
                && *final(config) == *old(config) && final(self).running() == old(self).running(),
            !old(self).running().contains_key(old(config).id@) ==> r == Ok::<u16, H>(vnc_port)
                && *final(config) == started(*old(config), vnc_port)
                && final(self).running() == old(self).running().insert(old(config).id@, child),
    {
        match self.processes.insert(config.id.clone(), child) {
            Err(c) => Err(c),
            Ok(()) => {
                config.status = VMStatus::Running;
                config.vnc_port = Some(vnc_port);
                Ok(vnc_port)
            },
        }
    }

    /// Takes the live process of `id` out of the table, for the caller to
    /// terminate; with none, nothing changes.
    pub fn stop_vm(&mut self, id: &str) -> (r: Option<H>)
        requires
            old(self).wf(),
        ensures
            final(self).wf(),
            final(self).platform_spec() == old(self).platform_spec(),
            final(self).running() == old(self).running().remove(id@),
            old(self).running().contains_key(id@) ==> r == Some(old(self).running()[id@]),
            !old(self).running().contains_key(id@) ==> r is None,
    {
        self.processes.remove(id)
    }

    /// Stops VM `id`: takes its live process out of the table, if it has
    /// one, for the caller to terminate, and marks its record stopped whether
    /// or not a process was registered.
    pub fn stop_and_clear(&mut self, vms: &mut Vec<VMConfig>, id: &str) -> (r: Option<H>)
        requires
            old(self).wf(),
        ensures
            final(self).wf(),
            final(self).platform_spec() == old(self).platform_spec(),
            final(self).running() == old(self).running().remove(id@),
            old(self).running().contains_key(id@) ==> r == Some(old(self).running()[id@]),
            !old(self).running().contains_key(id@) ==> r is None,
            final(vms)@.len() == old(vms)@.len(),
            !has_id(old(vms)@, id@) ==> final(vms)@ == old(vms)@,
            forall|i: int| is_first_with_id(old(vms)@, id@, i) ==> final(vms)@ == old(vms)@.update(i, stopped(old(vms)@[i])),
    {
        let r = self.stop_vm(id);
        let k = stop_record(vms, id);
        proof {
            if let Some(j) = k {
                assert forall|i: int| is_first_with_id(old(vms)@, id@, i) implies i == j as int by {
                    if i < j {
                        assert(old(vms)@[i].id@ != id@);
                    } else if j < i {
                        assert(old(vms)@[j as int].id@ != id@);
                    }
                }
            }
        }
        r
    }
}

} // verus!
