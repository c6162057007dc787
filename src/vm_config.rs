use vstd::prelude::*;
use crate::text::{join_path, joined};

verus! {

/// Whether a VM's engine process is declared to be running.
#[derive(Debug, Clone, Copy, PartialEq, Eq, Structural)]
pub enum VMStatus {
    Stopped,
    Running,
}

impl Default for VMStatus {
    fn default() -> (r: Self)
        ensures
            r == VMStatus::Stopped,
    {
        VMStatus::Stopped
    }
}

/// A user-defined grouping of VMs.
#[derive(Debug, Clone)]
pub struct Space {
    pub id: String,
    pub name: String,
    pub icon: String,
    pub description: Option<String>,
}

/// A VM's declared and observed state.
#[derive(Debug, Clone)]
pub struct VMConfig {
    pub id: String,
    pub name: String,
    pub space_id: String,
    pub cpu_cores: u32,
    pub ram_mb: u32,
    pub disk_path: String,
    pub iso_path: Option<String>,
    pub arch: String,
    pub status: VMStatus,
    pub vnc_port: Option<u16>,
}

impl VMConfig {
    /// A display port is recorded exactly while the VM is running.
    pub open spec fn wf(&self) -> bool {
        self.vnc_port is Some <==> self.status == VMStatus::Running
    }
}

impl Space {
    /// The space that stands in when none has been saved.
    pub fn default_space() -> (r: Space)
        ensures
            r.id@ == "default"@,
            r.name@ == "Default"@,
            r.icon@ == "folder"@,
            r.description matches Some(d) && d@ == "Your personal VMs"@,
    {
        Space {
            id: String::from_str("default"),
            name: String::from_str("Default"),
            icon: String::from_str("folder"),
            description: Some(String::from_str("Your personal VMs")),
        }
    }
}

pub open spec fn opt_view(o: Option<String>) -> Option<Seq<char>> {
    match o {
        Some(s) => Some(s@),
        None => None,
    }
}

/// The configuration directory under a home directory, or under the working
/// directory when there is no home directory.
pub open spec fn config_path(home: Option<Seq<char>>) -> Seq<char> {
    let base = match home {
        Some(h) => h,
        None => "."@,
    };
    joined(joined(base, ".config"@), "orbit-vm"@)
}

/// Relies on `dirs::home_dir`: the user's home directory if the platform
/// reports one (converted lossily where it is not UTF-8). It depends on the
/// environment, so nothing is promised of it.
#[verifier::external_body]
fn home_dir() -> (r: Option<String>) {
    match dirs::home_dir() {
        Some(p) => Some(p.to_string_lossy().into_owned()),
        None => None,
    }
}

impl VMConfig {
    /// The configuration directory for a given home directory.
    pub fn config_dir_in(home: Option<String>) -> (r: String)
        ensures
            r@ == config_path(opt_view(home)),
    {
        let base = match home {
            Some(h) => h,
            None => String::from_str("."),
        };
        join_path(join_path(base.as_str(), ".config").as_str(), "orbit-vm")
    }

    /// The configuration directory of the current user.
    pub fn config_dir() -> (r: String)
        ensures
            exists|h: Option<Seq<char>>| r@ == config_path(h),
    {
        let home = home_dir();
        let r = Self::config_dir_in(home);
        assert(r@ == config_path(opt_view(home)));
        r
    }

    /// The directory that holds one record file per VM.
    pub fn vms_dir() -> (r: String)
        ensures
            exists|h: Option<Seq<char>>| r@ == joined(config_path(h), "vms"@),
    {
        let d = Self::config_dir();
        let ghost h = choose|h: Option<Seq<char>>| d@ == config_path(h);
        let r = join_path(d.as_str(), "vms");
        assert(r@ == joined(config_path(h), "vms"@));
        r
    }

    /// The file that holds all spaces.
    pub fn spaces_file() -> (r: String)
        ensures
            exists|h: Option<Seq<char>>| r@ == joined(config_path(h), "spaces.json"@),
    {
        let d = Self::config_dir();
        let ghost h = choose|h: Option<Seq<char>>| d@ == config_path(h);
        let r = join_path(d.as_str(), "spaces.json");
        assert(r@ == joined(config_path(h), "spaces.json"@));
        r
    }

    /// The name of the file that holds the record of VM `id`.
    pub fn record_file_name(id: &str) -> (r: String)
        ensures
            r@ == id@ + ".json"@,
    {
        String::from_str(id).concat(".json")
    }
}

/// `home`, or the stand-in used when the platform reports no home directory.
pub fn home_or_default(home: Option<String>) -> (r: String)
    ensures
        home is Some ==> r == home->0,
        home is None ==> r@ == "/Users/user"@,
{
    match home {
        Some(h) => h,
        None => String::from_str("/Users/user"),
    }
}

/// The user's home directory, or a stand-in when the platform reports none.
pub fn get_home_dir() -> String {
    home_or_default(home_dir())
}

} // verus!
