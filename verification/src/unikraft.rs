//! The Unikraft sandbox: a unikernel run under QEMU through `kraft`, with
//! the guest port published on a host port of the loopback interface.

use vstd::prelude::*;
use vstd::string::*;
use crate::numfmt::dec_chars;
use crate::uid::fresh_instance_id;

verus! {

/// What a Unikraft instance is built from.
pub struct UnikraftConfig {
    pub guest_port: u16,
    pub host_port: u16,
    pub run_dir: String,
    pub memory: String,
    pub output_dir: String,
}

/// One Unikraft instance.
pub struct Unikraft {
    pub id: String,
    pub config: UnikraftConfig,
    pub iteration: u16,
}

impl Unikraft {
    /// Builds the instance for one iteration with a fresh identity.
    pub fn new(config: UnikraftConfig, iteration: u16) -> (r: Self)
        ensures
            r.config == config,
            r.iteration == iteration,
            r.id@.len() == 36,
    {
        let id = fresh_instance_id();
        Unikraft { id, config, iteration }
    }

    /// The argument list that boots the unikernel, run inside the guest
    /// run directory: `kraft run --rm --plat qemu --arch x86_64 -p
    /// <host>:<guest> --memory <memory> .`.
    pub fn start_command(&self) -> (r: Vec<String>)
        ensures
            r@.len() == 12,
            r@[0]@ == "kraft"@,
            r@[1]@ == "run"@,
            r@[2]@ == "--rm"@,
            r@[3]@ == "--plat"@,
            r@[4]@ == "qemu"@,
            r@[5]@ == "--arch"@,
            r@[6]@ == "x86_64"@,
            r@[7]@ == "-p"@,
            r@[8]@ == dec_chars(self.config.host_port as nat) + ":"@ + dec_chars(
                self.config.guest_port as nat,
            ),
            r@[9]@ == "--memory"@,
            r@[10]@ == self.config.memory@,
            r@[11]@ == "."@,
    {
        let mut ports = crate::numfmt::u64_to_string(self.config.host_port as u64);
        ports.append(":");
        ports.append(crate::numfmt::u64_to_string(self.config.guest_port as u64).as_str());
        let mut r: Vec<String> = Vec::new();
        r.push("kraft".to_owned());
        r.push("run".to_owned());
        r.push("--rm".to_owned());
        r.push("--plat".to_owned());
        r.push("qemu".to_owned());
        r.push("--arch".to_owned());
        r.push("x86_64".to_owned());
        r.push("-p".to_owned());
        r.push(ports);
        r.push("--memory".to_owned());
        r.push(self.config.memory.clone());
        r.push(".".to_owned());
        r
    }

    /// The argument list that discards every stopped unikernel after a
    /// kill: `kraft rm --all`.
    pub fn kill_command(&self) -> (r: Vec<String>)
        ensures
            r@.len() == 3,
            r@[0]@ == "kraft"@,
            r@[1]@ == "rm"@,
            r@[2]@ == "--all"@,
    {
        let mut r: Vec<String> = Vec::new();
        r.push("kraft".to_owned());
        r.push("rm".to_owned());
        r.push("--all".to_owned());
        r
    }

    /// The per-instance log path
    /// `<output_dir>/unikraft<id>-<iteration><suffix>`.
    pub fn log_path(&self, suffix: &str) -> (r: String)
        ensures
            r@ == self.config.output_dir@ + "/unikraft"@ + self.id@ + "-"@ + dec_chars(
                self.iteration as nat,
            ) + suffix@,
    {
        let mut s = self.config.output_dir.clone();
        s.append("/unikraft");
        s.append(self.id.as_str());
        s.append("-");
        s.append(crate::numfmt::u64_to_string(self.iteration as u64).as_str());
        s.append(suffix);
        s
    }

    /// The unikernel is reached over loopback.
    pub fn get_target_ip(&self) -> (r: String)
        ensures
            r@ == "127.0.0.1"@,
    {
        "127.0.0.1".to_owned()
    }

    /// The published host port.
    pub fn get_target_port(&self) -> (r: u16)
        ensures
            r == self.config.host_port,
    {
        self.config.host_port
    }

    /// The label this variant carries in the emitted samples.
    pub fn get_name(&self) -> (r: String)
        ensures
            r@ == "Unikraft"@,
    {
        "Unikraft".to_owned()
    }
}

} // verus!
