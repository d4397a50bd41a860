//! The native-process sandbox: the workload binary run directly on the
//! host, listening on the configured address with the port offset by the
//! iteration so that concurrent instances never collide.

use vstd::prelude::*;
use vstd::string::*;
use crate::numfmt::dec_chars;
use crate::uid::fresh_instance_id;

verus! {

/// What a process instance is built from.
pub struct ProcessConfig {
    pub ip: String,
    pub port: u16,
    pub binary_path: String,
    pub output_dir: String,
}

/// One process instance; its port is already offset by the iteration.
pub struct Process {
    pub id: String,
    pub config: ProcessConfig,
    pub iteration: usize,
}

impl Process {
    /// Builds the instance for one iteration: the listen port becomes
    /// `base + iteration`.
    pub fn new(config: ProcessConfig, iteration: usize) -> (r: Self)
        requires
            config.port + iteration <= u16::MAX,
        ensures
            r.iteration == iteration,
            r.id@.len() == 36,
            r.config.ip == config.ip,
            r.config.binary_path == config.binary_path,
            r.config.output_dir == config.output_dir,
            r.config.port == config.port + iteration,
    {
        let port = config.port + (iteration as u16);
        let id = fresh_instance_id();
        Process {
            id,
            config: ProcessConfig {
                ip: config.ip,
                port,
                binary_path: config.binary_path,
                output_dir: config.output_dir,
            },
            iteration,
        }
    }

    /// The `ip:port` address the workload listens on.
    pub fn sockaddr(&self) -> (r: String)
        ensures
            r@ == self.config.ip@ + ":"@ + dec_chars(self.config.port as nat),
    {
        let mut s = self.config.ip.clone();
        s.append(":");
        s.append(crate::numfmt::u64_to_string(self.config.port as u64).as_str());
        s
    }

    /// The argument list that starts the workload:
    /// `<binary> -listen <ip:port>`.
    pub fn start_command(&self) -> (r: Vec<String>)
        ensures
            r@.len() == 3,
            r@[0]@ == self.config.binary_path@,
            r@[1]@ == "-listen"@,
            r@[2]@ == self.config.ip@ + ":"@ + dec_chars(self.config.port as nat),
    {
        let mut r: Vec<String> = Vec::new();
        r.push(self.config.binary_path.clone());
        r.push("-listen".to_owned());
        r.push(self.sockaddr());
        r
    }

    /// The per-instance log path
    /// `<output_dir>/process<id>-<iteration><suffix>`.
    pub fn log_path(&self, suffix: &str) -> (r: String)
        ensures
            r@ == self.config.output_dir@ + "/process"@ + self.id@ + "-"@ + dec_chars(
                self.iteration as nat,
            ) + suffix@,
    {
        let mut s = self.config.output_dir.clone();
        s.append("/process");
        s.append(self.id.as_str());
        s.append("-");
        s.append(crate::numfmt::u64_to_string(self.iteration as u64).as_str());
        s.append(suffix);
        s
    }

    /// The address the harness probes and sends requests to.
    pub fn get_target_ip(&self) -> (r: String)
        ensures
            r@ == self.config.ip@,
    {
        self.config.ip.clone()
    }

    /// The listen port of this iteration.
    pub fn get_target_port(&self) -> (r: u16)
        ensures
            r == self.config.port,
    {
        self.config.port
    }

    /// The label this variant carries in the emitted samples.
    pub fn get_name(&self) -> (r: String)
        ensures
            r@ == "Process"@,
    {
        "Process".to_owned()
    }
}

/// Two live process instances of different iterations listen on
/// different ports.
pub proof fn lemma_process_ports_distinct(base: int, i: int, j: int)
    requires
        i != j,
    ensures
        base + i != base + j,
{
}

} // verus!
