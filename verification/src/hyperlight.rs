//! The Hyperlight sandbox as the benchmark sees it: a host-server binary
//! spawned with a guest binary, probed on its listen address, and warmed
//! with one empty POST. The host-server's own logic lives in the server
//! module; here stands the harness side.

use vstd::prelude::*;
use vstd::string::*;
use crate::numfmt::dec_chars;
use crate::uid::fresh_instance_id;

verus! {

/// What a Hyperlight benchmark instance is built from.
pub struct HyperlightConfig {
    pub guest_binary: String,
    pub host_binary: String,
    pub listen_ip: String,
    pub listen_port: u16,
    pub output_dir: String,
}

/// One Hyperlight benchmark instance.
pub struct Hyperlight {
    pub id: String,
    pub config: HyperlightConfig,
    pub iteration: u16,
}

impl Hyperlight {
    /// Builds the instance for one iteration with a fresh identity.
    pub fn new(config: HyperlightConfig, iteration: u16) -> (r: Self)
        ensures
            r.config == config,
            r.iteration == iteration,
            r.id@.len() == 36,
    {
        let id = fresh_instance_id();
        Hyperlight { id, config, iteration }
    }

    /// The `ip:port` address the host-server listens on.
    pub fn listen_addr(&self) -> (r: String)
        ensures
            r@ == self.config.listen_ip@ + ":"@ + dec_chars(self.config.listen_port as nat),
    {
        let mut s = self.config.listen_ip.clone();
        s.append(":");
        s.append(crate::numfmt::u64_to_string(self.config.listen_port as u64).as_str());
        s
    }

    /// The argument list that starts the host-server:
    /// `<host> -listen <ip:port> -guest <guest>`.
    pub fn presetup_command(&self) -> (r: Vec<String>)
        ensures
            r@.len() == 5,
            r@[0]@ == self.config.host_binary@,
            r@[1]@ == "-listen"@,
            r@[2]@ == self.config.listen_ip@ + ":"@ + dec_chars(self.config.listen_port as nat),
            r@[3]@ == "-guest"@,
            r@[4]@ == self.config.guest_binary@,
    {
        let mut r: Vec<String> = Vec::new();
        r.push(self.config.host_binary.clone());
        r.push("-listen".to_owned());
        r.push(self.listen_addr());
        r.push("-guest".to_owned());
        r.push(self.config.guest_binary.clone());
        r
    }

    /// The per-instance log path
    /// `<output_dir>/hyperlight<id>-<iteration><suffix>`.
    pub fn log_path(&self, suffix: &str) -> (r: String)
        ensures
            r@ == self.config.output_dir@ + "/hyperlight"@ + self.id@ + "-"@ + dec_chars(
                self.iteration as nat,
            ) + suffix@,
    {
        let mut s = self.config.output_dir.clone();
        s.append("/hyperlight");
        s.append(self.id.as_str());
        s.append("-");
        s.append(crate::numfmt::u64_to_string(self.iteration as u64).as_str());
        s.append(suffix);
        s
    }

    /// The address the harness probes and sends requests to.
    pub fn get_target_ip(&self) -> (r: String)
        ensures
            r@ == self.config.listen_ip@,
    {
        self.config.listen_ip.clone()
    }

    /// The host-server's listen port.
    pub fn get_target_port(&self) -> (r: u16)
        ensures
            r == self.config.listen_port,
    {
        self.config.listen_port
    }

    /// The label this variant carries in the emitted samples.
    pub fn get_name(&self) -> (r: String)
        ensures
            r@ == "Hyperlight"@,
    {
        "Hyperlight".to_owned()
    }
}

} // verus!
