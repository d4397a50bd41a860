//! The Firecracker cold-boot sandbox: per-iteration network identity, the
//! rendered VM configuration, and the exact command lines the host runs.
//! Spawning the VMM and running the network scripts stay outside the
//! library.

use vstd::prelude::*;
use vstd::string::*;
use vstd::utf8::encode_utf8;
use crate::numfmt::dec_chars;
use crate::numfmt::hex2_chars;
use crate::numfmt::u64_to_string;
use crate::template::replace_all;
use crate::template::replace_all_bytes;
use crate::uid::fresh_instance_id;

verus! {

/// The harness spends one IP offset per address: `1 + 2i` for the tap
/// side, `2 + 2i` for the guest, refusing iterations whose offsets do not
/// fit two octets.
pub open spec fn offset_in_range(offset: nat) -> bool {
    offset < 65536
}

/// The second-to-last address octet for an offset. The wrapped value is
/// divided once more by 256, so it is zero for every offset in range;
/// the formula is kept as the harness computes it.
pub open spec fn second_prefix(offset: nat) -> nat {
    (offset % 256) / 256
}

/// The last address octet for an offset.
pub open spec fn last_prefix(offset: nat) -> nat {
    offset % 256
}

/// The tap-side IP for iteration `i`: `172.16.x.y` from offset `1 + 2i`.
pub open spec fn tap_ip_chars(i: nat) -> Seq<char> {
    "172.16."@ + dec_chars(second_prefix(1 + 2 * i)) + "."@ + dec_chars(last_prefix(1 + 2 * i))
}

/// The guest IP for iteration `i`: `172.16.x.y` from offset `2 + 2i`.
pub open spec fn guest_ip_chars(i: nat) -> Seq<char> {
    "172.16."@ + dec_chars(second_prefix(2 + 2 * i)) + "."@ + dec_chars(last_prefix(2 + 2 * i))
}

/// The guest MAC for iteration `i`: `06:00:AC:10:` and the two octets of
/// offset `2 + 2i` in hexadecimal.
pub open spec fn mac_chars(i: nat) -> Seq<char> {
    "06:00:AC:10:"@ + hex2_chars(second_prefix(2 + 2 * i) as u8) + ":"@ + hex2_chars(
        last_prefix(2 + 2 * i) as u8,
    )
}

/// The tap device name for iteration `i`: `tap{i}`.
pub open spec fn tap_name_chars(i: nat) -> Seq<char> {
    "tap"@ + dec_chars(i)
}

/// The tap and guest addresses of one iteration never coincide, and while
/// the guest offset stays under 256 both addresses lie in `172.16.0.0/24`;
/// for larger offsets in range both still lie in `172.16.0.0/16`, the
/// first two octets being fixed.
pub proof fn lemma_identity_distinct(i: nat)
    requires
        offset_in_range(2 + 2 * i),
    ensures
        last_prefix(1 + 2 * i) != last_prefix(2 + 2 * i),
        2 + 2 * i < 256 ==> second_prefix(1 + 2 * i) == 0 && second_prefix(2 + 2 * i) == 0,
        second_prefix(1 + 2 * i) == 0 && second_prefix(2 + 2 * i) == 0,
{
    let a = 1 + 2 * i;
    let b = 2 + 2 * i;
    assert(b % 256 == (a % 256 + 1) % 256) by (nonlinear_arith)
        requires
            b == a + 1,
    ;
    assert(a % 256 < 256) by (nonlinear_arith);
    assert((a % 256) / 256 == 0) by (nonlinear_arith)
        requires
            0 <= a % 256 < 256,
    ;
    assert((b % 256) / 256 == 0) by (nonlinear_arith)
        requires
            0 <= b % 256 < 256,
    ;
}

/// The tap-side and guest IP strings of one iteration never coincide.
pub proof fn lemma_identity_ips_differ(i: nat)
    requires
        offset_in_range(2 + 2 * i),
    ensures
        tap_ip_chars(i) != guest_ip_chars(i),
{
    lemma_identity_distinct(i);
    let l1 = last_prefix(1 + 2 * i);
    let l2 = last_prefix(2 + 2 * i);
    let p = "172.16."@ + dec_chars(0) + "."@;
    assert(tap_ip_chars(i) =~= p + dec_chars(l1));
    assert(guest_ip_chars(i) =~= p + dec_chars(l2));
    crate::numfmt::lemma_dec_chars_injective(l1, l2);
    if tap_ip_chars(i) == guest_ip_chars(i) {
        let n = p.len() as int;
        assert(dec_chars(l1) =~= tap_ip_chars(i).subrange(n, tap_ip_chars(i).len() as int));
        assert(dec_chars(l2) =~= guest_ip_chars(i).subrange(n, guest_ip_chars(i).len() as int));
    }
}

proof fn lemma_nonempty_ascii_bytes(s: Seq<char>)
    requires
        vstd::utf8::is_ascii_chars(s),
        s.len() > 0,
    ensures
        encode_utf8(s).len() == s.len(),
{
    vstd::utf8::is_ascii_chars_encode_utf8(s);
}

/// The file paths and scripts a Firecracker instance is built from, read
/// from the harness configuration.
pub struct FirecrackerConfig {
    pub firecracker_binary_dir: String,
    pub firecracker_socket_prefix: String,
    pub config_file_template: String,
    pub network_setup_file: String,
    pub network_cleanup_file: String,
}

/// One Firecracker instance: its identity, iteration and derived paths.
pub struct Firecracker {
    pub id: String,
    pub config: FirecrackerConfig,
    pub iteration: usize,
    pub log_location: String,
    pub vm_config_location: String,
}

impl Firecracker {
    /// Every iteration this instance can carry keeps both IP offsets in
    /// range.
    pub open spec fn wf(&self) -> bool {
        2 + 2 * (self.iteration as nat) < 65536
    }

    /// Builds the instance for one iteration: a fresh identity, the log
    /// path `<bindir>/firecracker_<id>.log` and the VM config path
    /// `<bindir>/vm_config_<id>.json`.
    pub fn new(config: FirecrackerConfig, iteration: usize) -> (r: Self)
        requires
            2 + 2 * (iteration as nat) < 65536,
        ensures
            r.wf(),
            r.iteration == iteration,
            r.config == config,
            r.id@.len() == 36,
            r.log_location@ == config.firecracker_binary_dir@ + "/firecracker_"@ + r.id@ + ".log"@,
            r.vm_config_location@ == config.firecracker_binary_dir@ + "/vm_config_"@ + r.id@
                + ".json"@,
    {
        let id = fresh_instance_id();
        let mut log_location = config.firecracker_binary_dir.clone();
        log_location.append("/firecracker_");
        log_location.append(id.as_str());
        log_location.append(".log");
        let mut vm_config_location = config.firecracker_binary_dir.clone();
        vm_config_location.append("/vm_config_");
        vm_config_location.append(id.as_str());
        vm_config_location.append(".json");
        Firecracker { id, config, iteration, log_location, vm_config_location }
    }

    /// The fixed gateway address of the tap network.
    pub fn get_gateway_ip(&self) -> (r: String)
        ensures
            r@ == "172.16.0.1"@,
    {
        "172.16.0.1".to_owned()
    }

    /// The two final address octets for an IP offset.
    pub fn get_prefixes(&self, offset: usize) -> (r: (u8, u8))
        requires
            offset < 65536,
        ensures
            r.0 == second_prefix(offset as nat),
            r.1 == last_prefix(offset as nat),
    {
        let last: usize = offset % 256;
        let second: usize = last / 256;
        (second as u8, last as u8)
    }

    /// The tap-side IP of this iteration.
    pub fn get_tap_ip(&self) -> (r: String)
        requires
            self.wf(),
        ensures
            r@ == tap_ip_chars(self.iteration as nat),
    {
        let offset = 1 + 2 * self.iteration;
        let (second, last) = self.get_prefixes(offset);
        let mut s: String = "172.16.".to_owned();
        s.append(u64_to_string(second as u64).as_str());
        s.append(".");
        s.append(u64_to_string(last as u64).as_str());
        s
    }

    /// The guest IP of this iteration, where the workload answers.
    pub fn get_target_ip(&self) -> (r: String)
        requires
            self.wf(),
        ensures
            r@ == guest_ip_chars(self.iteration as nat),
    {
        let offset = 2 + 2 * self.iteration;
        let (second, last) = self.get_prefixes(offset);
        let mut s: String = "172.16.".to_owned();
        s.append(u64_to_string(second as u64).as_str());
        s.append(".");
        s.append(u64_to_string(last as u64).as_str());
        s
    }

    /// The guest MAC address of this iteration.
    pub fn get_mac_address(&self) -> (r: String)
        requires
            self.wf(),
        ensures
            r@ == mac_chars(self.iteration as nat),
    {
        let offset = 2 + 2 * self.iteration;
        let (second, last) = self.get_prefixes(offset);
        let mut s: String = "06:00:AC:10:".to_owned();
        s.append(crate::numfmt::u8_to_hex2(second).as_str());
        s.append(":");
        s.append(crate::numfmt::u8_to_hex2(last).as_str());
        s
    }

    /// The tap device name `tap{i}` of this iteration.
    pub fn tap_device(&self) -> (r: String)
        ensures
            r@ == tap_name_chars(self.iteration as nat),
    {
        let mut s: String = "tap".to_owned();
        s.append(u64_to_string(self.iteration as u64).as_str());
        s
    }

    /// The port the guest workload listens on.
    pub fn get_target_port(&self) -> (r: u16)
        ensures
            r == 8080,
    {
        8080
    }

    /// The label this variant carries in the emitted samples.
    pub fn get_name(&self) -> (r: String)
        ensures
            r@ == "Firecracker"@,
    {
        "Firecracker".to_owned()
    }

    /// The control socket path `<prefix><id>.socket`.
    pub fn socket_addr(&self) -> (r: String)
        ensures
            r@ == self.config.firecracker_socket_prefix@ + self.id@ + ".socket"@,
    {
        let mut s = self.config.firecracker_socket_prefix.clone();
        s.append(self.id.as_str());
        s.append(".socket");
        s
    }

    /// The argument list that boots this instance: the VMM binary, its
    /// config file, and the control socket.
    pub fn start_command(&self) -> (r: Vec<String>)
        ensures
            r@.len() == 5,
            r@[0]@ == self.config.firecracker_binary_dir@ + "/firecracker"@,
            r@[1]@ == "--config-file"@,
            r@[2]@ == self.vm_config_location@,
            r@[3]@ == "--api-sock"@,
            r@[4]@ == self.config.firecracker_socket_prefix@ + self.id@ + ".socket"@,
    {
        let mut binary = self.config.firecracker_binary_dir.clone();
        binary.append("/firecracker");
        let mut r: Vec<String> = Vec::new();
        r.push(binary);
        r.push("--config-file".to_owned());
        r.push(self.vm_config_location.clone());
        r.push("--api-sock".to_owned());
        r.push(self.socket_addr());
        r
    }

    /// The one-line shell command that sets up host networking:
    /// `<script> tap{i} <tap_ip> <guest_ip>`.
    pub fn setup_command(&self) -> (r: String)
        requires
            self.wf(),
        ensures
            r@ == self.config.network_setup_file@ + " "@ + tap_name_chars(self.iteration as nat)
                + " "@ + tap_ip_chars(self.iteration as nat) + " "@ + guest_ip_chars(
                self.iteration as nat,
            ),
    {
        let mut s = self.config.network_setup_file.clone();
        s.append(" ");
        s.append(self.tap_device().as_str());
        s.append(" ");
        s.append(self.get_tap_ip().as_str());
        s.append(" ");
        s.append(self.get_target_ip().as_str());
        s
    }

    /// The argument list that tears host networking down:
    /// `<script> tap{i} <guest_ip>`.
    pub fn cleanup_command(&self) -> (r: Vec<String>)
        requires
            self.wf(),
        ensures
            r@.len() == 3,
            r@[0]@ == self.config.network_cleanup_file@,
            r@[1]@ == tap_name_chars(self.iteration as nat),
            r@[2]@ == guest_ip_chars(self.iteration as nat),
    {
        let mut r: Vec<String> = Vec::new();
        r.push(self.config.network_cleanup_file.clone());
        r.push(self.tap_device());
        r.push(self.get_target_ip());
        r
    }

    /// The per-instance VMM process log path
    /// `/tmp/firecracker_<id>_<iteration>.<suffix>`.
    pub fn process_log_path(&self, suffix: &str) -> (r: String)
        ensures
            r@ == "/tmp/firecracker_"@ + self.id@ + "_"@ + dec_chars(self.iteration as nat) + "."@
                + suffix@,
    {
        let mut s: String = "/tmp/firecracker_".to_owned();
        s.append(self.id.as_str());
        s.append("_");
        s.append(u64_to_string(self.iteration as u64).as_str());
        s.append(".");
        s.append(suffix);
        s
    }

    /// The instance's VM configuration: the template with the five
    /// placeholders replaced, in the order the harness applies them.
    pub fn render_vm_config(&self, template: &Vec<u8>) -> (r: Vec<u8>)
        requires
            self.wf(),
        ensures
            r@ =~= replace_all(
                replace_all(
                    replace_all(
                        replace_all(
                            replace_all(
                                template@,
                                encode_utf8("{{guest_ip}}"@),
                                encode_utf8(guest_ip_chars(self.iteration as nat)),
                            ),
                            encode_utf8("{{tap_ip}}"@),
                            encode_utf8(tap_ip_chars(self.iteration as nat)),
                        ),
                        encode_utf8("{{tap_id}}"@),
                        encode_utf8(tap_name_chars(self.iteration as nat)),
                    ),
                    encode_utf8("{{mac_address}}"@),
                    encode_utf8(mac_chars(self.iteration as nat)),
                ),
                encode_utf8("{{firecracker_log_location}}"@),
                encode_utf8(self.log_location@),
            ),
    {
        let pat_guest = "{{guest_ip}}".as_bytes_vec();
        let pat_tap = "{{tap_ip}}".as_bytes_vec();
        let pat_id = "{{tap_id}}".as_bytes_vec();
        let pat_mac = "{{mac_address}}".as_bytes_vec();
        let pat_log = "{{firecracker_log_location}}".as_bytes_vec();
        proof {
            reveal_strlit("{{guest_ip}}");
            reveal_strlit("{{tap_ip}}");
            reveal_strlit("{{tap_id}}");
            reveal_strlit("{{mac_address}}");
            reveal_strlit("{{firecracker_log_location}}");
            lemma_nonempty_ascii_bytes("{{guest_ip}}"@);
            lemma_nonempty_ascii_bytes("{{tap_ip}}"@);
            lemma_nonempty_ascii_bytes("{{tap_id}}"@);
            lemma_nonempty_ascii_bytes("{{mac_address}}"@);
            lemma_nonempty_ascii_bytes("{{firecracker_log_location}}"@);
        }
        let r1 = replace_all_bytes(
            template,
            &pat_guest,
            &self.get_target_ip().as_str().as_bytes_vec(),
        );
        let r2 = replace_all_bytes(&r1, &pat_tap, &self.get_tap_ip().as_str().as_bytes_vec());
        let r3 = replace_all_bytes(&r2, &pat_id, &self.tap_device().as_str().as_bytes_vec());
        let r4 = replace_all_bytes(&r3, &pat_mac, &self.get_mac_address().as_str().as_bytes_vec());
        let log_bytes = self.log_location.as_str().as_bytes_vec();
        let r5 = replace_all_bytes(&r4, &pat_log, &log_bytes);
        r5
    }
}

} // verus!
