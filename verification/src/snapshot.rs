//! The Firecracker snapshot-restore sandbox: the two control-socket
//! messages that load and resume a snapshot, bit for bit, and the test
//! that a control-socket answer means success. The Unix socket itself is
//! driven outside the library.

use vstd::prelude::*;
use vstd::string::*;
use crate::numfmt::dec_chars;
use crate::uid::fresh_instance_id;

verus! {

/// The JSON body of the load-snapshot request.
pub open spec fn snapshot_load_content_chars(snapshot_file: Seq<char>, mem_file: Seq<char>) -> Seq<
    char,
> {
    "{\n    \"snapshot_path\": \""@ + snapshot_file + "\",\n    \"mem_file_path\": \""@ + mem_file
        + "\"\n}"@
}

/// The fixed JSON body of the resume request.
pub open spec fn resume_content_chars() -> Seq<char> {
    "{\n    \"state\": \"Resumed\"\n}"@
}

/// A control-socket answer counts as success exactly when the bytes `204`
/// appear in it somewhere.
pub open spec fn contains_204(resp: Seq<u8>) -> bool {
    exists|i: int|
        0 <= i && i + 2 < resp.len() && #[trigger] resp[i] == 50 && resp[i + 1] == 48 && resp[i + 2]
            == 52
}

/// Reports whether a control-socket answer holds the digits `204`.
pub fn response_indicates_success(resp: &[u8]) -> (r: bool)
    ensures
        r == contains_204(resp@),
{
    let n = resp.len();
    let mut i: usize = 0;
    while i < n
        invariant
            0 <= i <= n,
            n == resp@.len(),
            forall|j: int|
                0 <= j < i ==> !(j + 2 < n && #[trigger] resp@[j] == 50 && resp@[j + 1] == 48
                    && resp@[j + 2] == 52),
        decreases n - i,
    {
        if n >= 3 && i < n - 2 && resp[i] == 50 && resp[i + 1] == 48 && resp[i + 2] == 52 {
            return true;
        }
        i = i + 1;
    }
    false
}

/// The paths a snapshot-restore instance is built from.
pub struct FirecrackerSnapshotConfig {
    pub firecracker_binary_dir: String,
    pub firecracker_socket_prefix: String,
    pub snapshot_file: String,
    pub mem_file: String,
    pub network_setup_file: String,
    pub network_cleanup_file: String,
    pub output_dir: String,
}

/// One snapshot-restore instance.
pub struct FirecrackerSnapshot {
    pub id: String,
    pub config: FirecrackerSnapshotConfig,
}

impl FirecrackerSnapshot {
    /// Builds the instance with a fresh identity.
    pub fn new(config: FirecrackerSnapshotConfig) -> (r: Self)
        ensures
            r.config == config,
            r.id@.len() == 36,
    {
        let id = fresh_instance_id();
        FirecrackerSnapshot { id, config }
    }

    /// The fixed tap-side address of this variant.
    pub fn get_tap_ip(&self) -> (r: String)
        ensures
            r@ == "172.16.0.1"@,
    {
        "172.16.0.1".to_owned()
    }

    /// The fixed guest address the restored workload answers on.
    pub fn get_target_ip(&self) -> (r: String)
        ensures
            r@ == "172.16.0.2"@,
    {
        "172.16.0.2".to_owned()
    }

    /// The port the restored workload answers on.
    pub fn get_target_port(&self) -> (r: u16)
        ensures
            r == 8080,
    {
        8080
    }

    /// The label this variant carries in the emitted samples.
    pub fn get_name(&self) -> (r: String)
        ensures
            r@ == "Firecracker-Snapshot"@,
    {
        "Firecracker-Snapshot".to_owned()
    }

    /// The control socket path `<prefix><id>.socket`.
    pub fn get_socket_addr(&self) -> (r: String)
        ensures
            r@ == self.config.firecracker_socket_prefix@ + self.id@ + ".socket"@,
    {
        let mut s = self.config.firecracker_socket_prefix.clone();
        s.append(self.id.as_str());
        s.append(".socket");
        s
    }

    /// The `PUT /snapshot/load` message: headers with a correct byte
    /// `Content-Length`, then the JSON body naming the snapshot and
    /// memory files.
    pub fn create_snapshot_load_http_string(&self) -> (r: String)
        ensures
            ({
                let content = snapshot_load_content_chars(
                    self.config.snapshot_file@,
                    self.config.mem_file@,
                );
                r@
                    == "PUT /snapshot/load HTTP/1.1\r\nHost: localhost\r\nAccept: application/json\r\nContent-Type: application/json\r\nContent-Length: "@
                    + dec_chars(vstd::utf8::encode_utf8(content).len()) + "\r\n\r\n"@ + content
            }),
    {
        let mut content: String = "{\n    \"snapshot_path\": \"".to_owned();
        content.append(self.config.snapshot_file.as_str());
        content.append("\",\n    \"mem_file_path\": \"");
        content.append(self.config.mem_file.as_str());
        content.append("\"\n}");
        let content_bytes = content.as_str().as_bytes_vec();
        let mut r: String =
            "PUT /snapshot/load HTTP/1.1\r\nHost: localhost\r\nAccept: application/json\r\nContent-Type: application/json\r\nContent-Length: ".to_owned();
        r.append(crate::numfmt::u64_to_string(content_bytes.len() as u64).as_str());
        r.append("\r\n\r\n");
        r.append(content.as_str());
        proof {
            assert(content@ =~= snapshot_load_content_chars(
                self.config.snapshot_file@,
                self.config.mem_file@,
            ));
        }
        r
    }

    /// The `PATCH /vm` message that resumes the restored machine; its
    /// `Content-Length` header carries no space after the colon.
    pub fn create_resume_http_string(&self) -> (r: String)
        ensures
            r@
                == "PATCH /vm HTTP/1.1\r\nAccept: application/json\r\nContent-Type: application/json\r\nContent-Length:"@
                + dec_chars(vstd::utf8::encode_utf8(resume_content_chars()).len()) + "\r\n\r\n"@
                + resume_content_chars(),
    {
        let content: String = "{\n    \"state\": \"Resumed\"\n}".to_owned();
        let content_bytes = content.as_str().as_bytes_vec();
        let mut r: String =
            "PATCH /vm HTTP/1.1\r\nAccept: application/json\r\nContent-Type: application/json\r\nContent-Length:".to_owned();
        r.append(crate::numfmt::u64_to_string(content_bytes.len() as u64).as_str());
        r.append("\r\n\r\n");
        r.append(content.as_str());
        r
    }

    /// The one-line shell command that sets up host networking for the
    /// fixed device: `<script> tap0 172.16.0.1`.
    pub fn setup_command(&self) -> (r: String)
        ensures
            r@ == self.config.network_setup_file@ + " tap0 172.16.0.1"@,
    {
        let mut s = self.config.network_setup_file.clone();
        s.append(" tap0 172.16.0.1");
        s
    }

    /// The argument list that tears host networking down:
    /// `<script> tap0`.
    pub fn cleanup_command(&self) -> (r: Vec<String>)
        ensures
            r@.len() == 2,
            r@[0]@ == self.config.network_cleanup_file@,
            r@[1]@ == "tap0"@,
    {
        let mut r: Vec<String> = Vec::new();
        r.push(self.config.network_cleanup_file.clone());
        r.push("tap0".to_owned());
        r
    }

    /// The argument list that starts the VMM awaiting a snapshot: only
    /// the binary and the control socket, no config file.
    pub fn start_command(&self) -> (r: Vec<String>)
        ensures
            r@.len() == 3,
            r@[0]@ == self.config.firecracker_binary_dir@ + "/firecracker"@,
            r@[1]@ == "--api-sock"@,
            r@[2]@ == self.config.firecracker_socket_prefix@ + self.id@ + ".socket"@,
    {
        let mut binary = self.config.firecracker_binary_dir.clone();
        binary.append("/firecracker");
        let mut r: Vec<String> = Vec::new();
        r.push(binary);
        r.push("--api-sock".to_owned());
        r.push(self.get_socket_addr());
        r
    }

    /// The per-instance log path
    /// `<output_dir>/firecracker_snapshot<id>-<iteration><suffix>`.
    pub fn log_path(&self, iteration: u16, suffix: &str) -> (r: String)
        ensures
            r@ == self.config.output_dir@ + "/firecracker_snapshot"@ + self.id@ + "-"@ + dec_chars(
                iteration as nat,
            ) + suffix@,
    {
        let mut s = self.config.output_dir.clone();
        s.append("/firecracker_snapshot");
        s.append(self.id.as_str());
        s.append("-");
        s.append(crate::numfmt::u64_to_string(iteration as u64).as_str());
        s.append(suffix);
        s
    }
}

} // verus!
