//! The shell command that opens a session on the build host.

use vstd::prelude::*;
use vstd::string::*;

verus! {

/// A shell command that prints `msg`.
pub open spec fn error_command(msg: Seq<char>) -> Seq<char> {
    "echo '"@ + msg + "'"@
}

/// The command for a key at `key_path` and a host at `address`; where one
/// of them is not known, the command that says so, the key first.
pub open spec fn connect_command(key_path: Option<Seq<char>>, address: Option<Seq<char>>) -> Seq<
    char,
> {
    match key_path {
        None => error_command("Could not find SSH Key"@),
        Some(key) => match address {
            None => error_command("Failed to find IP of instance"@),
            Some(host) => "ssh -i "@ + key + " ec2-user@"@ + host,
        },
    }
}

/// A shell command that prints `msg`.
pub fn create_error_msg(msg: &str) -> (command: String)
    ensures
        command@ == error_command(msg@),
{
    String::from_str("echo '").concat(msg).concat("'")
}

/// The shell command that opens a session on the build host, given the
/// path of the private key, if the key was found, and the address in the
/// persisted settings, if they could be read.
pub fn connect(ssh_key_path: Option<String>, instance_ip: Option<String>) -> (command: String)
    ensures
        command@ == connect_command(ssh_key_path.deep_view(), instance_ip.deep_view()),
{
    match ssh_key_path {
        None => create_error_msg("Could not find SSH Key"),
        Some(key) => match instance_ip {
            None => create_error_msg("Failed to find IP of instance"),
            Some(host) => String::from_str("ssh -i ").concat(key.as_str()).concat(
                " ec2-user@",
            ).concat(host.as_str()),
        },
    }
}

} // verus!
