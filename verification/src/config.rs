//! The node's configuration record.

use vstd::prelude::*;
use crate::decimal::{int_digits, render_signed};

verus! {

/// The configuration of the node: everything its command line is made of.
#[derive(Debug, PartialEq, Eq)]
pub struct ApeNodeArgs {
    pub impersonated_account: String,
    pub web3_rpc: String,
    pub listen_host_port: String,
    pub key_cache_file_path: String,
    pub log_file_path: String,
    pub batch_size: i64,
}

/// The mathematical value of a configuration record.
pub struct ApeNodeArgsView {
    pub impersonated_account: Seq<char>,
    pub web3_rpc: Seq<char>,
    pub listen_host_port: Seq<char>,
    pub key_cache_file_path: Seq<char>,
    pub log_file_path: Seq<char>,
    pub batch_size: int,
}

impl View for ApeNodeArgs {
    type V = ApeNodeArgsView;

    open spec fn view(&self) -> ApeNodeArgsView {
        ApeNodeArgsView {
            impersonated_account: self.impersonated_account@,
            web3_rpc: self.web3_rpc@,
            listen_host_port: self.listen_host_port@,
            key_cache_file_path: self.key_cache_file_path@,
            log_file_path: self.log_file_path@,
            batch_size: self.batch_size as int,
        }
    }
}

impl Clone for ApeNodeArgs {
    fn clone(&self) -> (copy: ApeNodeArgs)
        ensures
            copy == *self,
    {
        ApeNodeArgs {
            impersonated_account: self.impersonated_account.clone(),
            web3_rpc: self.web3_rpc.clone(),
            listen_host_port: self.listen_host_port.clone(),
            key_cache_file_path: self.key_cache_file_path.clone(),
            log_file_path: self.log_file_path.clone(),
            batch_size: self.batch_size,
        }
    }
}

/// The record that stands in for a configuration that is absent or unusable.
pub open spec fn default_record() -> ApeNodeArgsView {
    ApeNodeArgsView {
        impersonated_account: "0x0000000000000000000000000000000000000000"@,
        web3_rpc: "wss://mainnet.infura.io/ws/v3/547e677c41724f8fa8c4bfde1aecef20"@,
        listen_host_port: "127.0.0.1:10545"@,
        key_cache_file_path: Seq::empty(),
        log_file_path: Seq::empty(),
        batch_size: 100,
    }
}

/// The command line of the node for a configuration: flag and value in a
/// fixed order, the key-cache pair present only for a non-empty path.
pub open spec fn command_line(c: ApeNodeArgsView) -> Seq<Seq<char>> {
    let head = seq![
        "-account"@,
        c.impersonated_account,
        "-logpath"@,
        c.log_file_path,
        "-upstream"@,
        c.web3_rpc,
        "-listen"@,
        c.listen_host_port,
    ];
    let cache = if c.key_cache_file_path.len() == 0 {
        Seq::<Seq<char>>::empty()
    } else {
        seq!["-keycache"@, c.key_cache_file_path]
    };
    head + cache + seq!["-batchsize"@, int_digits(c.batch_size)]
}

/// The texts that a vector of strings holds, in order.
pub open spec fn texts(tokens: Seq<String>) -> Seq<Seq<char>> {
    tokens.map_values(|t: String| t@)
}

impl ApeNodeArgs {
    /// The default configuration.
    pub fn default_config() -> (config: ApeNodeArgs)
        ensures
            config@ == default_record(),
    {
        ApeNodeArgs {
            impersonated_account: "0x0000000000000000000000000000000000000000".to_string(),
            web3_rpc: "wss://mainnet.infura.io/ws/v3/547e677c41724f8fa8c4bfde1aecef20".to_string(),
            listen_host_port: "127.0.0.1:10545".to_string(),
            key_cache_file_path: String::new(),
            log_file_path: String::new(),
            batch_size: 100,
        }
    }

    /// Renders the configuration as the node's argument vector.
    pub fn to_args(&self) -> (args: Vec<String>)
        ensures
            texts(args@) == command_line(self@),
            args@.len() == command_line(self@).len(),
            forall|i: int| 0 <= i < args@.len() ==> (#[trigger] args@[i])@ == command_line(self@)[i],
    {
        let mut args: Vec<String> = Vec::new();
        args.push("-account".to_string());
        args.push(self.impersonated_account.clone());
        args.push("-logpath".to_string());
        args.push(self.log_file_path.clone());
        args.push("-upstream".to_string());
        args.push(self.web3_rpc.clone());
        args.push("-listen".to_string());
        args.push(self.listen_host_port.clone());
        if !self.key_cache_file_path.as_str().is_empty() {
            args.push("-keycache".to_string());
            args.push(self.key_cache_file_path.clone());
        }
        args.push("-batchsize".to_string());
        args.push(render_signed(self.batch_size));
        assert(texts(args@) =~= command_line(self@));
        args
    }
}

/// The command line leaves the key-cache pair out exactly when the key-cache
/// path is empty: it then has ten tokens, and twelve otherwise, with the
/// flag and the path in the ninth and tenth place. The other five pairs are
/// always there, at fixed places.
pub proof fn key_cache_pair_iff_path_given(c: ApeNodeArgsView)
    ensures
        command_line(c).len() == 10 <==> c.key_cache_file_path.len() == 0,
        command_line(c).len() == 12 <==> c.key_cache_file_path.len() != 0,
        c.key_cache_file_path.len() != 0 ==> command_line(c)[8] == "-keycache"@ && command_line(
            c,
        )[9] == c.key_cache_file_path,
        command_line(c).subrange(0, 8) == seq![
            "-account"@,
            c.impersonated_account,
            "-logpath"@,
            c.log_file_path,
            "-upstream"@,
            c.web3_rpc,
            "-listen"@,
            c.listen_host_port,
        ],
        command_line(c).subrange(command_line(c).len() - 2, command_line(c).len() as int) == seq![
            "-batchsize"@,
            int_digits(c.batch_size),
        ],
{
    let line = command_line(c);
    assert(line.subrange(0, 8) =~= seq![
        "-account"@,
        c.impersonated_account,
        "-logpath"@,
        c.log_file_path,
        "-upstream"@,
        c.web3_rpc,
        "-listen"@,
        c.listen_host_port,
    ]);
    assert(line.subrange(line.len() - 2, line.len() as int) =~= seq![
        "-batchsize"@,
        int_digits(c.batch_size),
    ]);
}

} // verus!
