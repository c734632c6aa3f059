//! The executor's configuration and the command line it is launched with.
use vstd::prelude::*;

verus! {

/// Where and as whom the executor runs.
pub struct ExecutorConfig {
    pub production: bool,
    pub rpc_url: String,
    pub account_id: String,
    pub key_path: String,
}

/// The text of each argument of a command line.
pub open spec fn args_text(args: Seq<String>) -> Seq<Seq<char>> {
    args.map_values(|s: String| s@)
}

impl ExecutorConfig {
    /// `run-args`, then `--production` in production, then the RPC url, the
    /// account id and the key path, each after its flag.
    pub open spec fn spec_compile_cmd(self) -> Seq<Seq<char>> {
        seq!["run-args"@] + (if self.production {
            seq!["--production"@]
        } else {
            Seq::empty()
        }) + seq![
            "--rpc-url"@,
            self.rpc_url@,
            "--da-account-id"@,
            self.account_id@,
            "--key-path"@,
            self.key_path@,
        ]
    }

    /// The arguments the executor is run with.
    pub fn compile_cmd(&self) -> (cmd: Vec<String>)
        ensures
            args_text(cmd@) == self.spec_compile_cmd(),
            cmd@.len() == if self.production { 8nat } else { 7nat },
            cmd@[0]@ == "run-args"@,
            self.production ==> cmd@[1]@ == "--production"@,
            cmd@[cmd@.len() - 6]@ == "--rpc-url"@,
            cmd@[cmd@.len() - 5]@ == self.rpc_url@,
            cmd@[cmd@.len() - 4]@ == "--da-account-id"@,
            cmd@[cmd@.len() - 3]@ == self.account_id@,
            cmd@[cmd@.len() - 2]@ == "--key-path"@,
            cmd@[cmd@.len() - 1]@ == self.key_path@,
    {
        let mut cmd: Vec<String> = Vec::new();
        cmd.push("run-args".to_owned());
        if self.production {
            cmd.push("--production".to_owned());
        }
        cmd.push("--rpc-url".to_owned());
        cmd.push(self.rpc_url.clone());
        cmd.push("--da-account-id".to_owned());
        cmd.push(self.account_id.clone());
        cmd.push("--key-path".to_owned());
        cmd.push(self.key_path.clone());
        assert(args_text(cmd@) =~= self.spec_compile_cmd());
        cmd
    }
}

/// A launch command starts with `run-args`, and its second argument is
/// `--production` exactly when the configuration is for production; it has
/// one argument more in production than outside it. It ends with the RPC url,
/// the account id and the key path, each right after its own flag.
pub proof fn lemma_compile_cmd_shape(c: ExecutorConfig)
    ensures
        c.spec_compile_cmd()[0] == "run-args"@,
        c.spec_compile_cmd()[1] == "--production"@ <==> c.production,
        c.spec_compile_cmd().len() == if c.production { 8nat } else { 7nat },
        c.spec_compile_cmd()[c.spec_compile_cmd().len() - 6] == "--rpc-url"@,
        c.spec_compile_cmd()[c.spec_compile_cmd().len() - 5] == c.rpc_url@,
        c.spec_compile_cmd()[c.spec_compile_cmd().len() - 4] == "--da-account-id"@,
        c.spec_compile_cmd()[c.spec_compile_cmd().len() - 3] == c.account_id@,
        c.spec_compile_cmd()[c.spec_compile_cmd().len() - 2] == "--key-path"@,
        c.spec_compile_cmd()[c.spec_compile_cmd().len() - 1] == c.key_path@,
{
    reveal_strlit("--production");
    reveal_strlit("--rpc-url");
    assert(c.spec_compile_cmd()[0] == "run-args"@);
    if !c.production {
        assert(c.spec_compile_cmd()[1] == "--rpc-url"@);
        assert("--production"@.len() != "--rpc-url"@.len());
    }
}

} // verus!
