use vstd::prelude::*;
use vstd::string::StringExecFns;

verus! {

/// Static description of one worker: its binary, relative to the directory
/// of the running executable, the arguments it is started with, and the file
/// that receives its error output.
pub struct ProcessSpec {
    pub binary: String,
    pub args: Vec<String>,
    pub error_log: String,
}

/// What the host platform can do when it creates a process.
#[derive(Clone, Copy, PartialEq, Eq, Structural, Debug)]
pub struct Platform {
    pub supports_window_suppression: bool,
}

/// One child process, fully described: the host resolves `binary` against the
/// executable's directory, passes `args` in order, binds the child's error
/// output to `error_log` (created or truncated), and creates it detached
/// from any console when `suppress_console` is set.
pub struct Invocation {
    pub binary: String,
    pub args: Vec<String>,
    pub error_log: String,
    pub suppress_console: bool,
}

/// The argument that passes the data directory to a worker:
/// `app_data_path="<dir>"`.
pub open spec fn data_dir_token(dir: Seq<char>) -> Seq<char> {
    "app_data_path=\""@ + dir + "\""@
}

pub open spec fn string_views(v: Seq<String>) -> Seq<Seq<char>> {
    v.map_values(|s: String| s@)
}

/// The arguments a worker receives: its own, then the data directory token
/// when a data directory is given.
pub open spec fn worker_args(args: Seq<String>, data_dir: Option<String>) -> Seq<Seq<char>> {
    match data_dir {
        Some(d) => string_views(args).push(data_dir_token(d@)),
        None => string_views(args),
    }
}

/// The console is suppressed outside debug mode, where the platform can do it.
pub open spec fn suppresses_console(debug: bool, platform: Platform) -> bool {
    !debug && platform.supports_window_suppression
}

/// `inv` is the invocation that launches `spec` with these runtime parameters.
pub open spec fn invocation_of(
    inv: Invocation,
    spec: ProcessSpec,
    data_dir: Option<String>,
    debug: bool,
    platform: Platform,
) -> bool {
    &&& inv.binary@ == spec.binary@
    &&& string_views(inv.args@) == worker_args(spec.args@, data_dir)
    &&& inv.error_log@ == spec.error_log@
    &&& inv.suppress_console == suppresses_console(debug, platform)
}

impl ProcessSpec {
    pub fn new(binary: String, args: Vec<String>, error_log: String) -> (r: ProcessSpec)
        ensures
            r.binary == binary,
            r.args == args,
            r.error_log == error_log,
    {
        ProcessSpec { binary, args, error_log }
    }

    pub fn clone(&self) -> (r: ProcessSpec)
        ensures
            r.binary@ == self.binary@,
            string_views(r.args@) == string_views(self.args@),
            r.error_log@ == self.error_log@,
    {
        ProcessSpec {
            binary: self.binary.clone(),
            args: clone_strings(&self.args),
            error_log: self.error_log.clone(),
        }
    }
}

fn clone_strings(v: &Vec<String>) -> (r: Vec<String>)
    ensures
        string_views(r@) == string_views(v@),
{
    let mut r: Vec<String> = Vec::new();
    let mut i: usize = 0;
    while i < v.len()
        invariant
            i <= v.len(),
            r@.len() == i,
            forall|k: int| 0 <= k < i ==> (#[trigger] r@[k])@ == v@[k]@,
        decreases v.len() - i,
    {
        let s = v[i].clone();
        r.push(s);
        i = i + 1;
    }
    assert(string_views(r@) =~= string_views(v@));
    r
}

/// Builds `app_data_path="<dir>"`.
pub fn data_dir_arg(dir: &str) -> (r: String)
    ensures
        r@ == data_dir_token(dir@),
{
    let mut r = String::from_str("app_data_path=\"");
    r.append(dir);
    r.append("\"");
    r
}

/// The invocation that launches `spec`: the spec's binary and error log, its
/// arguments followed by the data directory token when `data_dir` is given,
/// and the console suppressed outside debug mode where the platform allows.
pub fn build_invocation(
    spec: &ProcessSpec,
    data_dir: &Option<String>,
    debug: bool,
    platform: Platform,
) -> (r: Invocation)
    ensures
        invocation_of(r, *spec, *data_dir, debug, platform),
{
    let mut args = clone_strings(&spec.args);
    match data_dir {
        Some(d) => {
            let token = data_dir_arg(d.as_str());
            args.push(token);
            assert(string_views(args@) =~= string_views(spec.args@).push(data_dir_token(d@)));
        },
        None => {},
    }
    Invocation {
        binary: spec.binary.clone(),
        args,
        error_log: spec.error_log.clone(),
        suppress_console: !debug && platform.supports_window_suppression,
    }
}

} // verus!
