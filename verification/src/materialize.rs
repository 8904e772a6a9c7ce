//! Planning the materialized artifacts.
//!
//! A first run turns the parsed trailer into exactly two files inside the
//! staging directory: the companion executable, written verbatim, and a
//! launch script that invokes it with the embedded argument string.  The
//! platform-specific file-name suffixes and the optional "suppress command
//! echo" marker are injected once as configuration, not scattered constants.

use vstd::prelude::*;

use crate::trailer::Trailer;

verus! {

/// The platform-specific naming conventions, chosen once at startup.
pub struct PlatformConfig {
    /// Suffix of the companion executable's file name.
    pub exe_ext: Vec<u8>,
    /// Suffix of the launch script's file name.
    pub script_ext: Vec<u8>,
    /// Marker put before the command to suppress echoing it back.
    pub quiet: Vec<u8>,
}

/// The companion executable's file name under the staging directory.
pub open spec fn exe_file_name_spec(exe_ext: Seq<u8>) -> Seq<u8> {
    seq![114u8, 117u8, 110u8, 46u8] + exe_ext
}

/// The launch script's file name under the staging directory.
pub open spec fn script_file_name_spec(script_ext: Seq<u8>) -> Seq<u8> {
    seq![115u8, 116u8, 97u8, 114u8, 116u8, 46u8] + script_ext
}

/// The launch script's body: the quiet marker, the executable's file name, a
/// space, and the argument string verbatim.
pub open spec fn script_body_spec(quiet: Seq<u8>, exe_name: Seq<u8>, args: Seq<u8>) -> Seq<u8> {
    quiet + exe_name + seq![32u8] + args
}

/// The two files a first run writes into the staging directory.
pub struct MaterialPlan {
    /// File name for the companion executable.
    pub exe_name: Vec<u8>,
    /// Contents of the companion executable: the trailer's region verbatim.
    pub exe_contents: Vec<u8>,
    /// File name for the launch script.
    pub script_name: Vec<u8>,
    /// Contents of the launch script.
    pub script_contents: Vec<u8>,
}

/// Builds the executable's file name for a platform.
pub fn exe_file_name(cfg: &PlatformConfig) -> (r: Vec<u8>)
    ensures
        r@ == exe_file_name_spec(cfg.exe_ext@),
{
    let mut r: Vec<u8> = Vec::new();
    r.push(114u8);
    r.push(117u8);
    r.push(110u8);
    r.push(46u8);
    r.extend_from_slice(cfg.exe_ext.as_slice());
    assert(r@ =~= exe_file_name_spec(cfg.exe_ext@));
    r
}

/// Builds the script's file name for a platform.
pub fn script_file_name(cfg: &PlatformConfig) -> (r: Vec<u8>)
    ensures
        r@ == script_file_name_spec(cfg.script_ext@),
{
    let mut r: Vec<u8> = Vec::new();
    r.push(115u8);
    r.push(116u8);
    r.push(97u8);
    r.push(114u8);
    r.push(116u8);
    r.push(46u8);
    r.extend_from_slice(cfg.script_ext.as_slice());
    assert(r@ =~= script_file_name_spec(cfg.script_ext@));
    r
}

/// Lays out the two files a first run must write: the companion executable
/// byte for byte, and a script that invokes it with the embedded arguments.
pub fn plan_materialization(t: &Trailer, cfg: &PlatformConfig) -> (p: MaterialPlan)
    ensures
        p.exe_name@ == exe_file_name_spec(cfg.exe_ext@),
        p.exe_contents@ == t.exe_payload@,
        p.script_name@ == script_file_name_spec(cfg.script_ext@),
        p.script_contents@ == script_body_spec(cfg.quiet@, exe_file_name_spec(cfg.exe_ext@), t.args@),
{
    let exe_name = exe_file_name(cfg);
    let script_name = script_file_name(cfg);
    let exe_contents = t.exe_payload.clone();
    let mut script_contents: Vec<u8> = Vec::new();
    script_contents.extend_from_slice(cfg.quiet.as_slice());
    script_contents.extend_from_slice(exe_name.as_slice());
    script_contents.push(32u8);
    script_contents.extend_from_slice(t.args.as_slice());
    assert(script_contents@ =~= script_body_spec(
        cfg.quiet@,
        exe_file_name_spec(cfg.exe_ext@),
        t.args@,
    ));
    MaterialPlan { exe_name, exe_contents, script_name, script_contents }
}

} // verus!
