//! The read-only MTK commands: the options they take, how the preloader is
//! chosen, the argument lists handed to `mtk.py`, and how its exit status
//! and output become the command's result.

use vstd::prelude::*;
use crate::error::Error;
use crate::loader::{LoaderFile, loader_file, loader_images, loader_names, resolved_entry};
use crate::paths::spec_base_dir;
use crate::text::{
    ascii_lower,
    eq_ascii_case_insensitive,
    eq_ignore_ascii_case,
    from_utf8_lossy,
    trim,
    trimmed,
    utf8_lossy,
};

verus! {

/// How the preloader binary is selected.
#[derive(Debug, Clone)]
pub enum LoaderOpt {
    /// Automatically select based on the detected chip name.
    Auto,
    /// Use an explicitly provided file path.
    Path(String),
}

impl Default for LoaderOpt {
    fn default() -> (r: LoaderOpt)
        ensures
            r is Auto,
    {
        LoaderOpt::Auto
    }
}

/// Options shared across read-only MTK commands.
#[derive(Debug, Clone)]
pub struct MtkOpts {
    /// Serial port to use, e.g. `COM3` or `/dev/ttyUSB0`.
    pub port: String,
    /// Loader selection: `Auto` triggers chip-based resolution; an explicit
    /// path is passed through verbatim.
    pub loader: LoaderOpt,
}

/// `--loader` selects automatic resolution exactly for the four letters
/// `auto`, each in either case (`auto`, `AUTO`, `Auto`, ...), and for
/// nothing else: no other length, letter, or non-ASCII look-alike.
pub proof fn lemma_auto_in_any_case(s: Seq<char>)
    ensures
        eq_ascii_case_insensitive(s, "auto"@) <==> (s.len() == 4 && (s[0] == 'a' || s[0] == 'A')
            && (s[1] == 'u' || s[1] == 'U') && (s[2] == 't' || s[2] == 'T') && (s[3] == 'o' || s[3]
            == 'O')),
{
    reveal_strlit("auto");
    let a = "auto"@;
    if s.len() == 4 {
        if eq_ascii_case_insensitive(s, a) {
            assert(ascii_lower(s[0]) == ascii_lower(a[0]));
            assert(ascii_lower(s[1]) == ascii_lower(a[1]));
            assert(ascii_lower(s[2]) == ascii_lower(a[2]));
            assert(ascii_lower(s[3]) == ascii_lower(a[3]));
        }
        if (s[0] == 'a' || s[0] == 'A') && (s[1] == 'u' || s[1] == 'U') && (s[2] == 't' || s[2]
            == 'T') && (s[3] == 'o' || s[3] == 'O') {
            assert forall|i: int| 0 <= i < s.len() implies ascii_lower(#[trigger] s[i])
                == ascii_lower(a[i]) by {
                if i == 0 {
                } else if i == 1 {
                } else if i == 2 {
                } else {
                }
            }
        }
    }
}

/// Reads the `--loader` option: `auto` in any ASCII case selects automatic
/// resolution, anything else is taken as a path.
pub fn parse_loader(s: &str) -> (r: LoaderOpt)
    ensures
        eq_ascii_case_insensitive(s@, "auto"@) ==> r is Auto,
        !eq_ascii_case_insensitive(s@, "auto"@) ==> (r matches LoaderOpt::Path(p) && p@ == s@),
        r is Auto <==> (s@.len() == 4 && (s@[0] == 'a' || s@[0] == 'A') && (s@[1] == 'u' || s@[1]
            == 'U') && (s@[2] == 't' || s@[2] == 'T') && (s@[3] == 'o' || s@[3] == 'O')),
{
    proof {
        lemma_auto_in_any_case(s@);
    }
    if eq_ignore_ascii_case(s, "auto") {
        LoaderOpt::Auto
    } else {
        LoaderOpt::Path(String::from_str(s))
    }
}

/// Where the loader handed to `mtk.py` comes from.
#[derive(Debug)]
pub enum LoaderChoice {
    /// A path given by the user, passed on verbatim.
    Given(String),
    /// An embedded loader, to be written out before use.
    Extract(LoaderFile),
    /// No loader is passed.
    NoLoader,
}

/// Resolve the loader for `--loader` given an optional detected chip name.
/// An explicit path wins; with `Auto`, a chip hint selects the embedded
/// loader to extract under `temp_root`, and no hint means no loader.
pub fn resolve_loader_path(opt: &LoaderOpt, chip: Option<&str>, temp_root: &str) -> (r: Result<
    LoaderChoice,
    Error,
>)
    ensures
        match (*opt, chip) {
            (LoaderOpt::Path(p), _) => r matches Ok(LoaderChoice::Given(q)) && q@ == p@,
            (LoaderOpt::Auto, None) => r matches Ok(LoaderChoice::NoLoader),
            (LoaderOpt::Auto, Some(c)) => match resolved_entry(c@) {
                Some(k) => r matches Ok(LoaderChoice::Extract(f)) && f.path@ == (
                    temp_root@,
                    spec_base_dir(temp_root@).1.push("loaders"@).push(loader_names()[k]),
                ) && f.dir@ == (temp_root@, spec_base_dir(temp_root@).1.push("loaders"@))
                    && f.image@ == loader_images()[k],
                None => r matches Err(Error::LoaderNotFound(e)) && e@ == c@,
            },
        },
{
    match opt {
        LoaderOpt::Path(p) => Ok(LoaderChoice::Given(p.clone())),
        LoaderOpt::Auto => match chip {
            Some(chip_name) => {
                let f = loader_file(chip_name, temp_root)?;
                Ok(LoaderChoice::Extract(f))
            },
            None => Ok(LoaderChoice::NoLoader),
        },
    }
}

/// The arguments `mtk.py` is run with for `detect`, which enumerates the
/// port for a connected MTK device.
pub fn detect(port: &str) -> (r: Vec<String>)
    ensures
        r.deep_view() == seq!["detect"@, "--serialport"@, port@],
{
    let mut args: Vec<String> = Vec::new();
    args.push(String::from_str("detect"));
    args.push(String::from_str("--serialport"));
    args.push(String::from_str(port));
    assert(args.deep_view() =~= seq!["detect"@, "--serialport"@, port@]);
    args
}

/// The arguments of `read_info` before the loader: `gettargetconfig` on the
/// chosen port.
pub open spec fn read_info_base(port: Seq<char>) -> Seq<Seq<char>> {
    seq!["gettargetconfig"@, "--serialport"@, port]
}

/// `read-info` always runs `gettargetconfig` on the chosen port, whatever the
/// port is: the port follows `--serialport`, and nothing else comes before
/// the optional loader.
pub proof fn lemma_read_info_passes_the_port(port: Seq<char>)
    ensures
        read_info_base(port).len() == 3,
        read_info_base(port)[0] == "gettargetconfig"@,
        read_info_base(port)[1] == "--serialport"@,
        read_info_base(port)[2] == port,
{
}

/// The arguments `mtk.py` is run with for `read-info` (`gettargetconfig`),
/// which reads the target configuration; `--loader` follows when a loader
/// path was resolved.
pub fn read_info(opts: &MtkOpts, loader_path: Option<&str>) -> (r: Vec<String>)
    ensures
        loader_path is None ==> r.deep_view() == read_info_base(opts.port@),
        loader_path matches Some(p) ==> r.deep_view() == read_info_base(opts.port@) + seq![
            "--loader"@,
            p@,
        ],
        r.deep_view().len() >= 3,
        r.deep_view()[0] == "gettargetconfig"@,
        r.deep_view()[1] == "--serialport"@,
        r.deep_view()[2] == opts.port@,
        loader_path is None ==> r.deep_view().len() == 3,
        loader_path matches Some(p) ==> r.deep_view().len() == 5 && r.deep_view()[3]
            == "--loader"@ && r.deep_view()[4] == p@,
{
    let mut args: Vec<String> = Vec::new();
    args.push(String::from_str("gettargetconfig"));
    args.push(String::from_str("--serialport"));
    args.push(opts.port.clone());
    assert(args.deep_view() =~= read_info_base(opts.port@));
    if let Some(p) = loader_path {
        let ghost before = args.deep_view();
        args.push(String::from_str("--loader"));
        args.push(String::from_str(p));
        assert(args.deep_view() =~= before + seq!["--loader"@, p@]);
    }
    args
}

/// What a finished child process left behind.
#[derive(Debug, Clone)]
pub struct CommandOutput {
    /// The process exited successfully.
    pub success: bool,
    /// Its exit code, if it had one (none when killed by a signal).
    pub code: Option<i32>,
    /// Everything it wrote to standard output.
    pub stdout: Vec<u8>,
    /// Everything it wrote to standard error.
    pub stderr: Vec<u8>,
}

/// The exit code, or `-1` for a process that had none.
pub open spec fn exit_code_or_minus_one(code: Option<i32>) -> i32 {
    match code {
        Some(c) => c,
        None => -1i32,
    }
}

/// A failed run that has an exit code is reported with exactly that code;
/// only a run without one (killed by a signal) is reported as `-1`.
pub proof fn lemma_exit_code_is_kept(code: Option<i32>)
    ensures
        code matches Some(c) ==> exit_code_or_minus_one(code) == c,
        code is None ==> exit_code_or_minus_one(code) == -1,
{
}

/// The result of an `mtk.py` run: on success its standard output followed by
/// its standard error, both decoded leniently; otherwise `MtkCommand` with the
/// exit code (`-1` without one) and the trimmed standard error.
pub fn mtk_output(out: &CommandOutput) -> (r: Result<String, Error>)
    ensures
        out.success ==> (r matches Ok(t) && t@ == utf8_lossy(out.stdout@) + utf8_lossy(
            out.stderr@,
        )),
        !out.success ==> (r matches Err(Error::MtkCommand { code, stderr }) && code == exit_code_or_minus_one(
            out.code,
        ) && stderr@ == trimmed(utf8_lossy(out.stderr@))),
        !out.success && out.code is Some ==> (r matches Err(Error::MtkCommand { code, .. }) && code
            == out.code->0),
        !out.success && out.code is None ==> (r matches Err(Error::MtkCommand { code, .. }) && code
            == -1),
{
    let stdout = from_utf8_lossy(out.stdout.as_slice());
    let stderr = from_utf8_lossy(out.stderr.as_slice());
    if !out.success {
        let code = match out.code {
            Some(c) => c,
            None => -1i32,
        };
        return Err(Error::MtkCommand { code, stderr: trim(stderr.as_str()) });
    }
    Ok(stdout.concat(stderr.as_str()))
}

} // verus!
