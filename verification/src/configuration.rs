//! Resolution of the injector's configuration from the values the
//! backing store yielded: the target process list, the trace-session
//! name with its default, the companion module's path (given or derived
//! from the executable's own path), and the log directory with its
//! character, shape and reachability checks.
//!
//! Reading the registry values, asking for the executable's path and
//! probing the file system happen outside; their results arrive here as
//! plain values and every decision taken on them is exact: each error
//! names the one condition that produces it.

use vstd::prelude::*;

use crate::paths::is_drive_letter;
use crate::paths::is_path_separator;
use crate::paths::spec_with_dll_extension;
use crate::paths::with_dll_extension;

verus! {

/// The trace-session name used when the store offers none.
pub const DEFAULT_TRACE_NAME: &'static str = "NoBlockInput";

/// The default trace-session name of the narrow build, which must not
/// collide with the wide build's session.
pub const DEFAULT_TRACE_NAME_X86: &'static str = "NoBlockInput_x86";

/// The default trace-session name for the process width this injector
/// was built as.
pub open spec fn spec_default_trace_name(x64: bool) -> Seq<char> {
    if x64 {
        DEFAULT_TRACE_NAME@
    } else {
        DEFAULT_TRACE_NAME_X86@
    }
}

pub fn default_trace_name(x64: bool) -> (name: &'static str)
    ensures
        name@ == spec_default_trace_name(x64),
{
    if x64 {
        DEFAULT_TRACE_NAME
    } else {
        DEFAULT_TRACE_NAME_X86
    }
}

/// Why a value could not be read from the backing store: it is not
/// there, or the read itself failed.
#[derive(Clone, Copy, PartialEq, Eq, Structural, Debug)]
pub enum RegReadError {
    NotFound,
    Other,
}

/// Everything that can go wrong while resolving the configuration.
#[derive(Clone, Copy, PartialEq, Eq, Structural, Debug)]
pub enum ConfigError {
    /// The processes entry exists but holds nothing to hook.
    ProcessesEmpty,
    /// The processes entry is absent from the store.
    ProcessesReadFailed,
    /// The processes entry is present but its read failed.
    ProcessesMissing,
    /// The trace-name entry could not be read.
    TraceNameReadFailed,
    /// The hook-module entry could not be read.
    HookDllReadFailed,
    /// The executable's own path, needed to derive the hook module's
    /// path, was unavailable.
    ExePathUnavailable,
    /// The log-directory entry in the configuration file was empty.
    LogDirFileEntryEmpty,
    /// The log-directory value in the store was empty.
    LogDirValueEmpty,
    /// The log directory holds a forbidden character or a misplaced
    /// colon.
    LogDirInvalidCharacters,
    /// The log directory is relative; hooked executables cannot write
    /// beside themselves.
    LogDirRelative,
    /// The log directory path exists but is not a directory.
    LogDirNotADirectory,
    /// The log directory path could not be examined.
    LogDirInaccessible,
    /// The log-directory option is not set.
    LogDirNotSet,
    /// The log-directory value could not be read.
    LogDirReadFailed,
    /// The log directory did not exist and could not be created.
    LogDirCreateFailed,
}

/// The words each error surfaces with in the log stream.
pub open spec fn spec_error_message(e: ConfigError) -> Seq<char> {
    match e {
        ConfigError::ProcessesEmpty => "The processes entry in the registry configuration is empty."@,
        ConfigError::ProcessesReadFailed => "There was an error trying to retrieve the list of processes to hook from the registry."@,
        ConfigError::ProcessesMissing => "No processes were found in the registry configuration."@,
        ConfigError::TraceNameReadFailed => "There was an error trying to retrieve the trace name from the registry."@,
        ConfigError::HookDllReadFailed => "There was an error trying to retrieve the hook DLL name from the registry."@,
        ConfigError::ExePathUnavailable => "Couldn't get the path of the this executable."@,
        ConfigError::LogDirFileEntryEmpty => "Log directory entry in the configuration file was empty."@,
        ConfigError::LogDirValueEmpty => "Log directory registry value was empty."@,
        ConfigError::LogDirInvalidCharacters => "The specified log directory contains invalid characters."@,
        ConfigError::LogDirRelative => "The log directory path specified is relative. This leads to errors for hooked executables that can't write to their own parent directories."@,
        ConfigError::LogDirNotADirectory => "The log directory path specified is not a directory."@,
        ConfigError::LogDirInaccessible => "The log directory path is inaccessible."@,
        ConfigError::LogDirNotSet => "The log directory option is not set."@,
        ConfigError::LogDirReadFailed => "There was an error trying to retrieve the log directory value."@,
        ConfigError::LogDirCreateFailed => "Log directory could not be created."@,
    }
}

impl ConfigError {
    /// The error's words for the log stream.
    pub fn message(&self) -> (m: String)
        ensures
            m@ == spec_error_message(*self),
    {
        match self {
            ConfigError::ProcessesEmpty => String::from_str(
                "The processes entry in the registry configuration is empty.",
            ),
            ConfigError::ProcessesReadFailed => String::from_str(
                "There was an error trying to retrieve the list of processes to hook from the registry.",
            ),
            ConfigError::ProcessesMissing => String::from_str(
                "No processes were found in the registry configuration.",
            ),
            ConfigError::TraceNameReadFailed => String::from_str(
                "There was an error trying to retrieve the trace name from the registry.",
            ),
            ConfigError::HookDllReadFailed => String::from_str(
                "There was an error trying to retrieve the hook DLL name from the registry.",
            ),
            ConfigError::ExePathUnavailable => String::from_str(
                "Couldn't get the path of the this executable.",
            ),
            ConfigError::LogDirFileEntryEmpty => String::from_str(
                "Log directory entry in the configuration file was empty.",
            ),
            ConfigError::LogDirValueEmpty => String::from_str(
                "Log directory registry value was empty.",
            ),
            ConfigError::LogDirInvalidCharacters => String::from_str(
                "The specified log directory contains invalid characters.",
            ),
            ConfigError::LogDirRelative => String::from_str(
                "The log directory path specified is relative. This leads to errors for hooked executables that can't write to their own parent directories.",
            ),
            ConfigError::LogDirNotADirectory => String::from_str(
                "The log directory path specified is not a directory.",
            ),
            ConfigError::LogDirInaccessible => String::from_str(
                "The log directory path is inaccessible.",
            ),
            ConfigError::LogDirNotSet => String::from_str(
                "The log directory option is not set.",
            ),
            ConfigError::LogDirReadFailed => String::from_str(
                "There was an error trying to retrieve the log directory value.",
            ),
            ConfigError::LogDirCreateFailed => String::from_str(
                "Log directory could not be created.",
            ),
        }
    }
}

/// What probing the log directory path found.
#[derive(Clone, Copy, PartialEq, Eq, Structural, Debug)]
pub enum DirProbe {
    IsDirectory,
    NotADirectory,
    Missing,
    Inaccessible,
}

/// What creating the log directory came to.
#[derive(Clone, Copy, PartialEq, Eq, Structural, Debug)]
pub enum CreateDirProbe {
    Created,
    AlreadyExists,
    Failed,
}

/// The resolved settings the whole pipeline runs on, immutable after
/// load. The log directory keeps its own verdict so that logging setup
/// can report it without failing the rest.
#[derive(Debug)]
pub struct InjectorConfig {
    pub hook_dll_path: String,
    pub trace_name: String,
    pub processes: Vec<String>,
    pub log_directory: Result<String, ConfigError>,
}

/// The settings for both process widths, as a configuration file lays
/// them out.
#[derive(Debug)]
pub struct FullConfig {
    pub x64: InjectorConfig,
    pub x86: InjectorConfig,
}

/// Spec-level image of a resolved configuration.
pub struct ConfigView {
    pub hook_dll_path: Seq<char>,
    pub trace_name: Seq<char>,
    pub processes: Seq<Seq<char>>,
    pub log_directory: Result<Seq<char>, ConfigError>,
}

impl InjectorConfig {
    pub open spec fn view_of(self) -> ConfigView {
        ConfigView {
            hook_dll_path: self.hook_dll_path@,
            trace_name: self.trace_name@,
            processes: self.processes.deep_view(),
            log_directory: match self.log_directory {
                Ok(d) => Ok(d@),
                Err(e) => Err(e),
            },
        }
    }
}

pub open spec fn reg_string_view(r: Result<String, RegReadError>) -> Result<
    Seq<char>,
    RegReadError,
> {
    match r {
        Ok(s) => Ok(s@),
        Err(e) => Err(e),
    }
}

pub open spec fn reg_strings_view(r: Result<Vec<String>, RegReadError>) -> Result<
    Seq<Seq<char>>,
    RegReadError,
> {
    match r {
        Ok(v) => Ok(v.deep_view()),
        Err(e) => Err(e),
    }
}

pub open spec fn opt_string_view(o: Option<String>) -> Option<Seq<char>> {
    match o {
        Some(s) => Some(s@),
        None => None,
    }
}

/// The target process list: present and non-empty, with a non-empty
/// first entry, or the one error naming what was wrong.
pub open spec fn spec_resolve_processes(read: Result<Seq<Seq<char>>, RegReadError>) -> Result<
    Seq<Seq<char>>,
    ConfigError,
> {
    match read {
        Ok(ps) => if ps.len() == 0 || ps[0].len() == 0 {
            Err(ConfigError::ProcessesEmpty)
        } else {
            Ok(ps)
        },
        Err(RegReadError::NotFound) => Err(ConfigError::ProcessesReadFailed),
        Err(RegReadError::Other) => Err(ConfigError::ProcessesMissing),
    }
}

pub fn resolve_processes(read: Result<Vec<String>, RegReadError>) -> (r: Result<
    Vec<String>,
    ConfigError,
>)
    ensures
        (match r {
            Ok(v) => spec_resolve_processes(reg_strings_view(read)) == Ok::<_, ConfigError>(
                v.deep_view(),
            ),
            Err(e) => spec_resolve_processes(reg_strings_view(read)) == Err::<Seq<Seq<char>>, _>(
                e,
            ),
        }),
{
    match read {
        Ok(processes) => {
            if processes.len() == 0 {
                return Err(ConfigError::ProcessesEmpty);
            }
            if processes[0].as_str().is_empty() {
                return Err(ConfigError::ProcessesEmpty);
            }
            Ok(processes)
        },
        Err(RegReadError::NotFound) => Err(ConfigError::ProcessesReadFailed),
        Err(RegReadError::Other) => Err(ConfigError::ProcessesMissing),
    }
}

/// The trace-session name: the stored one, or the width's default when
/// the entry is empty or simply absent; only a present-but-unreadable
/// entry is an error.
pub open spec fn spec_resolve_trace_name(
    read: Result<Seq<char>, RegReadError>,
    x64: bool,
) -> Result<Seq<char>, ConfigError> {
    match read {
        Ok(name) => if name.len() == 0 {
            Ok(spec_default_trace_name(x64))
        } else {
            Ok(name)
        },
        Err(RegReadError::NotFound) => Err(ConfigError::TraceNameReadFailed),
        Err(RegReadError::Other) => Ok(spec_default_trace_name(x64)),
    }
}

pub fn resolve_trace_name(read: Result<String, RegReadError>, x64: bool) -> (r: Result<
    String,
    ConfigError,
>)
    ensures
        (match r {
            Ok(name) => spec_resolve_trace_name(reg_string_view(read), x64) == Ok::<
                _,
                ConfigError,
            >(name@),
            Err(e) => spec_resolve_trace_name(reg_string_view(read), x64) == Err::<Seq<char>, _>(
                e,
            ),
        }),
{
    match read {
        Ok(name) => {
            if name.as_str().is_empty() {
                Ok(String::from_str(default_trace_name(x64)))
            } else {
                Ok(name)
            }
        },
        Err(RegReadError::NotFound) => Err(ConfigError::TraceNameReadFailed),
        Err(RegReadError::Other) => Ok(String::from_str(default_trace_name(x64))),
    }
}

/// The hook module's path when none is configured: the executable's own
/// path with the extension swapped for `dll`.
pub open spec fn spec_derive_dll_from_exe(exe: Option<Seq<char>>) -> Result<
    Seq<char>,
    ConfigError,
> {
    match exe {
        Some(p) => Ok(spec_with_dll_extension(p)),
        None => Err(ConfigError::ExePathUnavailable),
    }
}

/// The hook module's path: the configured one when present and
/// non-empty, else derived from the executable; only a
/// present-but-unreadable entry is an error.
pub open spec fn spec_resolve_hook_dll_path(
    read: Result<Seq<char>, RegReadError>,
    exe: Option<Seq<char>>,
) -> Result<Seq<char>, ConfigError> {
    match read {
        Ok(name) => if name.len() == 0 {
            spec_derive_dll_from_exe(exe)
        } else {
            Ok(name)
        },
        Err(RegReadError::NotFound) => Err(ConfigError::HookDllReadFailed),
        Err(RegReadError::Other) => spec_derive_dll_from_exe(exe),
    }
}

fn derive_dll_from_exe(exe_path: &Option<String>) -> (r: Result<String, ConfigError>)
    ensures
        (match r {
            Ok(p) => spec_derive_dll_from_exe(opt_string_view(*exe_path)) == Ok::<
                _,
                ConfigError,
            >(p@),
            Err(e) => spec_derive_dll_from_exe(opt_string_view(*exe_path)) == Err::<Seq<char>, _>(
                e,
            ),
        }),
{
    match exe_path {
        Some(p) => Ok(with_dll_extension(p.as_str())),
        None => Err(ConfigError::ExePathUnavailable),
    }
}

pub fn resolve_hook_dll_path(read: Result<String, RegReadError>, exe_path: &Option<String>) -> (r:
    Result<String, ConfigError>)
    ensures
        (match r {
            Ok(p) => spec_resolve_hook_dll_path(
                reg_string_view(read),
                opt_string_view(*exe_path),
            ) == Ok::<_, ConfigError>(p@),
            Err(e) => spec_resolve_hook_dll_path(
                reg_string_view(read),
                opt_string_view(*exe_path),
            ) == Err::<Seq<char>, _>(e),
        }),
{
    match read {
        Ok(name) => {
            if name.as_str().is_empty() {
                derive_dll_from_exe(exe_path)
            } else {
                Ok(name)
            }
        },
        Err(RegReadError::NotFound) => Err(ConfigError::HookDllReadFailed),
        Err(RegReadError::Other) => derive_dll_from_exe(exe_path),
    }
}

/// The characters a log directory may never hold.
pub open spec fn bad_path_char(c: char) -> bool {
    c == '<' || c == '>' || c == '"' || c == '|' || c == '?' || c == '*'
}

pub open spec fn has_bad_characters(s: Seq<char>) -> bool {
    exists|i: int| 0 <= i < s.len() && bad_path_char(#[trigger] s[i])
}

/// A colon anywhere but as the drive separator (second character).
pub open spec fn colon_misplaced(s: Seq<char>) -> bool {
    exists|i: int| 0 <= i < s.len() && #[trigger] s[i] == ':' && i != 1
}

/// Absolute on the target platform: a drive with a root, or a UNC
/// prefix. Anything else counts as relative.
pub open spec fn spec_is_absolute(s: Seq<char>) -> bool {
    ||| (s.len() >= 3 && is_drive_letter(s[0]) && s[1] == ':' && is_path_separator(s[2]))
    ||| (s.len() >= 2 && is_path_separator(s[0]) && is_path_separator(s[1]))
}

/// The verdict on a log directory read from the store: empty, ill-
/// charactered and relative values are rejected; an existing path must
/// be a directory; a missing path is fine (it will be created); an
/// unexaminable path is rejected.
pub open spec fn spec_validate_log_directory_value(
    read: Result<Seq<char>, RegReadError>,
    probe: DirProbe,
) -> Result<Seq<char>, ConfigError> {
    match read {
        Ok(dir) => if dir.len() == 0 {
            Err(ConfigError::LogDirValueEmpty)
        } else if has_bad_characters(dir) || colon_misplaced(dir) {
            Err(ConfigError::LogDirInvalidCharacters)
        } else if !spec_is_absolute(dir) {
            Err(ConfigError::LogDirRelative)
        } else {
            match probe {
                DirProbe::IsDirectory => Ok(dir),
                DirProbe::NotADirectory => Err(ConfigError::LogDirNotADirectory),
                DirProbe::Missing => Ok(dir),
                DirProbe::Inaccessible => Err(ConfigError::LogDirInaccessible),
            }
        },
        Err(RegReadError::NotFound) => Err(ConfigError::LogDirNotSet),
        Err(RegReadError::Other) => Err(ConfigError::LogDirReadFailed),
    }
}

fn scan_characters(dir: &str) -> (ok: bool)
    ensures
        ok == (!has_bad_characters(dir@) && !colon_misplaced(dir@)),
{
    let n = dir.unicode_len();
    let mut i: usize = 0;
    while i < n
        invariant
            i <= n,
            n == dir@.len(),
            forall|k: int| 0 <= k < i ==> !bad_path_char(#[trigger] dir@[k]),
            forall|k: int| 0 <= k < i ==> !(#[trigger] dir@[k] == ':' && k != 1),
        decreases n - i,
    {
        let c = dir.get_char(i);
        if c == '<' || c == '>' || c == '"' || c == '|' || c == '?' || c == '*' {
            return false;
        }
        if c == ':' && i != 1 {
            return false;
        }
        i += 1;
    }
    true
}

fn is_absolute_path(dir: &str) -> (absolute: bool)
    ensures
        absolute == spec_is_absolute(dir@),
{
    let n = dir.unicode_len();
    if n >= 3 {
        let c0 = dir.get_char(0);
        let c1 = dir.get_char(1);
        let c2 = dir.get_char(2);
        let drive = (('a' <= c0 && c0 <= 'z') || ('A' <= c0 && c0 <= 'Z')) && c1 == ':' && (c2
            == '\\' || c2 == '/');
        let unc = (c0 == '\\' || c0 == '/') && (c1 == '\\' || c1 == '/');
        drive || unc
    } else if n >= 2 {
        let c0 = dir.get_char(0);
        let c1 = dir.get_char(1);
        (c0 == '\\' || c0 == '/') && (c1 == '\\' || c1 == '/')
    } else {
        false
    }
}

pub fn validate_log_directory_config_value(
    read: Result<String, RegReadError>,
    probe: DirProbe,
) -> (r: Result<String, ConfigError>)
    ensures
        (match r {
            Ok(d) => spec_validate_log_directory_value(reg_string_view(read), probe) == Ok::<
                _,
                ConfigError,
            >(d@),
            Err(e) => spec_validate_log_directory_value(reg_string_view(read), probe) == Err::<
                Seq<char>,
                _,
            >(e),
        }),
{
    match read {
        Ok(dir) => {
            if dir.as_str().is_empty() {
                return Err(ConfigError::LogDirValueEmpty);
            }
            if !scan_characters(dir.as_str()) {
                return Err(ConfigError::LogDirInvalidCharacters);
            }
            if !is_absolute_path(dir.as_str()) {
                return Err(ConfigError::LogDirRelative);
            }
            match probe {
                DirProbe::IsDirectory => Ok(dir),
                DirProbe::NotADirectory => Err(ConfigError::LogDirNotADirectory),
                DirProbe::Missing => Ok(dir),
                DirProbe::Inaccessible => Err(ConfigError::LogDirInaccessible),
            }
        },
        Err(RegReadError::NotFound) => Err(ConfigError::LogDirNotSet),
        Err(RegReadError::Other) => Err(ConfigError::LogDirReadFailed),
    }
}

/// The verdict on the log-directory entry however it was sourced: an
/// absent file entry has its own words; everything else goes through
/// the value check.
pub open spec fn spec_validate_log_directory(
    entry: Result<Seq<char>, Option<RegReadError>>,
    probe: DirProbe,
) -> Result<Seq<char>, ConfigError> {
    match entry {
        Ok(dir) => spec_validate_log_directory_value(Ok(dir), probe),
        Err(None) => Err(ConfigError::LogDirFileEntryEmpty),
        Err(Some(e)) => spec_validate_log_directory_value(Err(e), probe),
    }
}

pub fn validate_log_directory(
    entry: Result<String, Option<RegReadError>>,
    probe: DirProbe,
) -> (r: Result<String, ConfigError>)
    ensures
        (match r {
            Ok(d) => spec_validate_log_directory(
                match entry {
                    Ok(s) => Ok(s@),
                    Err(e) => Err(e),
                },
                probe,
            ) == Ok::<_, ConfigError>(d@),
            Err(e) => spec_validate_log_directory(
                match entry {
                    Ok(s) => Ok(s@),
                    Err(oe) => Err(oe),
                },
                probe,
            ) == Err::<Seq<char>, _>(e),
        }),
{
    match entry {
        Ok(dir) => validate_log_directory_config_value(Ok(dir), probe),
        Err(None) => Err(ConfigError::LogDirFileEntryEmpty),
        Err(Some(e)) => validate_log_directory_config_value(Err(e), probe),
    }
}

/// A validated directory survives creation when it was created or
/// already existed.
pub open spec fn spec_create_log_dir(dir: Seq<char>, created: CreateDirProbe) -> Result<
    Seq<char>,
    ConfigError,
> {
    match created {
        CreateDirProbe::Created => Ok(dir),
        CreateDirProbe::AlreadyExists => Ok(dir),
        CreateDirProbe::Failed => Err(ConfigError::LogDirCreateFailed),
    }
}

pub fn create_log_dir(dir: String, created: CreateDirProbe) -> (r: Result<String, ConfigError>)
    ensures
        (match r {
            Ok(d) => spec_create_log_dir(dir@, created) == Ok::<_, ConfigError>(d@),
            Err(e) => spec_create_log_dir(dir@, created) == Err::<Seq<char>, _>(e),
        }),
{
    match created {
        CreateDirProbe::Created => Ok(dir),
        CreateDirProbe::AlreadyExists => Ok(dir),
        CreateDirProbe::Failed => Err(ConfigError::LogDirCreateFailed),
    }
}

/// One reading of every configuration value in the backing store.
pub struct RegistrySnapshot {
    pub processes: Result<Vec<String>, RegReadError>,
    pub trace_name: Result<String, RegReadError>,
    pub hook_dll_name: Result<String, RegReadError>,
    pub log_directory: Result<String, RegReadError>,
}

/// What the host could tell about itself: the executable's path, what
/// probing the configured log directory found, what creating it came
/// to, and which process width this build runs as.
pub struct HostProbes {
    pub exe_path: Option<String>,
    pub log_dir: DirProbe,
    pub create_dir: CreateDirProbe,
    pub x64: bool,
}

/// The whole resolution, in the order the store is consulted: the
/// process list first, then the trace name, then the hook module's
/// path — the first failure among them is the result — and finally the
/// log directory, whose own verdict rides along without failing the
/// rest.
pub open spec fn spec_get_configuration(
    processes: Result<Seq<Seq<char>>, RegReadError>,
    trace_name: Result<Seq<char>, RegReadError>,
    hook_dll_name: Result<Seq<char>, RegReadError>,
    log_directory: Result<Seq<char>, RegReadError>,
    exe: Option<Seq<char>>,
    log_dir_probe: DirProbe,
    create_dir: CreateDirProbe,
    x64: bool,
) -> Result<ConfigView, ConfigError> {
    match spec_resolve_processes(processes) {
        Err(e) => Err(e),
        Ok(ps) => match spec_resolve_trace_name(trace_name, x64) {
            Err(e) => Err(e),
            Ok(trace) => match spec_resolve_hook_dll_path(hook_dll_name, exe) {
                Err(e) => Err(e),
                Ok(dll) => {
                    let entry = match log_directory {
                        Ok(d) => Ok(d),
                        Err(e) => Err(Some(e)),
                    };
                    let log_dir = match spec_validate_log_directory(entry, log_dir_probe) {
                        Ok(d) => spec_create_log_dir(d, create_dir),
                        Err(e) => Err(e),
                    };
                    Ok(
                        ConfigView {
                            hook_dll_path: dll,
                            trace_name: trace,
                            processes: ps,
                            log_directory: log_dir,
                        },
                    )
                },
            },
        },
    }
}

impl InjectorConfig {
    /// Resolves the full configuration from one reading of the store
    /// and the host's answers, deciding exactly as
    /// [`spec_get_configuration`] says.
    pub fn get_configuration(reg: RegistrySnapshot, probes: HostProbes) -> (r: Result<
        InjectorConfig,
        ConfigError,
    >)
        ensures
            (match r {
                Ok(c) => spec_get_configuration(
                    reg_strings_view(reg.processes),
                    reg_string_view(reg.trace_name),
                    reg_string_view(reg.hook_dll_name),
                    reg_string_view(reg.log_directory),
                    opt_string_view(probes.exe_path),
                    probes.log_dir,
                    probes.create_dir,
                    probes.x64,
                ) == Ok::<_, ConfigError>(c.view_of()),
                Err(e) => spec_get_configuration(
                    reg_strings_view(reg.processes),
                    reg_string_view(reg.trace_name),
                    reg_string_view(reg.hook_dll_name),
                    reg_string_view(reg.log_directory),
                    opt_string_view(probes.exe_path),
                    probes.log_dir,
                    probes.create_dir,
                    probes.x64,
                ) == Err::<ConfigView, _>(e),
            }),
    {
        let processes = match resolve_processes(reg.processes) {
            Ok(ps) => ps,
            Err(e) => {
                return Err(e);
            },
        };
        let trace_name = match resolve_trace_name(reg.trace_name, probes.x64) {
            Ok(t) => t,
            Err(e) => {
                return Err(e);
            },
        };
        let hook_dll_path = match resolve_hook_dll_path(reg.hook_dll_name, &probes.exe_path) {
            Ok(p) => p,
            Err(e) => {
                return Err(e);
            },
        };
        let entry: Result<String, Option<RegReadError>> = match reg.log_directory {
            Ok(d) => Ok(d),
            Err(e) => Err(Some(e)),
        };
        let log_directory = match validate_log_directory(entry, probes.log_dir) {
            Ok(d) => create_log_dir(d, probes.create_dir),
            Err(e) => Err(e),
        };
        Ok(InjectorConfig { hook_dll_path, trace_name, processes, log_directory })
    }
}

} // verus!
