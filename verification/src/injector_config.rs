//! The injector's own configuration source selection: the registry by
//! default with the configuration file as fallback, or either one
//! explicitly — asking for the registry explicitly never falls back.
//!
//! The file itself is read and parsed outside and arrives as a value
//! per process width; the registry reads arrive as plain results. The
//! hook module's path is the configured name — kept verbatim when it
//! names its own place, placed beside the executable otherwise — or
//! the executable's path with its extension swapped for `dll` when no
//! name is configured.

use vstd::prelude::*;

use crate::configuration::RegReadError;
use crate::configuration::default_trace_name;
use crate::configuration::spec_default_trace_name;
use crate::paths::is_anchored;
use crate::paths::spec_is_anchored;
use crate::paths::spec_with_dll_extension;
use crate::paths::tail_after_last_sep;
use crate::paths::lemma_tail_after_sep;
use crate::paths::lemma_tail_without_sep;
use crate::paths::is_path_separator;
use crate::paths::with_dll_extension;

verus! {

/// Why the registry could not yield a configuration; each names the
/// read that failed.
#[derive(Clone, Copy, PartialEq, Eq, Structural, Debug)]
pub enum RegistryConfigError {
    TraceNameRead,
    ProcessesRead,
    HookDllNameRead,
    ExePath,
}

/// The injector's resolved settings: the hook module's path, the trace
/// session's name, and the target process names.
#[derive(Debug)]
pub struct InjectorConfig {
    pub hook_dll_path: String,
    pub trace_name: String,
    pub processes: Vec<String>,
}

/// The settings for both process widths, as the configuration file lays
/// them out.
#[derive(Debug)]
pub struct FullConfig {
    pub x64: InjectorConfig,
    pub x86: InjectorConfig,
}

/// The one width this injector runs as.
pub fn select_for_arch(full: FullConfig, x64: bool) -> (c: InjectorConfig)
    ensures
        c == if x64 {
            full.x64
        } else {
            full.x86
        },
{
    if x64 {
        full.x64
    } else {
        full.x86
    }
}

/// The configured name placed in the executable's directory: the path
/// up to and including the last separator, then the name.
pub open spec fn spec_sibling_path(exe: Seq<char>, name: Seq<char>) -> Seq<char> {
    exe.subrange(0, exe.len() - tail_after_last_sep(exe).len()) + name
}

/// Places a file name beside the executable.
pub fn sibling_path(exe: &str, name: &str) -> (r: String)
    ensures
        r@ == spec_sibling_path(exe@, name@),
{
    let n = exe.unicode_len();
    let mut i: usize = n;
    while i > 0
        invariant
            i <= n,
            n == exe@.len(),
            forall|k: int| i <= k < n ==> !is_path_separator(#[trigger] exe@[k]),
        decreases i,
    {
        let c = exe.get_char(i - 1);
        if c == '\\' || c == '/' {
            proof {
                lemma_tail_after_sep(exe@, i - 1);
            }
            let prefix = exe.substring_char(0, i);
            return prefix.to_owned().concat(name);
        }
        i -= 1;
    }
    proof {
        lemma_tail_without_sep(exe@);
        assert(exe@.subrange(0, 0) =~= Seq::<char>::empty());
        assert(Seq::<char>::empty() + name@ =~= name@);
    }
    String::from_str(name)
}

/// The hook module's path from the configured name (already `None` when
/// empty) and the executable's path: a name that names its own place —
/// rooted or drive-prefixed — is kept verbatim; any other name is
/// placed beside the executable; with no name at all the executable's
/// path has its extension swapped for `dll`. The executable's path is
/// resolved first, so without it nothing is formed.
pub open spec fn spec_hook_dll_path(name: Option<Seq<char>>, exe: Option<Seq<char>>) -> Result<
    Seq<char>,
    RegistryConfigError,
> {
    match exe {
        None => Err(RegistryConfigError::ExePath),
        Some(exe) => match name {
            Some(name) => if spec_is_anchored(name) {
                Ok(name)
            } else {
                Ok(spec_sibling_path(exe, name))
            },
            None => Ok(spec_with_dll_extension(exe)),
        },
    }
}

pub fn get_hook_dll_path(hook_dll_name: Option<String>, exe_path: &Option<String>) -> (r: Result<
    String,
    RegistryConfigError,
>)
    ensures
        (match r {
            Ok(p) => spec_hook_dll_path(
                match hook_dll_name {
                    Some(n) => Some(n@),
                    None => None,
                },
                match *exe_path {
                    Some(e) => Some(e@),
                    None => None,
                },
            ) == Ok::<_, RegistryConfigError>(p@),
            Err(e) => spec_hook_dll_path(
                match hook_dll_name {
                    Some(n) => Some(n@),
                    None => None,
                },
                match *exe_path {
                    Some(e) => Some(e@),
                    None => None,
                },
            ) == Err::<Seq<char>, _>(e),
        }),
{
    match exe_path {
        None => Err(RegistryConfigError::ExePath),
        Some(exe) => match hook_dll_name {
            Some(name) => {
                if is_anchored(name.as_str()) {
                    Ok(name)
                } else {
                    Ok(sibling_path(exe.as_str(), name.as_str()))
                }
            },
            None => Ok(with_dll_extension(exe.as_str())),
        },
    }
}

/// Spec-level image of the injector's settings.
pub struct InjectorConfigView {
    pub hook_dll_path: Seq<char>,
    pub trace_name: Seq<char>,
    pub processes: Seq<Seq<char>>,
}

impl InjectorConfig {
    pub open spec fn view_of(self) -> InjectorConfigView {
        InjectorConfigView {
            hook_dll_path: self.hook_dll_path@,
            trace_name: self.trace_name@,
            processes: self.processes.deep_view(),
        }
    }
}

/// The registry reading: the trace name defaults (per process width)
/// when empty or absent, while the process list and the hook module
/// name must be readable; an empty hook module name means "derive from
/// the executable".
pub open spec fn spec_read_registry(
    trace_name: Result<Seq<char>, RegReadError>,
    processes: Result<Seq<Seq<char>>, RegReadError>,
    hook_dll_name: Result<Seq<char>, RegReadError>,
    exe: Option<Seq<char>>,
    x64: bool,
) -> Result<InjectorConfigView, RegistryConfigError> {
    let trace = match trace_name {
        Ok(name) => if name.len() == 0 {
            Ok(spec_default_trace_name(x64))
        } else {
            Ok(name)
        },
        Err(RegReadError::NotFound) => Ok(spec_default_trace_name(x64)),
        Err(RegReadError::Other) => Err(RegistryConfigError::TraceNameRead),
    };
    match trace {
        Err(e) => Err(e),
        Ok(trace) => match processes {
            Err(_) => Err(RegistryConfigError::ProcessesRead),
            Ok(ps) => match hook_dll_name {
                Err(_) => Err(RegistryConfigError::HookDllNameRead),
                Ok(dll_name) => {
                    let name = if dll_name.len() == 0 {
                        None
                    } else {
                        Some(dll_name)
                    };
                    match spec_hook_dll_path(name, exe) {
                        Err(e) => Err(e),
                        Ok(path) => Ok(
                            InjectorConfigView {
                                hook_dll_path: path,
                                trace_name: trace,
                                processes: ps,
                            },
                        ),
                    }
                },
            },
        },
    }
}

impl InjectorConfig {
    /// Resolves the injector's settings from one reading of the
    /// registry and the executable's path, deciding exactly as
    /// [`spec_read_registry`] says.
    pub fn read_registry(
        trace_name: Result<String, RegReadError>,
        processes: Result<Vec<String>, RegReadError>,
        hook_dll_name: Result<String, RegReadError>,
        exe_path: &Option<String>,
        x64: bool,
    ) -> (r: Result<InjectorConfig, RegistryConfigError>)
        ensures
            (match r {
                Ok(c) => spec_read_registry(
                    match trace_name {
                        Ok(s) => Ok(s@),
                        Err(e) => Err(e),
                    },
                    match processes {
                        Ok(v) => Ok(v.deep_view()),
                        Err(e) => Err(e),
                    },
                    match hook_dll_name {
                        Ok(s) => Ok(s@),
                        Err(e) => Err(e),
                    },
                    match *exe_path {
                        Some(e) => Some(e@),
                        None => None,
                    },
                    x64,
                ) == Ok::<_, RegistryConfigError>(c.view_of()),
                Err(e) => spec_read_registry(
                    match trace_name {
                        Ok(s) => Ok(s@),
                        Err(re) => Err(re),
                    },
                    match processes {
                        Ok(v) => Ok(v.deep_view()),
                        Err(re) => Err(re),
                    },
                    match hook_dll_name {
                        Ok(s) => Ok(s@),
                        Err(re) => Err(re),
                    },
                    match *exe_path {
                        Some(ex) => Some(ex@),
                        None => None,
                    },
                    x64,
                ) == Err::<InjectorConfigView, _>(e),
            }),
    {
        let trace_name = match trace_name {
            Ok(name) => {
                if name.as_str().is_empty() {
                    String::from_str(default_trace_name(x64))
                } else {
                    name
                }
            },
            Err(RegReadError::NotFound) => String::from_str(default_trace_name(x64)),
            Err(RegReadError::Other) => {
                return Err(RegistryConfigError::TraceNameRead);
            },
        };
        let processes = match processes {
            Ok(ps) => ps,
            Err(_) => {
                return Err(RegistryConfigError::ProcessesRead);
            },
        };
        let hook_dll_name = match hook_dll_name {
            Ok(name) => {
                if name.as_str().is_empty() {
                    None
                } else {
                    Some(name)
                }
            },
            Err(_) => {
                return Err(RegistryConfigError::HookDllNameRead);
            },
        };
        let hook_dll_path = match get_hook_dll_path(hook_dll_name, exe_path) {
            Ok(p) => p,
            Err(e) => {
                return Err(e);
            },
        };
        Ok(InjectorConfig { hook_dll_path, trace_name, processes })
    }

    /// Chooses the configuration source. Asking for nothing in
    /// particular tries the registry and falls back to the file;
    /// asking for the registry explicitly never falls back; asking for
    /// the file takes it alone.
    pub fn try_new(
        use_registry: Option<bool>,
        from_registry: Result<InjectorConfig, RegistryConfigError>,
        from_file: Option<InjectorConfig>,
    ) -> (r: Option<InjectorConfig>)
        ensures
            (match use_registry {
                None => (match from_registry {
                    Ok(c) => r == Some(c),
                    Err(_) => r == from_file,
                }),
                Some(true) => (match from_registry {
                    Ok(c) => r == Some(c),
                    Err(_) => r is None,
                }),
                Some(false) => r == from_file,
            }),
    {
        match use_registry {
            None => match from_registry {
                Ok(config) => Some(config),
                Err(_) => from_file,
            },
            Some(true) => match from_registry {
                Ok(config) => Some(config),
                Err(_) => None,
            },
            Some(false) => from_file,
        }
    }
}

} // verus!
