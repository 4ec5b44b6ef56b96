//! Where a log file goes and when one is opened at all: the file's
//! name is assembled from the moment, the hosting module's stem and
//! the process identifier, placed in the configured log directory, and
//! the file logger is attached exactly when that directory survived
//! validation and the file opened. The moment's rendering, the process
//! identifier and the open attempt itself come from outside; every
//! decision on them is exact.

use vstd::prelude::*;

use crate::configuration::spec_error_message;
use crate::configuration::ConfigError;
use crate::messages::decimal_digits;
use crate::messages::u32_to_decimal;
use crate::paths::file_name_of;
use crate::paths::is_path_separator;
use crate::paths::spec_file_name;
use crate::paths::strip_extension;
use crate::paths::strip_extension_of;

verus! {

/// The hosting module's stem: its file name without the extension, or
/// "unknown" when the module's path (or a name in it) is unavailable.
pub open spec fn spec_module_stem(module_file: Option<Seq<char>>) -> Seq<char> {
    match module_file {
        None => "unknown"@,
        Some(p) => match spec_file_name(strip_extension(p)) {
            Some(stem) => stem,
            None => "unknown"@,
        },
    }
}

pub fn module_stem(module_file: Option<&str>) -> (stem: String)
    ensures
        stem@ == spec_module_stem(
            match module_file {
                Some(p) => Some(p@),
                None => None,
            },
        ),
{
    match module_file {
        None => String::from_str("unknown"),
        Some(p) => {
            let stem_path = strip_extension_of(p);
            match file_name_of(stem_path.as_str()) {
                Some(stem) => stem,
                None => String::from_str("unknown"),
            }
        },
    }
}

/// TIME_STEM_PID.log
pub open spec fn spec_log_file_name(time: Seq<char>, stem: Seq<char>, pid: nat) -> Seq<char> {
    time + "_"@ + stem + "_"@ + decimal_digits(pid) + ".log"@
}

/// The file name placed in the directory; a directory already ending in
/// a separator gets no second one.
pub open spec fn spec_joined_path(dir: Seq<char>, name: Seq<char>) -> Seq<char> {
    if dir.len() > 0 && is_path_separator(dir.last()) {
        dir + name
    } else {
        dir + "\\"@ + name
    }
}

/// The full path of the log file for one run: the configured directory,
/// then the rendered moment, the hosting module's stem and the process
/// identifier, joined with underscores, under the `log` extension.
pub fn get_log_file_path(
    module_file: Option<&str>,
    log_directory: &str,
    formatted_time: &str,
    pid: u32,
) -> (path: String)
    ensures
        path@ == spec_joined_path(
            log_directory@,
            spec_log_file_name(
                formatted_time@,
                spec_module_stem(
                    match module_file {
                        Some(p) => Some(p@),
                        None => None,
                    },
                ),
                pid as nat,
            ),
        ),
{
    let stem = module_stem(module_file);
    let digits = u32_to_decimal(pid);
    let name = formatted_time.to_owned().concat("_").concat(stem.as_str()).concat("_").concat(
        digits.as_str(),
    ).concat(".log");
    let n = log_directory.unicode_len();
    if n > 0 {
        let last = log_directory.get_char(n - 1);
        if last == '\\' || last == '/' {
            return log_directory.to_owned().concat(name.as_str());
        }
    }
    log_directory.to_owned().concat("\\").concat(name.as_str())
}

/// Where the file logger's file would go: only a log directory that
/// survived validation gets one.
pub fn plan_log_file(
    log_directory: &Result<String, ConfigError>,
    module_file: Option<&str>,
    formatted_time: &str,
    pid: u32,
) -> (planned: Option<String>)
    ensures
        (match *log_directory {
            Ok(dir) => planned matches Some(p) && p@ == spec_joined_path(
                dir@,
                spec_log_file_name(
                    formatted_time@,
                    spec_module_stem(
                        match module_file {
                            Some(m) => Some(m@),
                            None => None,
                        },
                    ),
                    pid as nat,
                ),
            ),
            Err(_) => planned is None,
        }),
{
    match log_directory {
        Ok(dir) => Some(get_log_file_path(module_file, dir.as_str(), formatted_time, pid)),
        Err(_) => None,
    }
}

/// What logging setup decides once the host has tried to open the
/// planned file: whether the file logger rides beside the terminal
/// logger, and which path — or which words — the log-file report
/// carries.
pub struct FileLoggerDecision {
    pub attach_file_logger: bool,
    pub log_file_path: Result<String, String>,
}

/// The file logger is attached exactly when the directory verdict was
/// good and the planned file opened; a bad verdict reports its own
/// words, and a failed open (or a missing plan) reports the open
/// failure.
pub fn file_logger_decision(
    log_directory: &Result<String, ConfigError>,
    planned: Option<String>,
    open_ok: bool,
) -> (d: FileLoggerDecision)
    ensures
        (match *log_directory {
            Err(e) => !d.attach_file_logger && (d.log_file_path matches Err(m) && m@
                == spec_error_message(e)),
            Ok(_) => (match planned {
                Some(p) => if open_ok {
                    d.attach_file_logger && d.log_file_path == Ok::<String, String>(p)
                } else {
                    !d.attach_file_logger && (d.log_file_path matches Err(m) && m@
                        == "Could not open log file."@)
                },
                None => !d.attach_file_logger && (d.log_file_path matches Err(m) && m@
                    == "Could not open log file."@),
            }),
        }),
{
    match log_directory {
        Err(e) => FileLoggerDecision {
            attach_file_logger: false,
            log_file_path: Err(e.message()),
        },
        Ok(_) => match planned {
            Some(p) => {
                if open_ok {
                    FileLoggerDecision { attach_file_logger: true, log_file_path: Ok(p) }
                } else {
                    FileLoggerDecision {
                        attach_file_logger: false,
                        log_file_path: Err(String::from_str("Could not open log file.")),
                    }
                }
            },
            None => FileLoggerDecision {
                attach_file_logger: false,
                log_file_path: Err(String::from_str("Could not open log file.")),
            },
        },
    }
}

} // verus!
