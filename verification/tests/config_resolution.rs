//! Configuration resolution: defaults, derivations and every error,
//! each from the one input that produces it.

use noblock_input::configuration::ConfigError;
use noblock_input::configuration::CreateDirProbe;
use noblock_input::configuration::DirProbe;
use noblock_input::configuration::HostProbes;
use noblock_input::configuration::InjectorConfig;
use noblock_input::configuration::RegReadError;
use noblock_input::configuration::RegistrySnapshot;
use noblock_input::configuration::validate_log_directory_config_value;
use noblock_input::injector_config::InjectorConfig as InjectorSideConfig;
use noblock_input::injector_config::select_for_arch;
use noblock_input::injector_config::FullConfig;
use noblock_input::injector_config::RegistryConfigError;
use noblock_input::injector_config::sibling_path;
use noblock_input::log_files::file_logger_decision;
use noblock_input::log_files::get_log_file_path;
use noblock_input::log_files::plan_log_file;
use noblock_input::paths::file_name_of;
use noblock_input::paths::with_dll_extension;

fn good_registry() -> RegistrySnapshot {
    RegistrySnapshot {
        processes: Ok(vec![String::from("app.exe")]),
        trace_name: Ok(String::from("MyTrace")),
        hook_dll_name: Ok(String::from(r"C:\hooks\payload.dll")),
        log_directory: Ok(String::from(r"C:\logs")),
    }
}

fn good_probes() -> HostProbes {
    HostProbes {
        exe_path: Some(String::from(r"C:\tools\injector.exe")),
        log_dir: DirProbe::IsDirectory,
        create_dir: CreateDirProbe::AlreadyExists,
        x64: true,
    }
}

#[test]
fn full_resolution_keeps_configured_values() {
    let config = InjectorConfig::get_configuration(good_registry(), good_probes()).unwrap();
    assert_eq!(config.hook_dll_path, r"C:\hooks\payload.dll");
    assert_eq!(config.trace_name, "MyTrace");
    assert_eq!(config.processes, vec![String::from("app.exe")]);
    assert_eq!(config.log_directory.unwrap(), r"C:\logs");
}

#[test]
fn empty_processes_entry_is_an_error() {
    let mut reg = good_registry();
    reg.processes = Ok(vec![String::new()]);
    let err = InjectorConfig::get_configuration(reg, good_probes()).unwrap_err();
    assert_eq!(err, ConfigError::ProcessesEmpty);
    assert_eq!(
        err.message(),
        "The processes entry in the registry configuration is empty."
    );
    let mut reg = good_registry();
    reg.processes = Ok(vec![]);
    let err = InjectorConfig::get_configuration(reg, good_probes()).unwrap_err();
    assert_eq!(err, ConfigError::ProcessesEmpty);
}

#[test]
fn missing_processes_entries_name_their_errors() {
    let mut reg = good_registry();
    reg.processes = Err(RegReadError::NotFound);
    assert_eq!(
        InjectorConfig::get_configuration(reg, good_probes()).unwrap_err(),
        ConfigError::ProcessesReadFailed
    );
    let mut reg = good_registry();
    reg.processes = Err(RegReadError::Other);
    assert_eq!(
        InjectorConfig::get_configuration(reg, good_probes()).unwrap_err(),
        ConfigError::ProcessesMissing
    );
}

#[test]
fn trace_name_defaults_when_empty_or_unreadable() {
    let mut reg = good_registry();
    reg.trace_name = Ok(String::new());
    let config = InjectorConfig::get_configuration(reg, good_probes()).unwrap();
    assert_eq!(config.trace_name, "NoBlockInput");

    let mut reg = good_registry();
    reg.trace_name = Err(RegReadError::Other);
    let config = InjectorConfig::get_configuration(reg, good_probes()).unwrap();
    assert_eq!(config.trace_name, "NoBlockInput");

    let mut reg = good_registry();
    reg.trace_name = Err(RegReadError::NotFound);
    assert_eq!(
        InjectorConfig::get_configuration(reg, good_probes()).unwrap_err(),
        ConfigError::TraceNameReadFailed
    );
}

#[test]
fn hook_dll_path_derives_from_exe_when_unconfigured() {
    let mut reg = good_registry();
    reg.hook_dll_name = Ok(String::new());
    let config = InjectorConfig::get_configuration(reg, good_probes()).unwrap();
    assert_eq!(config.hook_dll_path, r"C:\tools\injector.dll");

    let mut reg = good_registry();
    reg.hook_dll_name = Ok(String::new());
    let mut probes = good_probes();
    probes.exe_path = None;
    assert_eq!(
        InjectorConfig::get_configuration(reg, probes).unwrap_err(),
        ConfigError::ExePathUnavailable
    );

    let mut reg = good_registry();
    reg.hook_dll_name = Err(RegReadError::NotFound);
    assert_eq!(
        InjectorConfig::get_configuration(reg, good_probes()).unwrap_err(),
        ConfigError::HookDllReadFailed
    );
}

#[test]
fn extension_swap_handles_the_edges() {
    assert_eq!(with_dll_extension(r"C:\a\injector.exe"), r"C:\a\injector.dll");
    assert_eq!(with_dll_extension(r"C:\a\archive.tar.gz"), r"C:\a\archive.tar.dll");
    assert_eq!(with_dll_extension(r"C:\a\noext"), r"C:\a\noext.dll");
    assert_eq!(with_dll_extension(r"C:\a\.hidden"), r"C:\a\.hidden.dll");
    assert_eq!(with_dll_extension("plain.exe"), "plain.dll");
    assert_eq!(with_dll_extension(""), ".dll");
}

#[test]
fn log_directory_verdicts() {
    let ok = validate_log_directory_config_value(
        Ok(String::from(r"C:\logs")),
        DirProbe::Missing,
    );
    assert_eq!(ok.unwrap(), r"C:\logs");

    let cases: Vec<(Result<String, RegReadError>, DirProbe, ConfigError)> = vec![
        (Ok(String::new()), DirProbe::IsDirectory, ConfigError::LogDirValueEmpty),
        (
            Ok(String::from(r"C:\logs\bad?")),
            DirProbe::IsDirectory,
            ConfigError::LogDirInvalidCharacters,
        ),
        (
            Ok(String::from(r"C:\logs\second:colon")),
            DirProbe::IsDirectory,
            ConfigError::LogDirInvalidCharacters,
        ),
        (Ok(String::from(r"logs\here")), DirProbe::IsDirectory, ConfigError::LogDirRelative),
        (Ok(String::from(r"C:relative")), DirProbe::IsDirectory, ConfigError::LogDirRelative),
        (
            Ok(String::from(r"C:\logs")),
            DirProbe::NotADirectory,
            ConfigError::LogDirNotADirectory,
        ),
        (
            Ok(String::from(r"C:\logs")),
            DirProbe::Inaccessible,
            ConfigError::LogDirInaccessible,
        ),
        (Err(RegReadError::NotFound), DirProbe::IsDirectory, ConfigError::LogDirNotSet),
        (Err(RegReadError::Other), DirProbe::IsDirectory, ConfigError::LogDirReadFailed),
    ];
    for (read, probe, expected) in cases {
        assert_eq!(validate_log_directory_config_value(read, probe), Err(expected));
    }
}

#[test]
fn unc_paths_count_as_absolute() {
    let ok = validate_log_directory_config_value(
        Ok(String::from(r"\\server\share\logs")),
        DirProbe::IsDirectory,
    );
    assert!(ok.is_ok());
}

#[test]
fn log_directory_failure_rides_along_without_failing_the_rest() {
    let mut reg = good_registry();
    reg.log_directory = Ok(String::from(r"relative\logs"));
    let config = InjectorConfig::get_configuration(reg, good_probes()).unwrap();
    assert_eq!(config.log_directory.unwrap_err(), ConfigError::LogDirRelative);

    let mut reg = good_registry();
    let mut probes = good_probes();
    probes.log_dir = DirProbe::Missing;
    probes.create_dir = CreateDirProbe::Failed;
    reg.log_directory = Ok(String::from(r"C:\new-logs"));
    let config = InjectorConfig::get_configuration(reg, probes).unwrap();
    assert_eq!(config.log_directory.unwrap_err(), ConfigError::LogDirCreateFailed);
}

#[test]
fn file_names_come_from_the_last_separator() {
    assert_eq!(file_name_of(r"C:\x\app.exe").unwrap(), "app.exe");
    assert_eq!(file_name_of("dir/sub/tool").unwrap(), "tool");
    assert_eq!(file_name_of("bare.exe").unwrap(), "bare.exe");
    assert!(file_name_of(r"C:\x\").is_none());
    assert!(file_name_of("").is_none());
}

#[test]
fn sibling_path_replaces_the_file_name() {
    assert_eq!(
        sibling_path(r"C:\tools\injector.exe", "payload.dll"),
        r"C:\tools\payload.dll"
    );
    assert_eq!(sibling_path("injector.exe", "payload.dll"), "payload.dll");
}

#[test]
fn source_selection_falls_back_only_by_default() {
    let registry_config = || InjectorSideConfig {
        hook_dll_path: String::from(r"C:\r.dll"),
        trace_name: String::from("R"),
        processes: vec![String::from("a.exe")],
    };
    let file_config = || InjectorSideConfig {
        hook_dll_path: String::from(r"C:\f.dll"),
        trace_name: String::from("F"),
        processes: vec![String::from("b.exe")],
    };

    let chosen = InjectorSideConfig::try_new(None, Ok(registry_config()), Some(file_config()));
    assert_eq!(chosen.unwrap().trace_name, "R");

    let chosen = InjectorSideConfig::try_new(
        None,
        Err(RegistryConfigError::ProcessesRead),
        Some(file_config()),
    );
    assert_eq!(chosen.unwrap().trace_name, "F");

    let chosen = InjectorSideConfig::try_new(
        Some(true),
        Err(RegistryConfigError::ProcessesRead),
        Some(file_config()),
    );
    assert!(chosen.is_none());

    let chosen = InjectorSideConfig::try_new(Some(false), Ok(registry_config()), Some(file_config()));
    assert_eq!(chosen.unwrap().trace_name, "F");
}

#[test]
fn registry_reading_on_the_injector_side() {
    let exe = Some(String::from(r"C:\tools\injector.exe"));
    let config = InjectorSideConfig::read_registry(
        Ok(String::new()),
        Ok(vec![String::from("app.exe")]),
        Ok(String::from("custom.dll")),
        &exe,
        true,
    )
    .unwrap();
    assert_eq!(config.trace_name, "NoBlockInput");
    assert_eq!(config.hook_dll_path, r"C:\tools\custom.dll");

    let config = InjectorSideConfig::read_registry(
        Ok(String::from("T")),
        Ok(vec![String::from("app.exe")]),
        Ok(String::new()),
        &exe,
        true,
    )
    .unwrap();
    assert_eq!(config.hook_dll_path, r"C:\tools\injector.dll");

    let err = InjectorSideConfig::read_registry(
        Ok(String::from("T")),
        Err(RegReadError::NotFound),
        Ok(String::new()),
        &exe,
        true,
    )
    .unwrap_err();
    assert_eq!(err, RegistryConfigError::ProcessesRead);
}

#[test]
fn absolute_configured_names_are_kept_verbatim() {
    // A configured hook-module name that names its own place is taken
    // as it stands; only a bare name is placed beside the executable.
    let exe = Some(String::from(r"C:\tools\injector.exe"));
    let verbatim = [r"C:\hooks\nbi.dll", r"\\server\share\nbi.dll", r"\rooted.dll"];
    for name in verbatim {
        let config = InjectorSideConfig::read_registry(
            Ok(String::from("T")),
            Ok(vec![String::from("app.exe")]),
            Ok(String::from(name)),
            &exe,
            true,
        )
        .unwrap();
        assert_eq!(config.hook_dll_path, name);
    }
    let config = InjectorSideConfig::read_registry(
        Ok(String::from("T")),
        Ok(vec![String::from("app.exe")]),
        Ok(String::from("payload.dll")),
        &exe,
        true,
    )
    .unwrap();
    assert_eq!(config.hook_dll_path, r"C:\tools\payload.dll");
}

#[test]
fn narrow_build_gets_its_own_default_trace_name() {
    let mut reg = good_registry();
    reg.trace_name = Ok(String::new());
    let mut probes = good_probes();
    probes.x64 = false;
    let config = InjectorConfig::get_configuration(reg, probes).unwrap();
    assert_eq!(config.trace_name, "NoBlockInput_x86");

    let config = InjectorSideConfig::read_registry(
        Ok(String::new()),
        Ok(vec![String::from("app.exe")]),
        Ok(String::from("n.dll")),
        &Some(String::from(r"C:\t\i.exe")),
        false,
    )
    .unwrap();
    assert_eq!(config.trace_name, "NoBlockInput_x86");
}

#[test]
fn file_logger_rides_only_on_a_good_open() {
    let planned = plan_log_file(
        &Ok(String::from(r"C:\logs")),
        Some(r"C:\tools\injector.exe"),
        "t",
        9,
    );
    assert_eq!(planned.as_deref(), Some(r"C:\logs\t_injector_9.log"));

    let good = file_logger_decision(&Ok(String::from(r"C:\logs")), planned.clone(), true);
    assert!(good.attach_file_logger);
    assert_eq!(good.log_file_path.unwrap(), r"C:\logs\t_injector_9.log");

    let failed_open = file_logger_decision(&Ok(String::from(r"C:\logs")), planned, false);
    assert!(!failed_open.attach_file_logger);
    assert_eq!(failed_open.log_file_path.unwrap_err(), "Could not open log file.");

    let bad_dir: Result<String, ConfigError> = Err(ConfigError::LogDirRelative);
    assert!(plan_log_file(&bad_dir, None, "t", 9).is_none());
    let bad = file_logger_decision(&bad_dir, None, false);
    assert!(!bad.attach_file_logger);
    assert_eq!(
        bad.log_file_path.unwrap_err(),
        "The log directory path specified is relative. This leads to errors for hooked executables that can't write to their own parent directories."
    );
}

#[test]
fn log_file_paths_are_assembled_exactly() {
    assert_eq!(
        get_log_file_path(
            Some(r"C:\tools\injector.exe"),
            r"C:\logs",
            "2024-01-02_03-04-05",
            77
        ),
        r"C:\logs\2024-01-02_03-04-05_injector_77.log"
    );
    assert_eq!(
        get_log_file_path(Some(r"C:\x\app.exe"), r"C:\logs\", "t", 5),
        r"C:\logs\t_app_5.log"
    );
    assert_eq!(
        get_log_file_path(None, r"C:\logs", "t", 5),
        r"C:\logs\t_unknown_5.log"
    );
}

#[test]
fn arch_selection_picks_the_width() {
    let wide = InjectorSideConfig {
        hook_dll_path: String::from(r"C:\w.dll"),
        trace_name: String::from("NoBlockInput"),
        processes: vec![String::from("a.exe")],
    };
    let narrow = InjectorSideConfig {
        hook_dll_path: String::from(r"C:\n.dll"),
        trace_name: String::from("NoBlockInput_x86"),
        processes: vec![String::from("a.exe")],
    };
    let full = FullConfig { x64: wide, x86: narrow };
    assert_eq!(select_for_arch(full, false).trace_name, "NoBlockInput_x86");
}
