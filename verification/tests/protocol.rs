use cmakr::Action;
use cmakr::BuildError;
use cmakr::Cmd;
use cmakr::Event;
use cmakr::Invocation;

const FIXTURE: &str = r#"{
    "version": 3,
    "configurePresets": [
        {"name": "base", "hidden": true},
        {"name": "default", "hidden": false}
    ]
}"#;

/// One simulated environment: the reply for each kind of effect the
/// machine may ask for.
struct Sim {
    tool: bool,
    file: Option<&'static str>,
    dir_ok: bool,
    canonical: Option<&'static str>,
    configure_status: Option<i32>,
    build_status: Option<i32>,
}

impl Sim {
    fn all_good() -> Sim {
        Sim {
            tool: true,
            file: Some(FIXTURE),
            dir_ok: true,
            canonical: Some("/abs/out"),
            configure_status: Some(0),
            build_status: Some(0),
        }
    }
}

/// Drives an invocation against a simulated environment, recording one
/// line per performed effect.
fn run_sim(mut inv: Invocation, sim: &Sim, log: &mut Vec<String>) -> Result<(), BuildError> {
    loop {
        match inv.action() {
            Action::CheckTool(name) => {
                log.push(format!("tool {}", name));
                inv = inv.step(Event::Tool(sim.tool));
            }
            Action::ReadPresetFile(path) => {
                log.push(format!("read {}", path));
                inv = inv.step(Event::FileRead(sim.file.map(|t| t.to_string())));
            }
            Action::CreateDir(path) => {
                log.push(format!("mkdir {}", path));
                inv = inv.step(Event::DirMade(sim.dir_ok));
            }
            Action::Canonicalize(path) => {
                log.push(format!("canon {}", path));
                inv = inv.step(Event::Canonical(sim.canonical.map(|p| p.to_string())));
            }
            Action::RunConfigure(args) => {
                log.push(format!("configure {}", args.join(" ")));
                inv = inv.step(Event::Exited(sim.configure_status));
            }
            Action::RunBuild(args) => {
                log.push(format!("build {}", args.join(" ")));
                inv = inv.step(Event::Exited(sim.build_status));
            }
            Action::Finished(result) => {
                return result;
            }
        }
    }
}

#[test]
fn execute_cmake() {
    let inv = Cmd::default().set_path("./test/").set_preset("default").build();
    let mut log = Vec::new();
    let cmd = run_sim(inv, &Sim::all_good(), &mut log);
    assert_eq!(cmd.is_ok(), true);
}

#[test]
fn spawn_cmake() {
    let inv = Cmd::default()
        .set_path("./test/")
        .set_binary_path("./build")
        .set_output_path("./bin")
        .build();
    let mut log = Vec::new();
    let sim = Sim {
        file: None,
        ..Sim::all_good()
    };
    let result = run_sim(inv, &sim, &mut log);
    assert_eq!(result.is_ok(), true);
}

#[test]
fn preset_file_read_from_source_directory() {
    let inv = Cmd::default().set_path("./test/").set_preset("default").build();
    let mut log = Vec::new();
    run_sim(inv, &Sim::all_good(), &mut log).unwrap();
    assert!(log.contains(&"read ./test/CMakePresets.json".to_string()));
}

#[test]
fn default_builder_uses_build_directories() {
    let inv = Cmd::default().build();
    let mut log = Vec::new();
    let sim = Sim {
        file: None,
        canonical: Some("/abs/build"),
        ..Sim::all_good()
    };
    let result = run_sim(inv, &sim, &mut log);
    assert!(result.is_ok());
    assert_eq!(
        log,
        vec![
            "tool cmake".to_string(),
            "mkdir build".to_string(),
            "mkdir build".to_string(),
            "canon build".to_string(),
            "configure -S . -B build \
             -DCMAKE_RUNTIME_OUTPUT_DIRECTORY=/abs/build \
             -DCMAKE_LIBRARY_OUTPUT_DIRECTORY=/abs/build \
             -DCMAKE_ARCHIVE_OUTPUT_DIRECTORY=/abs/build"
                .to_string(),
            "build --build build".to_string(),
        ]
    );
}

#[test]
fn full_configure_command_line_is_exact() {
    let inv = Cmd::default()
        .set_path("./proj")
        .set_binary_path("./bin")
        .set_output_path("./out")
        .set_preset("default")
        .add_define("CMAKE_BUILD_TYPE", "Release")
        .add_define("CMAKE_EXPORT_COMPILE_COMMANDS", "ON")
        .add_arg("-Wno-dev")
        .build();
    let mut log = Vec::new();
    let sim = Sim {
        canonical: Some("/abs/proj/out"),
        ..Sim::all_good()
    };
    run_sim(inv, &sim, &mut log).unwrap();
    assert_eq!(
        log,
        vec![
            "tool cmake".to_string(),
            "read ./proj/CMakePresets.json".to_string(),
            "mkdir ./bin".to_string(),
            "mkdir ./out".to_string(),
            "canon ./out".to_string(),
            "configure -S ./proj -B ./bin --preset=default \
             -DCMAKE_BUILD_TYPE=Release -DCMAKE_EXPORT_COMPILE_COMMANDS=ON \
             -DCMAKE_RUNTIME_OUTPUT_DIRECTORY=/abs/proj/out \
             -DCMAKE_LIBRARY_OUTPUT_DIRECTORY=/abs/proj/out \
             -DCMAKE_ARCHIVE_OUTPUT_DIRECTORY=/abs/proj/out -Wno-dev"
                .to_string(),
            "build --build ./bin -Wno-dev".to_string(),
        ]
    );
}

#[test]
fn blocking_and_background_drivers_agree() {
    // Both entry points drive the same machine; two drives of equal
    // builders against equal environments end with the same result.
    let make = || Cmd::default().set_path("./test/").set_preset("default").build();
    let mut log1 = Vec::new();
    let mut log2 = Vec::new();
    let r1 = run_sim(make(), &Sim::all_good(), &mut log1);
    let r2 = run_sim(make(), &Sim::all_good(), &mut log2);
    assert_eq!(r1, r2);
    assert_eq!(log1, log2);
}

#[test]
fn configure_failure_skips_build() {
    let inv = Cmd::default().set_path("./proj").build();
    let mut log = Vec::new();
    let sim = Sim {
        configure_status: Some(1),
        ..Sim::all_good()
    };
    let result = run_sim(inv, &sim, &mut log);
    assert_eq!(result, Err(BuildError::ConfigureFailed(1)));
    assert!(log.iter().all(|line| !line.starts_with("build ")));
}

#[test]
fn missing_preset_fails_before_directories() {
    let inv = Cmd::default().set_path("./proj").set_preset("release").build();
    let mut log = Vec::new();
    let result = run_sim(inv, &Sim::all_good(), &mut log);
    assert_eq!(result, Err(BuildError::PresetNotFound("release".to_string())));
    assert!(log.iter().all(|line| !line.starts_with("mkdir ")));
    assert_eq!(
        log,
        vec!["tool cmake".to_string(), "read ./proj/CMakePresets.json".to_string()]
    );
}

#[test]
fn hidden_preset_is_not_selectable() {
    let inv = Cmd::default().set_path("./proj").set_preset("base").build();
    let mut log = Vec::new();
    let result = run_sim(inv, &Sim::all_good(), &mut log);
    assert_eq!(result, Err(BuildError::PresetNotFound("base".to_string())));
}

#[test]
fn new_output_directory_is_created_and_canonicalized() {
    let inv = Cmd::default().set_output_path("out").build();
    let mut log = Vec::new();
    let sim = Sim {
        file: None,
        canonical: Some(r"\\?\C:\work\out"),
        ..Sim::all_good()
    };
    run_sim(inv, &sim, &mut log).unwrap();
    assert!(log.contains(&"mkdir out".to_string()));
    assert!(log.contains(&"canon out".to_string()));
    let configure = log.iter().find(|l| l.starts_with("configure ")).unwrap();
    assert!(configure.contains(r"-DCMAKE_RUNTIME_OUTPUT_DIRECTORY=C:\work\out"));
    assert!(configure.contains(r"-DCMAKE_LIBRARY_OUTPUT_DIRECTORY=C:\work\out"));
    assert!(configure.contains(r"-DCMAKE_ARCHIVE_OUTPUT_DIRECTORY=C:\work\out"));
    assert!(!configure.contains(r"\\?\"));
}

#[test]
fn tool_not_found_is_fatal() {
    let inv = Cmd::default().build();
    let mut log = Vec::new();
    let sim = Sim {
        tool: false,
        ..Sim::all_good()
    };
    let result = run_sim(inv, &sim, &mut log);
    assert_eq!(result, Err(BuildError::ToolNotFound));
    assert_eq!(log, vec!["tool cmake".to_string()]);
}

#[test]
fn unreadable_preset_file_is_a_config_error() {
    let inv = Cmd::default().set_preset("default").build();
    let mut log = Vec::new();
    let sim = Sim {
        file: None,
        ..Sim::all_good()
    };
    let result = run_sim(inv, &sim, &mut log);
    assert_eq!(result, Err(BuildError::ConfigError));
}

#[test]
fn malformed_preset_file_is_a_config_error() {
    let inv = Cmd::default().set_preset("default").build();
    let mut log = Vec::new();
    let sim = Sim {
        file: Some("not json at all"),
        ..Sim::all_good()
    };
    let result = run_sim(inv, &sim, &mut log);
    assert_eq!(result, Err(BuildError::ConfigError));
}

#[test]
fn directory_failure_is_an_io_error() {
    let inv = Cmd::default().build();
    let mut log = Vec::new();
    let sim = Sim {
        dir_ok: false,
        ..Sim::all_good()
    };
    let result = run_sim(inv, &sim, &mut log);
    assert_eq!(result, Err(BuildError::IoError));
}

#[test]
fn canonicalization_failure_is_an_io_error() {
    let inv = Cmd::default().build();
    let mut log = Vec::new();
    let sim = Sim {
        canonical: None,
        ..Sim::all_good()
    };
    let result = run_sim(inv, &sim, &mut log);
    assert_eq!(result, Err(BuildError::IoError));
}

#[test]
fn configure_without_status_is_an_io_error() {
    let inv = Cmd::default().build();
    let mut log = Vec::new();
    let sim = Sim {
        configure_status: None,
        ..Sim::all_good()
    };
    let result = run_sim(inv, &sim, &mut log);
    assert_eq!(result, Err(BuildError::IoError));
}

#[test]
fn build_failure_reports_its_status() {
    let inv = Cmd::default().build();
    let mut log = Vec::new();
    let sim = Sim {
        build_status: Some(3),
        ..Sim::all_good()
    };
    let result = run_sim(inv, &sim, &mut log);
    assert_eq!(result, Err(BuildError::BuildFailed(3)));
}

#[test]
fn finished_invocation_reports_done() {
    let inv = Cmd::default().build();
    assert!(!inv.is_done());
    let inv = inv.step(Event::Tool(false));
    assert!(inv.is_done());
    match inv.action() {
        Action::Finished(result) => assert_eq!(result, Err(BuildError::ToolNotFound)),
        other => panic!("expected a finished invocation, got {:?}", other),
    }
}
