use linux_settings::cli::{CliSetting, RunnerProgram};
use linux_settings::command::{gio_write_result, ApplyRequest, CommandKind, CommandOutcome, ProbeStep};
use linux_settings::gsettings::{check_key_available, contains_string, GioRead, GioSetting, GioValueKind};
use linux_settings::modprobe::Modprobe;
use linux_settings::registry::SettingsRegistry;
use linux_settings::server::{
    after_static_fetch, answer_probe, collect_configs, finish_set_config, get_all_configs, output_fits_probe,
    request_fits_settings, set_config, static_target, sudo_warmup_command, ConfigProbe, ProbeOutput, SetConfigStep,
    StaticFetch,
};
use linux_settings::settings::{ApplySettings, SettingsType};
use linux_settings::systemctl::Systemctl;
use linux_settings::text::{str_contains, str_eq};
use linux_settings::value::{IncomingSettings, JsonValue, Types};

fn strings(v: &[&str]) -> Vec<String> {
    v.iter().map(|s| s.to_string()).collect()
}

fn run_parts(req: &ApplyRequest) -> (String, Vec<String>, CommandKind) {
    match req {
        ApplyRequest::RunCommand { command, kind } => (command.program.clone(), command.args.clone(), *kind),
        ApplyRequest::WriteGio { .. } => panic!("expected a command"),
    }
}

#[test]
fn test_cli_setting() {
    let mut setting = CliSetting { command: "echo 1".to_string(), terminal: RunnerProgram::Bash };
    let command = "echo 2 && (echo 3 | grep 3)";
    setting.set_value(Types::String(command.to_string()));
    assert_eq!(setting.command, command);
    let plan = setting.clone().apply();
    assert!(plan.is_ok());
    let (program, args, kind) = run_parts(&plan.unwrap());
    assert_eq!(program, "/usr/bin/bash");
    assert_eq!(args, strings(&["-c", command]));
    assert!(kind.result(CommandOutcome::Exited { success: true }).is_ok());

    setting.terminal = RunnerProgram::ShellScript;
    assert_eq!(setting.command, command);
    let plan = setting.apply();
    assert!(plan.is_ok());
    let (program, args, kind) = run_parts(&plan.unwrap());
    assert_eq!(program, "/usr/bin/sh");
    assert_eq!(args, strings(&["-c", command]));
    assert!(kind.result(CommandOutcome::Exited { success: true }).is_ok());
}

#[test]
fn systemctl_service_exists() {
    let systemctl = Systemctl::new("idontexist".to_string(), None);
    let listing = "  UNIT                 LOAD   ACTIVE SUB     DESCRIPTION\n  cron.service         loaded active running Regular background program processing daemon\n  ssh.service          loaded active running OpenBSD Secure Shell server\n";
    println!("{}", systemctl.service_exists(listing));
    assert!(!systemctl.service_exists(listing));
}

#[test]
fn construct_id_map_test() {
    let entries: Vec<(u64, SettingsType)> = vec![
        (
            1,
            SettingsType::GioSettings(GioSetting {
                schema: "org.gnome.desktop.sound".to_string(),
                key: "allow-volume-above-100-percent".to_string(),
                value_type: "bool".to_string(),
                value: None,
            }),
        ),
        (2, SettingsType::ModProbe(Modprobe { driver: "btusb".to_string(), enable: None })),
        (3, SettingsType::Systemctl(Systemctl::new("bluetooth".to_string(), None))),
    ];
    let settings_map = SettingsRegistry::construct_id_map(entries);
    println!("{:?}", settings_map.get(1));
    assert!(matches!(settings_map.get(1), Some(SettingsType::GioSettings(_))));
    assert!(matches!(settings_map.get(2), Some(SettingsType::ModProbe(_))));
    assert!(matches!(settings_map.get(3), Some(SettingsType::Systemctl(_))));
    assert!(settings_map.get(4).is_none());
    assert_eq!(settings_map.ids().len(), 3);
}

#[test]
fn id_map_last_entry_wins_and_ids_are_cut_to_32_bits() {
    let entries: Vec<(u64, SettingsType)> = vec![
        (7, SettingsType::Invalid),
        ((1u64 << 32) + 7, SettingsType::ModProbe(Modprobe { driver: "later".to_string(), enable: Some(true) })),
        (9, SettingsType::Invalid),
    ];
    let settings_map = SettingsRegistry::construct_id_map(entries);
    assert_eq!(settings_map.ids().len(), 2);
    match settings_map.get(7) {
        Some(SettingsType::ModProbe(m)) => assert_eq!(m.driver, "later"),
        other => panic!("unexpected {:?}", other),
    }
    assert!(matches!(settings_map.get(9), Some(SettingsType::Invalid)));
}

#[test]
fn registry_read_after_insert() {
    let mut r = SettingsRegistry::new();
    assert!(r.get(5).is_none());
    r.insert(5, SettingsType::Invalid);
    r.insert(6, SettingsType::Invalid);
    r.insert(5, SettingsType::CliSetting(CliSetting { terminal: RunnerProgram::Bash, command: "ls".to_string() }));
    match r.get(5) {
        Some(SettingsType::CliSetting(c)) => assert_eq!(c.command, "ls"),
        other => panic!("unexpected {:?}", other),
    }
    assert!(matches!(r.get(6), Some(SettingsType::Invalid)));
    let mut ids = r.ids();
    ids.sort();
    assert_eq!(ids, vec![5, 6]);
}

#[test]
fn runner_program_paths() {
    assert_eq!(RunnerProgram::Bash.into(), "/usr/bin/bash");
    assert_eq!(RunnerProgram::ShellScript.into(), "/usr/bin/sh");
}

#[test]
fn command_outcomes() {
    let ok = CommandOutcome::Exited { success: true };
    let failed = CommandOutcome::Exited { success: false };
    let spawn = CommandOutcome::SpawnFailed;
    assert_eq!(CommandKind::Shell.result(ok), Ok(()));
    assert_eq!(CommandKind::Shell.result(failed), Err("Command failed"));
    assert_eq!(CommandKind::Shell.result(spawn), Err("Command failed"));
    assert_eq!(CommandKind::Modprobe.result(ok), Ok(()));
    assert_eq!(CommandKind::Modprobe.result(failed), Ok(()));
    assert_eq!(CommandKind::Modprobe.result(spawn), Err("Failed to run modprobe"));
    assert_eq!(CommandKind::ServiceStart.result(ok), Ok(()));
    assert_eq!(CommandKind::ServiceStart.result(failed), Err("Failed to enable service"));
    assert_eq!(CommandKind::ServiceStart.result(spawn), Err("Failed to run systemctl"));
    assert_eq!(CommandKind::ServiceStop.result(ok), Ok(()));
    assert_eq!(CommandKind::ServiceStop.result(failed), Err("Failed to disable service"));
    assert_eq!(CommandKind::ServiceStop.result(spawn), Err("Failed to run systemctl"));
    assert_eq!(gio_write_result(true), Ok(()));
    assert_eq!(gio_write_result(false), Err("Settings couldn't be applied."));
}

#[test]
fn modprobe_plans() {
    let unset = Modprobe { driver: "btusb".to_string(), enable: None };
    assert_eq!(unset.clone().apply().err(), Some("enabled is not set"));
    assert!(unset.accepts_value(&Types::Bool(true)));
    assert!(!unset.accepts_value(&Types::Int(1)));

    let mut load = unset.clone();
    load.set_value(Types::Bool(true));
    assert_eq!(load.enable, Some(true));
    assert_eq!(load.driver, "btusb");
    let (program, args, kind) = run_parts(&load.apply().unwrap());
    assert_eq!(program, "sudo");
    assert_eq!(args, strings(&["modprobe", "btusb"]));
    assert_eq!(kind, CommandKind::Modprobe);

    let mut unload = unset;
    unload.set_value(Types::Bool(false));
    let (program, args, _) = run_parts(&unload.apply().unwrap());
    assert_eq!(program, "sudo");
    assert_eq!(args, strings(&["modprobe", "-r", "btusb"]));
}

#[test]
fn systemctl_plans_and_queries() {
    let unset = Systemctl::new("bluetooth".to_string(), None);
    assert_eq!(unset.clone().apply().err(), Some("Enabled is not set"));

    let mut on = unset.clone();
    on.set_value(Types::Bool(true));
    let (program, args, kind) = run_parts(&on.apply().unwrap());
    assert_eq!(program, "sudo");
    assert_eq!(args, strings(&["systemctl", "start", "bluetooth"]));
    assert_eq!(kind, CommandKind::ServiceStart);

    let mut off = unset.clone();
    off.set_value(Types::Bool(false));
    let (_, args, kind) = run_parts(&off.apply().unwrap());
    assert_eq!(args, strings(&["systemctl", "stop", "bluetooth"]));
    assert_eq!(kind, CommandKind::ServiceStop);

    let listing = Systemctl::listing_command();
    assert_eq!(listing.program, "systemctl");
    assert!(listing.args.is_empty());
    let state = Systemctl::state_command();
    assert_eq!(state.args, strings(&["is-active"]));

    assert!(unset.service_exists("bluetooth.service loaded active running"));
    assert!(unset.service_state("0"));
    assert!(!unset.service_state("active\n"));
    assert!(matches!(unset.current_value(Some("0")), Types::Bool(true)));
    assert!(matches!(unset.current_value(Some("active")), Types::Bool(false)));
    assert!(matches!(unset.current_value(None), Types::Bool(false)));
    assert!(!unset.service_exists("cron.service loaded active running"));
    assert!(matches!(unset.after_listing(None), ProbeStep::Answer(None)));
    assert!(matches!(unset.after_listing(Some("cron.service")), ProbeStep::Answer(None)));
    match unset.after_listing(Some("bluetooth.service loaded")) {
        ProbeStep::Run(c) => {
            assert_eq!(c.program, "systemctl");
            assert_eq!(c.args, strings(&["is-active"]));
        },
        other => panic!("unexpected {:?}", other),
    }
}

#[test]
fn gio_setting_plans() {
    let mut g = GioSetting {
        schema: "org.gnome.desktop.sound".to_string(),
        key: "allow-volume-above-100-percent".to_string(),
        value_type: "bool".to_string(),
        value: None,
    };
    assert_eq!(g.clone().apply().err(), Some("No value to apply"));
    assert_eq!(g.value_kind(), Some(GioValueKind::Bool));
    g.set_value(Types::Bool(true));
    match g.clone().apply().unwrap() {
        ApplyRequest::WriteGio { schema, key, value } => {
            assert_eq!(schema, "org.gnome.desktop.sound");
            assert_eq!(key, "allow-volume-above-100-percent");
            assert!(matches!(value, Types::Bool(true)));
        },
        other => panic!("unexpected {:?}", other),
    }
    for (name, kind) in [
        ("string", Some(GioValueKind::Str)),
        ("double", Some(GioValueKind::Double)),
        ("int", Some(GioValueKind::Int)),
        ("float", None),
    ] {
        g.value_type = name.to_string();
        assert_eq!(g.value_kind(), kind);
    }
}

#[test]
fn key_checks() {
    let keys = strings(&["volume", "allow-volume-above-100-percent"]);
    assert!(contains_string(&keys, "volume"));
    assert!(!contains_string(&keys, "volum"));
    assert_eq!(check_key_available(&keys, "volume"), Ok(()));
    assert_eq!(
        check_key_available(&keys, "missing"),
        Err("Key not found. Ensure you pass HashSet of Keys.")
    );
}

#[test]
fn json_values_become_types() {
    assert!(matches!(Types::from_json(JsonValue::Bool(true)), Types::Bool(true)));
    assert!(matches!(
        Types::from_json(JsonValue::Number { as_i64: Some(-3), as_f64_bits: (-3.0f64).to_bits() }),
        Types::Int(-3)
    ));
    match Types::from_json(JsonValue::Number { as_i64: None, as_f64_bits: 2.5f64.to_bits() }) {
        Types::Double(bits) => assert_eq!(f64::from_bits(bits), 2.5),
        other => panic!("unexpected {:?}", other),
    }
    match Types::from_json(JsonValue::String("dark".to_string())) {
        Types::String(s) => assert_eq!(s, "dark"),
        other => panic!("unexpected {:?}", other),
    }
}

fn sample_registry() -> SettingsRegistry {
    SettingsRegistry::construct_id_map(vec![
        (1, SettingsType::CliSetting(CliSetting { terminal: RunnerProgram::Bash, command: "true".to_string() })),
        (2, SettingsType::Systemctl(Systemctl::new("bluetooth".to_string(), None))),
        (
            3,
            SettingsType::GioSettings(GioSetting {
                schema: "org.gnome.desktop.sound".to_string(),
                key: "allow-volume-above-100-percent".to_string(),
                value_type: "bool".to_string(),
                value: None,
            }),
        ),
        (
            4,
            SettingsType::GioSettings(GioSetting {
                schema: "org.gnome.desktop.missing".to_string(),
                key: "nothing".to_string(),
                value_type: "bool".to_string(),
                value: None,
            }),
        ),
        (5, SettingsType::Invalid),
        (6, SettingsType::ModProbe(Modprobe { driver: "btusb".to_string(), enable: None })),
    ])
}

#[test]
fn set_config_steps() {
    let registry = sample_registry();
    let no_value = IncomingSettings { id: 1, value: None };
    match set_config(&registry, no_value) {
        SetConfigStep::Respond(r) => {
            assert_eq!(r.status, 400);
            assert_eq!(r.message, "value not found");
        },
        other => panic!("unexpected {:?}", other),
    }
    match set_config(&registry, IncomingSettings { id: 42, value: Some(Types::Bool(true)) }) {
        SetConfigStep::Respond(r) => {
            assert_eq!(r.status, 400);
            assert_eq!(r.message, "setting not found");
        },
        other => panic!("unexpected {:?}", other),
    }
    match set_config(&registry, IncomingSettings { id: 5, value: Some(Types::Bool(true)) }) {
        SetConfigStep::Respond(r) => {
            assert_eq!(r.status, 400);
            assert_eq!(r.message, "Invalid SettingsType");
        },
        other => panic!("unexpected {:?}", other),
    }
    let wrong = IncomingSettings { id: 2, value: Some(Types::String("x".to_string())) };
    assert!(!request_fits_settings(&registry, &wrong));
    let fine = IncomingSettings { id: 2, value: Some(Types::Bool(true)) };
    assert!(request_fits_settings(&registry, &fine));
    match set_config(&registry, fine) {
        SetConfigStep::Perform(req) => {
            let (_, args, kind) = run_parts(&req);
            assert_eq!(args, strings(&["systemctl", "start", "bluetooth"]));
            assert_eq!(kind, CommandKind::ServiceStart);
        },
        other => panic!("unexpected {:?}", other),
    }
    let ok = finish_set_config(Ok(()));
    assert_eq!((ok.status, ok.message), (200, "ok"));
    let err = finish_set_config(Err("Failed to enable service"));
    assert_eq!((err.status, err.message), (400, "Failed to enable service"));
}

#[test]
fn config_probes_and_report() {
    let registry = sample_registry();
    let schemas = vec![
        ("org.gnome.desktop.interface".to_string(), strings(&["color-scheme"])),
        ("org.gnome.desktop.sound".to_string(), strings(&["allow-volume-above-100-percent", "theme-name"])),
    ];
    let mut probes = get_all_configs(&registry, &schemas);
    probes.sort_by_key(|p| p.0);
    let ids: Vec<u32> = probes.iter().map(|p| p.0).collect();
    assert_eq!(ids, vec![2, 3, 6]);
    assert!(matches!(probes[0].1, ConfigProbe::ServiceState(_)));
    assert!(matches!(probes[1].1, ConfigProbe::ReadGio(_)));
    assert!(matches!(probes[2].1, ConfigProbe::ModuleState(_)));
    let outputs = vec![
        ProbeOutput::Service { listing: Some("cron.service loaded".to_string()), state: None },
        ProbeOutput::Gio(GioRead::Bool(false)),
        ProbeOutput::Module {
            existence: CommandOutcome::Exited { success: true },
            listing: Some("Module Size Used by\nbtusb 77824 0\n".to_string()),
        },
    ];
    for (p, o) in probes.iter().zip(outputs.iter()) {
        assert!(output_fits_probe(&p.1, o));
    }
    let report = collect_configs(&probes, &outputs);
    assert_eq!(report.len(), 2);
    assert_eq!(report[0].0, 3);
    assert!(matches!(report[0].1, Types::Bool(false)));
    assert_eq!(report[1].0, 6);
    assert!(matches!(report[1].1, Types::Bool(true)));

    // A listed service reports its state; a missing driver reports nothing.
    let listed = ProbeOutput::Service {
        listing: Some("bluetooth.service loaded".to_string()),
        state: Some("0".to_string()),
    };
    assert!(matches!(answer_probe(&probes[0].1, &listed), Some(Types::Bool(true))));
    let absent = ProbeOutput::Module { existence: CommandOutcome::Exited { success: false }, listing: None };
    assert!(answer_probe(&probes[2].1, &absent).is_none());
    assert!(!output_fits_probe(&probes[0].1, &absent));
}

#[test]
fn gio_reads() {
    let mut g = GioSetting {
        schema: "org.gnome.desktop.interface".to_string(),
        key: "text-scaling-factor".to_string(),
        value_type: "double".to_string(),
        value: None,
    };
    let read = GioRead::Double(1.25f64.to_bits());
    assert!(g.can_report(&read));
    match g.reported_value(&read) {
        Types::Double(bits) => assert_eq!(f64::from_bits(bits), 1.25),
        other => panic!("unexpected {:?}", other),
    }
    assert!(!g.can_report(&GioRead::Double(f64::NAN.to_bits())));
    assert!(!g.can_report(&GioRead::Double(f64::INFINITY.to_bits())));
    assert!(!g.can_report(&GioRead::Bool(true)));
    g.value_type = "int".to_string();
    assert!(g.can_report(&GioRead::Int(3)));
    assert!(matches!(g.reported_value(&GioRead::Int(3)), Types::Int(3)));
    g.value_type = "string".to_string();
    match g.reported_value(&GioRead::Str("x".to_string())) {
        Types::String(s) => assert_eq!(s, "x"),
        other => panic!("unexpected {:?}", other),
    }
    g.value_type = "unknown".to_string();
    assert!(!g.can_report(&GioRead::Bool(true)));
}

#[test]
fn service_and_module_answers() {
    let s = Systemctl::new("bluetooth".to_string(), None);
    assert!(s.answer(None, Some("0")).is_none());
    assert!(s.answer(Some("cron.service"), Some("0")).is_none());
    assert!(matches!(s.answer(Some("bluetooth.service"), Some("0")), Some(Types::Bool(true))));
    assert!(matches!(s.answer(Some("bluetooth.service"), None), Some(Types::Bool(false))));
    let m = Modprobe { driver: "btusb".to_string(), enable: None };
    assert!(m.answer(CommandOutcome::SpawnFailed, Some("btusb 1 0")).is_none());
    assert!(matches!(m.answer(CommandOutcome::Exited { success: true }, Some("x 1 0\nbtusb 1 0")), Some(Types::Bool(true))));
    assert!(matches!(m.answer(CommandOutcome::Exited { success: true }, None), Some(Types::Bool(false))));
}

#[test]
fn static_files() {
    match static_target("/") {
        StaticFetch::Path(p) => assert_eq!(p, "/index.html"),
        other => panic!("unexpected {:?}", other),
    }
    let page = static_target("/about");
    assert!(matches!(page, StaticFetch::AsRequested));
    assert_eq!(after_static_fetch(&page, "/about?x=1", 404), Some("/about?x=1.html".to_string()));
    assert_eq!(after_static_fetch(&page, "/about", 200), None);
    assert_eq!(after_static_fetch(&static_target("/"), "/", 404), None);
}

#[test]
fn module_probe_steps() {
    let m = Modprobe { driver: "btusb".to_string(), enable: None };
    let c = m.existence_command();
    assert_eq!(c.program, "modinfo");
    assert_eq!(c.args, strings(&["btusb"]));
    assert!(Modprobe::driver_exists(CommandOutcome::Exited { success: true }));
    assert!(!Modprobe::driver_exists(CommandOutcome::Exited { success: false }));
    assert!(!Modprobe::driver_exists(CommandOutcome::SpawnFailed));
    assert!(matches!(m.after_existence(CommandOutcome::Exited { success: false }), ProbeStep::Answer(None)));
    match m.after_existence(CommandOutcome::Exited { success: true }) {
        ProbeStep::Run(c) => {
            assert_eq!(c.program, "lsmod");
            assert!(c.args.is_empty());
        },
        other => panic!("unexpected {:?}", other),
    }
    let lsmod = "Module                  Size  Used by\nbtusb                  77824  0\nbtrtl                  28672  1 btusb\n";
    assert!(m.module_loaded(lsmod));
    assert!(matches!(m.current_value(Some(lsmod)), Types::Bool(true)));
    let other = Modprobe { driver: "btrt".to_string(), enable: None };
    assert!(!other.module_loaded(lsmod));
    assert!(matches!(m.current_value(None), Types::Bool(false)));
}

fn json_of(v: &serde_json::Value) -> JsonValue {
    match v {
        serde_json::Value::Null => JsonValue::Null,
        serde_json::Value::Bool(b) => JsonValue::Bool(*b),
        serde_json::Value::Number(n) => JsonValue::Number {
            as_i64: n.as_i64(),
            as_f64_bits: n.as_f64().unwrap().to_bits(),
        },
        serde_json::Value::String(s) => JsonValue::String(s.clone()),
        serde_json::Value::Array(_) => JsonValue::Array,
        serde_json::Value::Object(_) => JsonValue::Object,
    }
}

#[test]
fn json_round_trip_through_serde_json() {
    let b = serde_json::to_value(true).unwrap();
    assert!(matches!(Types::from_json(json_of(&b)), Types::Bool(true)));
    let i = serde_json::to_value(-42i64).unwrap();
    assert!(matches!(Types::from_json(json_of(&i)), Types::Int(-42)));
    for x in [1.0f64, 2.5, -0.125] {
        let d = serde_json::to_value(x).unwrap();
        match Types::from_json(json_of(&d)) {
            Types::Double(bits) => assert_eq!(f64::from_bits(bits), x),
            other => panic!("unexpected {:?}", other),
        }
    }
    let s = serde_json::to_value("dark").unwrap();
    match Types::from_json(json_of(&s)) {
        Types::String(v) => assert_eq!(v, "dark"),
        other => panic!("unexpected {:?}", other),
    }
}

#[test]
fn text_helpers() {
    assert!(str_contains("abcabd", "abd"));
    assert!(str_contains("abc", ""));
    assert!(!str_contains("ab", "abc"));
    assert!(!str_contains("aXbc", "abc"));
    assert!(str_contains("héllo wörld", "ö"));
    assert!(str_eq("x", "x"));
    assert!(!str_eq("x", "y"));
}

#[test]
fn sudo_warmup() {
    let c = sudo_warmup_command();
    assert_eq!(c.program, "sudo");
    assert_eq!(c.args, strings(&["-S", "echo", "'hello'"]));
}
