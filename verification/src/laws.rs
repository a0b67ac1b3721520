use vstd::prelude::*;

use crate::cli::CliSetting;
use crate::command::{command_result, CommandKind, CommandOutcome, RequestView};
use crate::gsettings::{gio_kind_of, readable, types_of_read, GioRead, GioSetting, GioValueKind};
use crate::modprobe::Modprobe;
use crate::server::{
    collected, output_fits, probe_answer, probe_for, request_fits, schema_lookup, set_config_step, ConfigProbe,
    ProbeOutput, StepView, STATUS_BAD_REQUEST,
};
use crate::text::{contains_seq, opt_string_view};
use crate::settings::{ApplySettings, SettingsType};
use crate::systemctl::Systemctl;
use crate::value::{is_scalar, types_of_json, IncomingSettings, JsonValue, Types};

verus! {

/// A command line set on a command-line setting is the one it holds
/// afterwards, run by the same shell.
pub proof fn law_cli_set_then_read(setting: CliSetting, command: String)
    ensures
        setting.with_value(Types::String(command)).command == command,
        setting.with_value(Types::String(command)).terminal == setting.terminal,
{
}

/// Setting a value never changes which setting it is: its kind, and the
/// shell, driver, service, schema, key and value type that name it.
pub proof fn law_set_value_keeps_identity(setting: SettingsType, value: Types)
    ensures
        match (setting, setting.with_value(value)) {
            (SettingsType::GioSettings(a), SettingsType::GioSettings(b)) => a.schema == b.schema
                && a.key == b.key && a.value_type == b.value_type,
            (SettingsType::ModProbe(a), SettingsType::ModProbe(b)) => a.driver == b.driver,
            (SettingsType::Systemctl(a), SettingsType::Systemctl(b)) => a.service_name == b.service_name,
            (SettingsType::CliSetting(a), SettingsType::CliSetting(b)) => a.terminal == b.terminal,
            (SettingsType::Invalid, SettingsType::Invalid) => true,
            _ => false,
        },
{
}

/// Once a command-line setting is given a command line, applying it runs
/// that command line with its shell: `<shell> -c <command>`.
pub proof fn law_cli_set_then_apply(setting: CliSetting, command: String)
    ensures
        setting.with_value(Types::String(command)).planned() == Ok::<RequestView, Seq<char>>(
            RequestView::RunCommand {
                program: setting.terminal.path_view(),
                args: seq!["-c"@, command@],
                kind: CommandKind::Shell,
            },
        ),
{
}

/// Once a module setting is told whether the module is wanted, applying it
/// loads the module when it is and unloads it (`-r`) when it is not.
pub proof fn law_modprobe_set_then_apply(setting: Modprobe, wanted: bool)
    ensures
        setting.with_value(Types::Bool(wanted)).planned() == Ok::<RequestView, Seq<char>>(
            RequestView::RunCommand {
                program: "sudo"@,
                args: if wanted {
                    seq!["modprobe"@, setting.driver@]
                } else {
                    seq!["modprobe"@, "-r"@, setting.driver@]
                },
                kind: CommandKind::Modprobe,
            },
        ),
{
}

/// Once a service setting is told whether the service is wanted, applying
/// it starts the service when it is and stops it when it is not.
pub proof fn law_service_set_then_apply(setting: Systemctl, wanted: bool)
    ensures
        setting.with_value(Types::Bool(wanted)).planned() == Ok::<RequestView, Seq<char>>(
            setting.service_request(wanted),
        ),
        setting.service_request(wanted) matches RequestView::RunCommand { kind, .. } && (kind
            == CommandKind::ServiceStart) == wanted,
{
}

/// Once a desktop-settings key is given a value, applying it writes that
/// value under that key.
pub proof fn law_gio_set_then_apply(setting: GioSetting, value: Types)
    ensures
        setting.with_value(value).planned() == Ok::<RequestView, Seq<char>>(
            RequestView::WriteGio { schema: setting.schema@, key: setting.key@, value },
        ),
{
}

/// A command that ran and exited successfully always counts as applied; one
/// that could not be started never does.
pub proof fn law_command_outcome(kind: CommandKind, outcome: CommandOutcome)
    ensures
        command_result(kind, CommandOutcome::Exited { success: true }) is Ok,
        command_result(kind, CommandOutcome::SpawnFailed) is Err,
        kind == CommandKind::Modprobe ==> (command_result(kind, outcome) is Ok <==> outcome is Exited),
        kind != CommandKind::Modprobe ==> (command_result(kind, outcome) is Ok <==> outcome == (
        CommandOutcome::Exited { success: true })),
{
}

/// A piece occurs in any text made of something, that piece and something
/// else; no piece occurs in a text shorter than it.
pub proof fn law_contains(before: Seq<char>, piece: Seq<char>, after: Seq<char>, hay: Seq<char>)
    ensures
        contains_seq(before + piece + after, piece),
        piece.len() > hay.len() ==> !contains_seq(hay, piece),
{
    let h = before + piece + after;
    assert(h.subrange(before.len() as int, (before.len() + piece.len()) as int) =~= piece);
    assert(crate::text::occurs_at(h, piece, before.len() as int));
}

/// A request to change a setting reaches the system only when it carries a
/// value and names a setting, and then asks exactly what applying that
/// setting with the new value asks; any other request is refused with a bad
/// request status.
pub proof fn law_set_config_reaches_system(settings: Map<u32, SettingsType>, request: IncomingSettings)
    ensures
        set_config_step(settings, request) is Perform <==> (request.value is Some && settings.contains_key(
            request.id,
        ) && settings[request.id].with_value(request.value->0).planned() is Ok),
        set_config_step(settings, request) matches StepView::Perform(q) ==> settings[request.id].with_value(
            request.value->0,
        ).planned() == Ok::<RequestView, Seq<char>>(q),
        set_config_step(settings, request) matches StepView::Respond { status, .. } ==> status
            == STATUS_BAD_REQUEST,
{
}

/// The report is exactly what the probes answer: each reported id is the id
/// of a probe that reports that value, every probe that reports a value has
/// its id reported, and when no two probes share an id, no id is reported
/// twice.
pub proof fn law_report_is_exact(probes: Seq<(u32, ConfigProbe)>, outputs: Seq<ProbeOutput>)
    requires
        outputs.len() == probes.len(),
    ensures
        collected(probes, outputs).len() <= probes.len(),
        forall|i: int| 0 <= i < collected(probes, outputs).len() ==> exists|k: int| 0 <= k < probes.len()
            && probes[k].0 == #[trigger] collected(probes, outputs)[i].0
            && probe_answer(probes[k].1, outputs[k]) == Some(collected(probes, outputs)[i].1),
        forall|k: int| 0 <= k < probes.len() && (#[trigger] probe_answer(probes[k].1, outputs[k])) is Some
            ==> exists|i: int| 0 <= i < collected(probes, outputs).len() && collected(probes, outputs)[i].0
            == probes[k].0,
        (forall|k: int, l: int| 0 <= k < probes.len() && 0 <= l < probes.len() && k != l ==> probes[k].0
            != probes[l].0) ==> (forall|i: int, j: int|
            0 <= i < collected(probes, outputs).len() && 0 <= j < collected(probes, outputs).len() && i != j
                ==> collected(probes, outputs)[i].0 != collected(probes, outputs)[j].0),
    decreases probes.len(),
{
    if probes.len() > 0 {
        let p = probes.drop_last();
        let o = outputs.drop_last();
        law_report_is_exact(p, o);
        let c = collected(probes, outputs);
        let rest = collected(p, o);
        let last = probes.len() - 1;
        assert(probes[last] == probes.last());
        assert(outputs[last] == outputs.last());
        assert forall|i: int| 0 <= i < c.len() implies exists|k: int| 0 <= k < probes.len()
            && probes[k].0 == #[trigger] c[i].0 && probe_answer(probes[k].1, outputs[k]) == Some(c[i].1) by {
            if i < rest.len() {
                assert(c[i] == rest[i]);
                let k = choose|k: int| 0 <= k < p.len() && p[k].0 == rest[i].0 && probe_answer(p[k].1, o[k])
                    == Some(rest[i].1);
                assert(probes[k] == p[k] && outputs[k] == o[k]);
            } else {
                assert(probes[last].0 == c[i].0);
            }
        }
        assert forall|k: int| 0 <= k < probes.len() && (#[trigger] probe_answer(probes[k].1, outputs[k])) is Some
            implies exists|i: int| 0 <= i < c.len() && c[i].0 == probes[k].0 by {
            if k < last {
                assert(probes[k] == p[k] && outputs[k] == o[k]);
                assert(probe_answer(p[k].1, o[k]) is Some);
                let i = choose|i: int| 0 <= i < rest.len() && rest[i].0 == p[k].0;
                assert(c[i] == rest[i]);
            } else {
                assert(c[c.len() - 1].0 == probes[k].0);
            }
        }
        if forall|k: int, l: int| 0 <= k < probes.len() && 0 <= l < probes.len() && k != l ==> probes[k].0
            != probes[l].0 {
            assert forall|k: int, l: int| 0 <= k < p.len() && 0 <= l < p.len() && k != l implies p[k].0
                != p[l].0 by {
                assert(p[k] == probes[k] && p[l] == probes[l]);
            }
            assert forall|i: int, j: int| 0 <= i < c.len() && 0 <= j < c.len() && i != j implies c[i].0
                != c[j].0 by {
                if i < rest.len() && j < rest.len() {
                    assert(c[i] == rest[i] && c[j] == rest[j]);
                } else if i < rest.len() {
                    assert(c[i] == rest[i]);
                    let k = choose|k: int| 0 <= k < p.len() && p[k].0 == rest[i].0 && probe_answer(p[k].1, o[k])
                        == Some(rest[i].1);
                    assert(probes[k] == p[k]);
                    assert(c[j].0 == probes[last].0);
                } else {
                    assert(c[j] == rest[j]);
                    let k = choose|k: int| 0 <= k < p.len() && p[k].0 == rest[j].0 && probe_answer(p[k].1, o[k])
                        == Some(rest[j].1);
                    assert(probes[k] == p[k]);
                    assert(c[i].0 == probes[last].0);
                }
            }
        }
    }
}

/// A key whose schema and key are installed always reports its value; a
/// service reports exactly when the listing names it, and a module exactly
/// when its driver exists.
pub proof fn law_probe_reports(probe: ConfigProbe, output: ProbeOutput)
    requires
        output_fits(probe, output),
    ensures
        probe is ReadGio ==> probe_answer(probe, output) is Some,
        probe matches ConfigProbe::ServiceState(s) ==> (probe_answer(probe, output) is Some <==> (output
            matches ProbeOutput::Service { listing: Some(l), .. } && contains_seq(l@, s.service_name@))),
        probe is ModuleState ==> (probe_answer(probe, output) is Some <==> (output
            matches ProbeOutput::Module { existence, .. } && existence == (CommandOutcome::Exited {
            success: true,
        }))),
{
}

/// The JSON form of a value, as the front end gets it and sends it back: a
/// boolean or a string as itself, an integer as a number whose integer form is
/// that integer (its float form, `float_bits`, is not read back), a double as a
/// number with no integer form whose float form is the double.
pub open spec fn json_form(value: Types, float_bits: u64) -> JsonValue {
    match value {
        Types::Bool(b) => JsonValue::Bool(b),
        Types::Int(i) => JsonValue::Number { as_i64: Some(i), as_f64_bits: float_bits },
        Types::Double(bits) => JsonValue::Number { as_i64: None, as_f64_bits: bits },
        Types::String(s) => JsonValue::String(s),
    }
}

/// A value converted from its JSON form is the value itself.
pub proof fn law_json_round_trip(value: Types, float_bits: u64)
    ensures
        is_scalar(json_form(value, float_bits)),
        types_of_json(json_form(value, float_bits)) == value,
{
}

proof fn lemma_schema_lookup_first(schemas: Seq<(String, Vec<String>)>, schema: Seq<char>, j: int)
    requires
        0 <= j < schemas.len(),
        schemas[j].0@ == schema,
        forall|k: int| 0 <= k < j ==> schemas[k].0@ != schema,
    ensures
        schema_lookup(schemas, schema) == Some(schemas[j].1@),
    decreases j,
{
    if j > 0 {
        let t = schemas.drop_first();
        assert(schemas[0].0@ != schema);
        assert forall|k: int| 0 <= k < j - 1 implies t[k].0@ != schema by {
            assert(t[k] == schemas[k + 1]);
        }
        assert(t[j - 1] == schemas[j]);
        lemma_schema_lookup_first(t, schema, j - 1);
    }
}

proof fn lemma_schema_lookup_absent(schemas: Seq<(String, Vec<String>)>, schema: Seq<char>)
    requires
        forall|k: int| 0 <= k < schemas.len() ==> schemas[k].0@ != schema,
    ensures
        schema_lookup(schemas, schema) is None,
    decreases schemas.len(),
{
    if schemas.len() > 0 {
        let t = schemas.drop_first();
        assert forall|k: int| 0 <= k < t.len() implies t[k].0@ != schema by {
            assert(t[k] == schemas[k + 1]);
        }
        lemma_schema_lookup_absent(t, schema);
    }
}

/// A desktop-settings key is probed exactly when its schema is installed and
/// the key is any one of that schema's keys (the schema's first entry counts
/// when a schema name occurs twice), and the probe reads that very key.
pub proof fn law_gio_probe_when_key_installed(g: GioSetting, schemas: Seq<(String, Vec<String>)>, j: int)
    requires
        0 <= j < schemas.len(),
        schemas[j].0@ == g.schema@,
        forall|k: int| 0 <= k < j ==> schemas[k].0@ != g.schema@,
    ensures
        probe_for(SettingsType::GioSettings(g), schemas) is Some <==> exists|i: int|
            0 <= i < schemas[j].1@.len() && (#[trigger] schemas[j].1@[i])@ == g.key@,
        probe_for(SettingsType::GioSettings(g), schemas) is Some ==> probe_for(SettingsType::GioSettings(g), schemas)
            == Some(ConfigProbe::ReadGio(g)),
{
    lemma_schema_lookup_first(schemas, g.schema@, j);
}

/// A desktop-settings key whose schema is not installed is never probed.
pub proof fn law_gio_probe_needs_schema(g: GioSetting, schemas: Seq<(String, Vec<String>)>)
    requires
        forall|k: int| 0 <= k < schemas.len() ==> schemas[k].0@ != g.schema@,
    ensures
        probe_for(SettingsType::GioSettings(g), schemas) is None,
{
    lemma_schema_lookup_absent(schemas, g.schema@);
}

/// Every service and every kernel module is probed, for that very setting;
/// command-line and invalid settings never are.
pub proof fn law_probe_kinds(setting: SettingsType, schemas: Seq<(String, Vec<String>)>)
    ensures
        setting matches SettingsType::Systemctl(s) ==> probe_for(setting, schemas) == Some(
            ConfigProbe::ServiceState(s),
        ),
        setting matches SettingsType::ModProbe(m) ==> probe_for(setting, schemas) == Some(
            ConfigProbe::ModuleState(m),
        ),
        setting is CliSetting || setting is Invalid ==> probe_for(setting, schemas) is None,
{
}

/// The value reported for a key is the value read from it, unchanged: a
/// boolean, a string, a double (by its bits) or an integer read is reported
/// as that same boolean, string, double or integer.
pub proof fn law_gio_reports_value_read(g: GioSetting, read: GioRead)
    ensures
        read matches GioRead::Bool(b) ==> types_of_read(read) == Types::Bool(b),
        read matches GioRead::Str(s) ==> types_of_read(read) == Types::String(s),
        read matches GioRead::Double(bits) ==> types_of_read(read) == Types::Double(bits),
        read matches GioRead::Int(i) ==> types_of_read(read) == Types::Int(i),
        probe_answer(ConfigProbe::ReadGio(g), ProbeOutput::Gio(read)) == Some(types_of_read(read)),
{
}

/// A key's value type names how it is read: `bool`, `string`, `double` and
/// `int` name the boolean, string, double and integer reads, and any read of
/// the named kind can be reported, a double as long as it is finite.
pub proof fn law_gio_value_types(g: GioSetting, b: bool, s: String, bits: u64, i: i64)
    ensures
        gio_kind_of("bool"@) == Some(GioValueKind::Bool),
        gio_kind_of("string"@) == Some(GioValueKind::Str),
        gio_kind_of("double"@) == Some(GioValueKind::Double),
        gio_kind_of("int"@) == Some(GioValueKind::Int),
        g.value_type@ == "bool"@ ==> readable(g, GioRead::Bool(b)),
        g.value_type@ == "string"@ ==> readable(g, GioRead::Str(s)),
        g.value_type@ == "int"@ ==> readable(g, GioRead::Int(i)),
        g.value_type@ == "double"@ && (bits / 0x10_0000_0000_0000) % 0x800 != 0x7ff ==> readable(
            g,
            GioRead::Double(bits),
        ),
{
    reveal_strlit("bool");
    reveal_strlit("string");
    reveal_strlit("double");
    reveal_strlit("int");
    assert("string"@.len() != "bool"@.len());
    assert("double"@.len() != "bool"@.len());
    assert("double"@[0] != "string"@[0]);
    assert("int"@.len() != "bool"@.len());
    assert("int"@.len() != "string"@.len());
    assert("int"@.len() != "double"@.len());
}

/// A listed service reports the state that was read: running exactly when
/// the state command printed `0`, and not running when it could not run; a
/// service that is not listed, or whose listing could not be had, reports
/// nothing.
pub proof fn law_service_reports_state(s: Systemctl, listing: Option<String>, state: Option<String>)
    ensures
        (listing matches Some(l) && contains_seq(l@, s.service_name@)) ==> probe_answer(
            ConfigProbe::ServiceState(s),
            ProbeOutput::Service { listing, state },
        ) == Some(
            Types::Bool(
                match state {
                    Some(o) => o@ == "0"@,
                    None => false,
                },
            ),
        ),
        !(listing matches Some(l) && contains_seq(l@, s.service_name@)) ==> probe_answer(
            ConfigProbe::ServiceState(s),
            ProbeOutput::Service { listing, state },
        ) is None,
{
}

/// A module whose driver exists reports whether it is loaded: whether a line
/// of the listing of loaded modules starts with its name and a space, and not
/// loaded when the listing could not be had; a module whose driver does not
/// exist reports nothing.
pub proof fn law_module_reports_state(m: Modprobe, existence: CommandOutcome, listing: Option<String>)
    ensures
        existence == (CommandOutcome::Exited { success: true }) ==> probe_answer(
            ConfigProbe::ModuleState(m),
            ProbeOutput::Module { existence, listing },
        ) == Some(
            Types::Bool(
                match listing {
                    Some(l) => contains_seq("\n"@ + l@, "\n"@ + m.driver@ + " "@),
                    None => false,
                },
            ),
        ),
        existence != (CommandOutcome::Exited { success: true }) ==> probe_answer(
            ConfigProbe::ModuleState(m),
            ProbeOutput::Module { existence, listing },
        ) is None,
{
}

/// A module setting takes every boolean, and it becomes the wanted state; a
/// service setting likewise; a command-line setting takes every string; a
/// desktop-settings key takes every value, and it becomes the value to write.
pub proof fn law_settings_take_their_values(
    m: Modprobe,
    s: Systemctl,
    c: CliSetting,
    g: GioSetting,
    b: bool,
    text: String,
    v: Types,
)
    ensures
        m.accepts(Types::Bool(b)),
        m.with_value(Types::Bool(b)).enable == Some(b),
        s.accepts(Types::Bool(b)),
        s.with_value(Types::Bool(b)).enable == Some(b),
        c.accepts(Types::String(text)),
        c.with_value(Types::String(text)).command == text,
        g.accepts(v),
        g.with_value(v).value == Some(v),
{
}

/// A request that carries a value of the setting's own type always fits: any
/// value for a desktop-settings key, a boolean for a module or a service, a
/// string for a command line.
pub proof fn law_requests_that_fit(settings: Map<u32, SettingsType>, request: IncomingSettings)
    ensures
        (request.value is Some && settings.contains_key(request.id) && match settings[request.id] {
            SettingsType::GioSettings(_) => true,
            SettingsType::ModProbe(_) => request.value->0 is Bool,
            SettingsType::Systemctl(_) => request.value->0 is Bool,
            SettingsType::CliSetting(_) => request.value->0 is String,
            SettingsType::Invalid => true,
        }) ==> request_fits(settings, request),
        request.value is None ==> request_fits(settings, request),
        !settings.contains_key(request.id) ==> request_fits(settings, request),
{
}

} // verus!
