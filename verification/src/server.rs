use vstd::prelude::*;

use crate::command::{command_line, push_arg, ApplyRequest, CommandLine, RequestView};
use crate::command::CommandOutcome;
use crate::gsettings::{contains_string, listed, readable, types_of_read, GioRead, GioSetting};
use crate::registry::SettingsRegistry;
use crate::settings::{ApplySettings, SettingsType};
use crate::modprobe::Modprobe;
use crate::systemctl::Systemctl;
use crate::text::{opt_string_view, str_eq};
use crate::value::{IncomingSettings, Types};

verus! {

/// The status of a request that was carried out.
pub const STATUS_OK: u16 = 200;

/// The status of a request that was refused or failed.
pub const STATUS_BAD_REQUEST: u16 = 400;

/// What the front end is told: a status and a message.
#[derive(Clone, Copy, Debug)]
pub struct Reply {
    pub status: u16,
    pub message: &'static str,
}

/// What a request to change a setting comes to first: a reply at once, or a
/// request to the system whose result [`finish_set_config`] turns into the
/// reply.
#[derive(Debug)]
pub enum SetConfigStep {
    Respond(Reply),
    Perform(ApplyRequest),
}

/// A [`SetConfigStep`] as plain values.
pub enum StepView {
    Respond { status: u16, message: Seq<char> },
    Perform(RequestView),
}

impl View for SetConfigStep {
    type V = StepView;

    open spec fn view(&self) -> StepView {
        match self {
            SetConfigStep::Respond(r) => StepView::Respond { status: r.status, message: r.message@ },
            SetConfigStep::Perform(q) => StepView::Perform(q@),
        }
    }
}

/// A request to change a setting: without a value, or for an id that names
/// no setting, it is refused; otherwise the setting takes the value and is
/// applied, and an error that stops applying it is the reply.
pub open spec fn set_config_step(settings: Map<u32, SettingsType>, request: IncomingSettings) -> StepView {
    match request.value {
        None => StepView::Respond { status: STATUS_BAD_REQUEST, message: "value not found"@ },
        Some(v) => if !settings.contains_key(request.id) {
            StepView::Respond { status: STATUS_BAD_REQUEST, message: "setting not found"@ }
        } else {
            match settings[request.id].with_value(v).planned() {
                Err(e) => StepView::Respond { status: STATUS_BAD_REQUEST, message: e },
                Ok(q) => StepView::Perform(q),
            }
        },
    }
}

/// Whether a request to change a setting is one that the setting can take:
/// a request that names a setting and carries a value must carry a value of
/// the setting's type.
pub open spec fn request_fits(settings: Map<u32, SettingsType>, request: IncomingSettings) -> bool {
    match request.value {
        Some(v) => settings.contains_key(request.id) ==> settings[request.id].accepts(v),
        None => true,
    }
}

/// The first step of a request to change a setting.
pub fn set_config(settings: &SettingsRegistry, request: IncomingSettings) -> (step: SetConfigStep)
    requires
        request_fits(settings@, request),
    ensures
        step@ == set_config_step(settings@, request),
{
    let value = match request.value {
        None => {
            return SetConfigStep::Respond(
                Reply { status: STATUS_BAD_REQUEST, message: "value not found" },
            );
        },
        Some(v) => v,
    };
    let mut setting = match settings.get(request.id) {
        None => {
            return SetConfigStep::Respond(
                Reply { status: STATUS_BAD_REQUEST, message: "setting not found" },
            );
        },
        Some(s) => s.clone(),
    };
    setting.set_value(value);
    match setting.apply() {
        Err(e) => SetConfigStep::Respond(Reply { status: STATUS_BAD_REQUEST, message: e }),
        Ok(q) => SetConfigStep::Perform(q),
    }
}

/// Whether a request to change a setting can be taken, as
/// [`request_fits`] says.
pub fn request_fits_settings(settings: &SettingsRegistry, request: &IncomingSettings) -> (r: bool)
    ensures
        r == request_fits(settings@, *request),
{
    match &request.value {
        None => true,
        Some(v) => match settings.get(request.id) {
            None => true,
            Some(s) => s.accepts_value(v),
        },
    }
}

/// The reply to a request to change a setting, once the system has answered:
/// `ok`, or the error.
pub fn finish_set_config(result: Result<(), &'static str>) -> (r: Reply)
    ensures
        result is Ok ==> r.status == STATUS_OK && r.message@ == "ok"@,
        result matches Err(e) ==> r.status == STATUS_BAD_REQUEST && r.message@ == e@,
{
    match result {
        Ok(()) => Reply { status: STATUS_OK, message: "ok" },
        Err(e) => Reply { status: STATUS_BAD_REQUEST, message: e },
    }
}

/// What has to be read from the system to report a setting's current value.
#[derive(Debug)]
pub enum ConfigProbe {
    /// The key's current value in the desktop settings.
    ReadGio(GioSetting),
    /// Whether the service is listed and, if it is, whether it runs.
    ServiceState(Systemctl),
    /// Whether the driver exists and, if it does, whether the module is
    /// loaded.
    ModuleState(Modprobe),
}

/// The keys of the first schema of that name, among schemas given with
/// their keys.
pub open spec fn schema_lookup(schemas: Seq<(String, Vec<String>)>, schema: Seq<char>) -> Option<Seq<String>>
    decreases schemas.len(),
{
    if schemas.len() == 0 {
        None
    } else if schemas[0].0@ == schema {
        Some(schemas[0].1@)
    } else {
        schema_lookup(schemas.drop_first(), schema)
    }
}

/// What is read to report a setting: a desktop-settings key only when its
/// schema is installed and has that key; a service or a kernel module always
/// (whether it is there to report is read in turn); nothing for other
/// settings.
pub open spec fn probe_for(setting: SettingsType, schemas: Seq<(String, Vec<String>)>) -> Option<ConfigProbe> {
    match setting {
        SettingsType::GioSettings(g) => match schema_lookup(schemas, g.schema@) {
            Some(keys) => if listed(keys, g.key@) {
                Some(ConfigProbe::ReadGio(g))
            } else {
                None
            },
            None => None,
        },
        SettingsType::Systemctl(s) => Some(ConfigProbe::ServiceState(s)),
        SettingsType::ModProbe(m) => Some(ConfigProbe::ModuleState(m)),
        _ => None,
    }
}

fn schema_keys<'a>(schemas: &'a Vec<(String, Vec<String>)>, schema: &str) -> (r: Option<&'a Vec<String>>)
    ensures
        match schema_lookup(schemas@, schema@) {
            None => r is None,
            Some(keys) => r matches Some(v) && v@ == keys,
        },
{
    let mut i: usize = 0;
    assert(schemas@.subrange(0, schemas@.len() as int) =~= schemas@);
    while i < schemas.len()
        invariant
            i <= schemas@.len(),
            schema_lookup(schemas@, schema@) == schema_lookup(schemas@.subrange(i as int, schemas@.len() as int), schema@),
        decreases schemas@.len() - i,
    {
        let ghost rest = schemas@.subrange(i as int, schemas@.len() as int);
        assert(rest[0] == schemas@[i as int]);
        if str_eq(schemas[i].0.as_str(), schema) {
            return Some(&schemas[i].1);
        }
        assert(rest.drop_first() =~= schemas@.subrange(i + 1, schemas@.len() as int));
        i = i + 1;
    }
    assert(schemas@.subrange(i as int, schemas@.len() as int).len() == 0);
    None
}

fn probe_of(setting: &SettingsType, schemas: &Vec<(String, Vec<String>)>) -> (r: Option<ConfigProbe>)
    ensures
        r == probe_for(*setting, schemas@),
{
    match setting {
        SettingsType::GioSettings(g) => match schema_keys(schemas, g.schema.as_str()) {
            Some(keys) => if contains_string(keys, g.key.as_str()) {
                Some(ConfigProbe::ReadGio(g.clone()))
            } else {
                None
            },
            None => None,
        },
        SettingsType::Systemctl(s) => Some(ConfigProbe::ServiceState(s.clone())),
        SettingsType::ModProbe(m) => Some(ConfigProbe::ModuleState(m.clone())),
        _ => None,
    }
}

/// What has to be read to report the current values of the settings, given
/// the installed desktop-settings schemas with their keys: one probe for each
/// setting that [`probe_for`] gives one, under the setting's id, no id twice.
pub fn get_all_configs(settings: &SettingsRegistry, schemas: &Vec<(String, Vec<String>)>) -> (probes: Vec<(u32, ConfigProbe)>)
    ensures
        forall|k: int| 0 <= k < probes@.len() ==> #[trigger] settings@.contains_key(probes@[k].0)
            && probe_for(settings@[probes@[k].0], schemas@) == Some(probes@[k].1),
        forall|id: u32| #[trigger] settings@.contains_key(id) && probe_for(settings@[id], schemas@) is Some
            ==> exists|k: int| 0 <= k < probes@.len() && probes@[k].0 == id,
        forall|k: int, l: int| 0 <= k < probes@.len() && 0 <= l < probes@.len() && k != l
            ==> probes@[k].0 != probes@[l].0,
{
    let ids = settings.ids();
    let n = ids.len();
    let mut probes: Vec<(u32, ConfigProbe)> = Vec::new();
    let ghost mut source: Seq<int> = Seq::empty();
    let mut i: usize = 0;
    while i < n
        invariant
            n == ids@.len(),
            ids@.no_duplicates(),
            forall|j: int| 0 <= j < ids@.len() ==> settings@.contains_key(#[trigger] ids@[j]),
            i <= n,
            source.len() == probes@.len(),
            forall|k: int| 0 <= k < source.len() ==> 0 <= #[trigger] source[k] < i
                && ids@[source[k]] == probes@[k].0
                && probe_for(settings@[probes@[k].0], schemas@) == Some(probes@[k].1),
            forall|k: int, l: int| 0 <= k < l < source.len() ==> source[k] < source[l],
            forall|j: int| 0 <= j < i && (#[trigger] probe_for(settings@[ids@[j]], schemas@)) is Some
                ==> exists|k: int| 0 <= k < source.len() && source[k] == j,
        decreases n - i,
    {
        let id = ids[i];
        assert(settings@.contains_key(ids@[i as int]));
        let setting = match settings.get(id) {
            Some(s) => s,
            None => {
                proof {
                    assert(false);
                }
                return probes;
            },
        };
        let found = probe_of(setting, schemas);
        let ghost before = source;
        match found {
            Some(p) => {
                probes.push((id, p));
                proof {
                    source = source.push(i as int);
                }
            },
            None => {},
        }
        assert forall|j: int| 0 <= j < i + 1 && (#[trigger] probe_for(settings@[ids@[j]], schemas@)) is Some
            implies exists|k: int| 0 <= k < source.len() && source[k] == j by {
            if j == i {
                assert(source[source.len() - 1] == j);
            } else {
                let k = choose|k: int| 0 <= k < before.len() && before[k] == j;
                assert(source[k] == j);
            }
        }
        i = i + 1;
    }
    assert forall|k: int| 0 <= k < probes@.len() implies #[trigger] settings@.contains_key(probes@[k].0)
        && probe_for(settings@[probes@[k].0], schemas@) == Some(probes@[k].1) by {
        assert(0 <= source[k] < n);
        assert(settings@.contains_key(ids@[source[k]]));
    }
    assert forall|id: u32| #[trigger] settings@.contains_key(id) && probe_for(settings@[id], schemas@) is Some
        implies exists|k: int| 0 <= k < probes@.len() && probes@[k].0 == id by {
        assert(ids@.contains(id));
        let j = choose|j: int| 0 <= j < ids@.len() && ids@[j] == id;
        assert(probe_for(settings@[ids@[j]], schemas@) is Some);
        let k = choose|k: int| 0 <= k < source.len() && source[k] == j;
        assert(probes@[k].0 == id);
    }
    assert forall|k: int, l: int| 0 <= k < probes@.len() && 0 <= l < probes@.len() && k != l
        implies probes@[k].0 != probes@[l].0 by {
        assert(source[k] != source[l]) by {
            if k < l {
                assert(source[k] < source[l]);
            } else {
                assert(source[l] < source[k]);
            }
        }
        assert(0 <= source[k] < n && 0 <= source[l] < n);
    }
    probes
}

/// What was read from the system for a probe.
#[derive(Debug)]
pub enum ProbeOutput {
    /// The key's value, read as its `value_type` names.
    Gio(GioRead),
    /// The outputs of the service listing and of the state command (`None`
    /// for a command that could not run or was not run).
    Service { listing: Option<String>, state: Option<String> },
    /// How the driver's existence command ended, and the listing of loaded
    /// modules (`None` when it could not run or was not run).
    Module { existence: CommandOutcome, listing: Option<String> },
}

/// What was read fits the probe: of the same kind, and, for a key, a value
/// that can be reported for it.
pub open spec fn output_fits(probe: ConfigProbe, output: ProbeOutput) -> bool {
    match (probe, output) {
        (ConfigProbe::ReadGio(g), ProbeOutput::Gio(read)) => readable(g, read),
        (ConfigProbe::ServiceState(_), ProbeOutput::Service { .. }) => true,
        (ConfigProbe::ModuleState(_), ProbeOutput::Module { .. }) => true,
        _ => false,
    }
}

/// The value a probe reports, from what was read: a key always reports its
/// value; a service only when listed, and a module only when its driver
/// exists.
pub open spec fn probe_answer(probe: ConfigProbe, output: ProbeOutput) -> Option<Types> {
    match (probe, output) {
        (ConfigProbe::ReadGio(_), ProbeOutput::Gio(read)) => Some(types_of_read(read)),
        (ConfigProbe::ServiceState(s), ProbeOutput::Service { listing, state }) => s.answer_spec(
            opt_string_view(listing),
            opt_string_view(state),
        ),
        (ConfigProbe::ModuleState(m), ProbeOutput::Module { existence, listing }) => m.answer_spec(
            existence,
            opt_string_view(listing),
        ),
        _ => None,
    }
}

fn opt_as_str(o: &Option<String>) -> (r: Option<&str>)
    ensures
        crate::text::opt_str_view(r) == opt_string_view(*o),
{
    match o {
        Some(s) => Some(s.as_str()),
        None => None,
    }
}

/// Whether what was read fits the probe, as [`output_fits`] says.
pub fn output_fits_probe(probe: &ConfigProbe, output: &ProbeOutput) -> (r: bool)
    ensures
        r == output_fits(*probe, *output),
{
    match (probe, output) {
        (ConfigProbe::ReadGio(g), ProbeOutput::Gio(read)) => g.can_report(read),
        (ConfigProbe::ServiceState(_), ProbeOutput::Service { .. }) => true,
        (ConfigProbe::ModuleState(_), ProbeOutput::Module { .. }) => true,
        _ => false,
    }
}

/// The value a probe reports, as [`probe_answer`] says.
pub fn answer_probe(probe: &ConfigProbe, output: &ProbeOutput) -> (r: Option<Types>)
    requires
        output_fits(*probe, *output),
    ensures
        r == probe_answer(*probe, *output),
{
    match output {
        ProbeOutput::Gio(read) => match probe {
            ConfigProbe::ReadGio(g) => Some(g.reported_value(read)),
            _ => None,
        },
        ProbeOutput::Service { listing, state } => match probe {
            ConfigProbe::ServiceState(s) => s.answer(opt_as_str(listing), opt_as_str(state)),
            _ => None,
        },
        ProbeOutput::Module { existence, listing } => match probe {
            ConfigProbe::ModuleState(m) => m.answer(*existence, opt_as_str(listing)),
            _ => None,
        },
    }
}

/// The settings whose probes report a value, with their values, in the
/// order of the probes.
pub open spec fn collected(probes: Seq<(u32, ConfigProbe)>, outputs: Seq<ProbeOutput>) -> Seq<(u32, Types)>
    decreases probes.len(),
{
    if probes.len() == 0 || outputs.len() == 0 {
        Seq::empty()
    } else {
        let rest = collected(probes.drop_last(), outputs.drop_last());
        match probe_answer(probes.last().1, outputs.last()) {
            Some(t) => rest.push((probes.last().0, t)),
            None => rest,
        }
    }
}

/// The current values to report: for each probe that reports a value, its id
/// and that value.
pub fn collect_configs(probes: &Vec<(u32, ConfigProbe)>, outputs: &Vec<ProbeOutput>) -> (r: Vec<(u32, Types)>)
    requires
        outputs@.len() == probes@.len(),
        forall|k: int| 0 <= k < probes@.len() ==> output_fits(probes@[k].1, #[trigger] outputs@[k]),
    ensures
        r@ == collected(probes@, outputs@),
{
    let mut r: Vec<(u32, Types)> = Vec::new();
    let mut i: usize = 0;
    while i < outputs.len()
        invariant
            outputs@.len() == probes@.len(),
            forall|k: int| 0 <= k < probes@.len() ==> output_fits(probes@[k].1, #[trigger] outputs@[k]),
            i <= outputs@.len(),
            r@ == collected(probes@.take(i as int), outputs@.take(i as int)),
        decreases outputs@.len() - i,
    {
        assert(probes@.take(i + 1).drop_last() =~= probes@.take(i as int));
        assert(outputs@.take(i + 1).drop_last() =~= outputs@.take(i as int));
        match answer_probe(&probes[i].1, &outputs[i]) {
            Some(t) => {
                r.push((probes[i].0, t));
            },
            None => {},
        }
        i = i + 1;
    }
    assert(probes@.take(i as int) =~= probes@);
    assert(outputs@.take(i as int) =~= outputs@);
    r
}

/// The status of a file that is not there.
pub const STATUS_NOT_FOUND: u16 = 404;

/// Which file the web front end's request asks for first.
#[derive(Debug)]
pub enum StaticFetch {
    /// The file at this path, served as it is found.
    Path(String),
    /// The file at the address as requested; when it is not found, the same
    /// address with `.html` appended is tried.
    AsRequested,
}

/// The first file to serve for a request whose path is `path`: the index
/// page for the root, the requested address otherwise.
pub fn static_target(path: &str) -> (r: StaticFetch)
    ensures
        path@ == "/"@ ==> (r matches StaticFetch::Path(p) && p@ == "/index.html"@),
        path@ != "/"@ ==> r is AsRequested,
{
    if str_eq(path, "/") {
        StaticFetch::Path("/index.html".to_owned())
    } else {
        StaticFetch::AsRequested
    }
}

/// After the first file was fetched with status `status`: the address to try
/// next, which is the requested address `uri` with `.html` appended when the
/// requested address was not found; none otherwise, and the first answer
/// stands.
pub fn after_static_fetch(fetch: &StaticFetch, uri: &str, status: u16) -> (r: Option<String>)
    ensures
        (fetch is AsRequested && status == STATUS_NOT_FOUND) ==> (r matches Some(next) && next@ == uri@ + ".html"@),
        !(fetch is AsRequested && status == STATUS_NOT_FOUND) ==> r is None,
{
    match fetch {
        StaticFetch::AsRequested => if status == STATUS_NOT_FOUND {
            let mut next = uri.to_owned();
            next.append(".html");
            Some(next)
        } else {
            None
        },
        StaticFetch::Path(_) => None,
    }
}

/// The command run at start to ask once for the administrator password, so
/// that later `sudo` commands run without asking: `sudo -S echo 'hello'`.
pub fn sudo_warmup_command() -> (c: CommandLine)
    ensures
        c@.program == "sudo"@,
        c@.args == seq!["-S"@, "echo"@, "'hello'"@],
{
    let mut args: Vec<String> = Vec::new();
    push_arg(&mut args, "-S");
    push_arg(&mut args, "echo");
    push_arg(&mut args, "'hello'");
    assert(args.deep_view() =~= seq!["-S"@, "echo"@, "'hello'"@]);
    command_line("sudo", args)
}

} // verus!
