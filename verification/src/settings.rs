use vstd::prelude::*;

use crate::cli::CliSetting;
use crate::command::{plan_view, ApplyRequest, RequestView};
use crate::gsettings::GioSetting;
use crate::modprobe::Modprobe;
use crate::systemctl::Systemctl;
use crate::value::Types;

verus! {

/// A setting that can be given a value and applied to the system.
///
/// Applying is split in two: `apply` says what has to be asked of the system
/// (or why nothing can be), and the kind of the request reads the system's
/// answer (see [`crate::command::CommandKind::result`] and
/// [`crate::command::gio_write_result`]).
pub trait ApplySettings: Sized {
    /// Whether `set_value` takes this value.
    spec fn accepts(&self, value: Types) -> bool;

    /// The setting after `set_value(value)`.
    spec fn with_value(&self, value: Types) -> Self;

    /// What applying the setting asks of the system, or the message of the
    /// error that stops it.
    spec fn planned(&self) -> Result<RequestView, Seq<char>>;

    /// Whether `set_value` takes this value.
    fn accepts_value(&self, value: &Types) -> (b: bool)
        ensures
            b == self.accepts(*value),
    ;

    /// What applying the setting asks of the system.
    fn apply(self) -> (r: Result<ApplyRequest, &'static str>)
        ensures
            plan_view(r) == self.planned(),
    ;

    /// Gives the setting a new value.
    fn set_value(&mut self, value: Types)
        requires
            old(self).accepts(value),
        ensures
            *final(self) == old(self).with_value(value),
    ;
}

/// A setting of any kind, as the settings file describes it.
#[derive(Debug)]
pub enum SettingsType {
    GioSettings(GioSetting),
    ModProbe(Modprobe),
    Systemctl(Systemctl),
    CliSetting(CliSetting),
    Invalid,
}

impl Default for SettingsType {
    fn default() -> (r: Self)
        ensures
            r is Invalid,
    {
        SettingsType::Invalid
    }
}

impl Clone for SettingsType {
    fn clone(&self) -> (r: Self)
        ensures
            r == *self,
    {
        match self {
            SettingsType::GioSettings(x) => SettingsType::GioSettings(x.clone()),
            SettingsType::ModProbe(x) => SettingsType::ModProbe(x.clone()),
            SettingsType::Systemctl(x) => SettingsType::Systemctl(x.clone()),
            SettingsType::CliSetting(x) => SettingsType::CliSetting(x.clone()),
            SettingsType::Invalid => SettingsType::Invalid,
        }
    }
}

impl ApplySettings for SettingsType {
    /// As the setting inside says; an invalid setting takes any value and
    /// ignores it.
    open spec fn accepts(&self, value: Types) -> bool {
        match self {
            SettingsType::GioSettings(x) => x.accepts(value),
            SettingsType::ModProbe(x) => x.accepts(value),
            SettingsType::Systemctl(x) => x.accepts(value),
            SettingsType::CliSetting(x) => x.accepts(value),
            SettingsType::Invalid => true,
        }
    }

    open spec fn with_value(&self, value: Types) -> Self {
        match self {
            SettingsType::GioSettings(x) => SettingsType::GioSettings(x.with_value(value)),
            SettingsType::ModProbe(x) => SettingsType::ModProbe(x.with_value(value)),
            SettingsType::Systemctl(x) => SettingsType::Systemctl(x.with_value(value)),
            SettingsType::CliSetting(x) => SettingsType::CliSetting(x.with_value(value)),
            SettingsType::Invalid => SettingsType::Invalid,
        }
    }

    /// As the setting inside says; an invalid setting cannot be applied.
    open spec fn planned(&self) -> Result<RequestView, Seq<char>> {
        match self {
            SettingsType::GioSettings(x) => x.planned(),
            SettingsType::ModProbe(x) => x.planned(),
            SettingsType::Systemctl(x) => x.planned(),
            SettingsType::CliSetting(x) => x.planned(),
            SettingsType::Invalid => Err("Invalid SettingsType"@),
        }
    }

    fn accepts_value(&self, value: &Types) -> (b: bool) {
        match self {
            SettingsType::GioSettings(x) => x.accepts_value(value),
            SettingsType::ModProbe(x) => x.accepts_value(value),
            SettingsType::Systemctl(x) => x.accepts_value(value),
            SettingsType::CliSetting(x) => x.accepts_value(value),
            SettingsType::Invalid => true,
        }
    }

    fn apply(self) -> (r: Result<ApplyRequest, &'static str>) {
        match self {
            SettingsType::GioSettings(x) => x.apply(),
            SettingsType::ModProbe(x) => x.apply(),
            SettingsType::Systemctl(x) => x.apply(),
            SettingsType::CliSetting(x) => x.apply(),
            SettingsType::Invalid => Err("Invalid SettingsType"),
        }
    }

    fn set_value(&mut self, value: Types) {
        match self {
            SettingsType::GioSettings(x) => x.set_value(value),
            SettingsType::ModProbe(x) => x.set_value(value),
            SettingsType::Systemctl(x) => x.set_value(value),
            SettingsType::CliSetting(x) => x.set_value(value),
            SettingsType::Invalid => {},
        }
    }
}

} // verus!
