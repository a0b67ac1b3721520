use vstd::prelude::*;

use crate::command::{result_view, ApplyRequest, RequestView};
use crate::settings::ApplySettings;
use crate::text::str_eq;
use crate::value::Types;

verus! {

/// A key of the desktop settings (GSettings): the schema it belongs to, the
/// key's name, the name of the type of its value, and the value to write.
#[derive(Debug)]
pub struct GioSetting {
    pub schema: String,
    pub key: String,
    pub value_type: String,
    pub value: Option<Types>,
}

/// The types of value that a desktop-settings key is read as.
#[derive(Clone, Copy, Debug, PartialEq, Eq, Structural)]
pub enum GioValueKind {
    Bool,
    Str,
    Double,
    Int,
}

/// The type of value named by a setting's `value_type`: `bool`, `string`,
/// `double` or `int`; any other name names none.
pub open spec fn gio_kind_of(value_type: Seq<char>) -> Option<GioValueKind> {
    if value_type == "bool"@ {
        Some(GioValueKind::Bool)
    } else if value_type == "string"@ {
        Some(GioValueKind::Str)
    } else if value_type == "double"@ {
        Some(GioValueKind::Double)
    } else if value_type == "int"@ {
        Some(GioValueKind::Int)
    } else {
        None
    }
}

/// A key's value as read from the desktop settings, by the type it was read
/// as; a double by its IEEE-754 bit pattern.
#[derive(Debug)]
pub enum GioRead {
    Bool(bool),
    Str(String),
    Double(u64),
    Int(i64),
}

/// The type a value was read as.
pub open spec fn kind_of_read(read: GioRead) -> GioValueKind {
    match read {
        GioRead::Bool(_) => GioValueKind::Bool,
        GioRead::Str(_) => GioValueKind::Str,
        GioRead::Double(_) => GioValueKind::Double,
        GioRead::Int(_) => GioValueKind::Int,
    }
}

/// The bit pattern of a double is that of a finite number: its exponent
/// field (bits 52 to 62) is not all ones.
pub open spec fn finite_double(bits: u64) -> bool {
    (bits / 0x10_0000_0000_0000) % 0x800 != 0x7ff
}

/// A read value can be reported for the key: it was read as the key's
/// `value_type` names, and a double is finite.
pub open spec fn readable(setting: GioSetting, read: GioRead) -> bool {
    &&& gio_kind_of(setting.value_type@) == Some(kind_of_read(read))
    &&& read matches GioRead::Double(bits) ==> finite_double(bits)
}

/// The value reported for a key read as `read`.
pub open spec fn types_of_read(read: GioRead) -> Types {
    match read {
        GioRead::Bool(b) => Types::Bool(b),
        GioRead::Str(s) => Types::String(s),
        GioRead::Double(bits) => Types::Double(bits),
        GioRead::Int(i) => Types::Int(i),
    }
}

fn clone_value(v: &Option<Types>) -> (r: Option<Types>)
    ensures
        r == *v,
{
    match v {
        Some(t) => Some(t.clone()),
        None => None,
    }
}

impl Clone for GioSetting {
    fn clone(&self) -> (r: Self)
        ensures
            r == *self,
    {
        GioSetting {
            schema: self.schema.clone(),
            key: self.key.clone(),
            value_type: self.value_type.clone(),
            value: clone_value(&self.value),
        }
    }
}

impl GioSetting {
    /// The type that the key's current value is read as.
    pub fn value_kind(&self) -> (r: Option<GioValueKind>)
        ensures
            r == gio_kind_of(self.value_type@),
    {
        let t = self.value_type.as_str();
        if str_eq(t, "bool") {
            Some(GioValueKind::Bool)
        } else if str_eq(t, "string") {
            Some(GioValueKind::Str)
        } else if str_eq(t, "double") {
            Some(GioValueKind::Double)
        } else if str_eq(t, "int") {
            Some(GioValueKind::Int)
        } else {
            None
        }
    }
}

impl GioSetting {
    /// Whether a read value can be reported for this key, as [`readable`]
    /// says.
    pub fn can_report(&self, read: &GioRead) -> (r: bool)
        ensures
            r == readable(*self, *read),
    {
        let kind = match read {
            GioRead::Bool(_) => GioValueKind::Bool,
            GioRead::Str(_) => GioValueKind::Str,
            GioRead::Double(_) => GioValueKind::Double,
            GioRead::Int(_) => GioValueKind::Int,
        };
        let expected = self.value_kind();
        let kind_fits = match expected {
            Some(k) => k == kind,
            None => false,
        };
        let finite = match read {
            GioRead::Double(bits) => (*bits / 0x10_0000_0000_0000) % 0x800 != 0x7ff,
            _ => true,
        };
        kind_fits && finite
    }

    /// The value reported for this key, read as `read`.
    pub fn reported_value(&self, read: &GioRead) -> (r: Types)
        requires
            readable(*self, *read),
        ensures
            r == types_of_read(*read),
    {
        match read {
            GioRead::Bool(b) => Types::Bool(*b),
            GioRead::Str(s) => Types::String(s.clone()),
            GioRead::Double(bits) => Types::Double(*bits),
            GioRead::Int(i) => Types::Int(*i),
        }
    }
}

impl ApplySettings for GioSetting {
    /// Any value can be written to a key.
    open spec fn accepts(&self, value: Types) -> bool {
        true
    }

    /// The value becomes the one to write; the key stays.
    open spec fn with_value(&self, value: Types) -> Self {
        GioSetting {
            schema: self.schema,
            key: self.key,
            value_type: self.value_type,
            value: Some(value),
        }
    }

    /// The value is written under the key; with no value there is nothing to
    /// write.
    open spec fn planned(&self) -> Result<RequestView, Seq<char>> {
        match self.value {
            None => Err("No value to apply"@),
            Some(v) => Ok(RequestView::WriteGio { schema: self.schema@, key: self.key@, value: v }),
        }
    }

    fn accepts_value(&self, value: &Types) -> (b: bool) {
        true
    }

    fn apply(self) -> (r: Result<ApplyRequest, &'static str>) {
        match self.value {
            None => Err("No value to apply"),
            Some(value) => Ok(ApplyRequest::WriteGio { schema: self.schema, key: self.key, value }),
        }
    }

    fn set_value(&mut self, value: Types) {
        self.value = Some(value);
    }
}

/// `s` is one of the strings of `list`.
pub open spec fn listed(list: Seq<String>, s: Seq<char>) -> bool {
    exists|i: int| 0 <= i < list.len() && #[trigger] list[i]@ == s
}

/// Whether `s` is one of the strings of `list` (a set of schema or key names).
pub fn contains_string(list: &Vec<String>, s: &str) -> (r: bool)
    ensures
        r == listed(list@, s@),
{
    let mut i: usize = 0;
    while i < list.len()
        invariant
            i <= list.len(),
            forall|k: int| 0 <= k < i ==> list@[k]@ != s@,
        decreases list.len() - i,
    {
        if str_eq(list[i].as_str(), s) {
            return true;
        }
        i = i + 1;
    }
    false
}

/// Whether a key may be written: it must be one of the schema's keys.
pub fn check_key_available(available_keys: &Vec<String>, key: &str) -> (r: Result<(), &'static str>)
    ensures
        r is Ok <==> listed(available_keys@, key@),
        r is Err ==> result_view(r) == Err::<(), Seq<char>>(
            "Key not found. Ensure you pass HashSet of Keys."@,
        ),
{
    if contains_string(available_keys, key) {
        Ok(())
    } else {
        Err("Key not found. Ensure you pass HashSet of Keys.")
    }
}

} // verus!
