//! Whether the application starts with the user's session, decided from the values under the
//! registry key that lists the programs to run at logon.
use vstd::prelude::*;

verus! {

/// The registry key, under the current user's hive, whose values name programs run at logon.
pub const AUTO_START_KEY: &'static str = "Software\\Microsoft\\Windows\\CurrentVersion\\Run";

/// The name of this application's value under that key.
pub const AUTO_START_VALUE_NAME: &'static str = "spotick";

/// The change to make to the registry key.
#[derive(Clone, Copy, Debug, PartialEq, Eq, Structural)]
pub enum RegistryChange {
    /// Set this application's value to the path of its executable.
    SetValue,
    /// Delete this application's value.
    DeleteValue,
}

/// Some value under the key carries this application's name.
pub open spec fn autostart_enabled_spec(value_names: Seq<String>) -> bool {
    exists|i: int| 0 <= i < value_names.len() && value_names[i]@ == AUTO_START_VALUE_NAME@
}

/// Whether autostart is on, given the names of the values under the key that could be read.
pub fn is_autostart_enabled(value_names: &Vec<String>) -> (r: bool)
    ensures
        r == autostart_enabled_spec(value_names@),
{
    let name = AUTO_START_VALUE_NAME.to_owned();
    let mut i: usize = 0;
    while i < value_names.len()
        invariant
            0 <= i <= value_names.len(),
            name@ == AUTO_START_VALUE_NAME@,
            forall|j: int| 0 <= j < i ==> value_names@[j]@ != AUTO_START_VALUE_NAME@,
        decreases value_names.len() - i,
    {
        if value_names[i].eq(&name) {
            return true;
        }
        i = i + 1;
    }
    false
}

/// What turning autostart on takes: setting the value, unless it is there already.
pub fn enable_autostart(value_names: &Vec<String>) -> (r: Option<RegistryChange>)
    ensures
        r == (if autostart_enabled_spec(value_names@) {
            None
        } else {
            Some(RegistryChange::SetValue)
        }),
{
    if is_autostart_enabled(value_names) {
        return None;
    }
    Some(RegistryChange::SetValue)
}

/// What turning autostart off takes: deleting the value, if it is there.
pub fn disable_autostart(value_names: &Vec<String>) -> (r: Option<RegistryChange>)
    ensures
        r == (if autostart_enabled_spec(value_names@) {
            Some(RegistryChange::DeleteValue)
        } else {
            None
        }),
{
    if !is_autostart_enabled(value_names) {
        return None;
    }
    Some(RegistryChange::DeleteValue)
}

/// The change that brings autostart in line with the setting `auto_start`.
pub fn autostart_change(auto_start: bool, value_names: &Vec<String>) -> (r: Option<RegistryChange>)
    ensures
        r == (if auto_start {
            if autostart_enabled_spec(value_names@) { None } else { Some(RegistryChange::SetValue) }
        } else {
            if autostart_enabled_spec(value_names@) { Some(RegistryChange::DeleteValue) } else { None }
        }),
{
    if auto_start {
        enable_autostart(value_names)
    } else {
        disable_autostart(value_names)
    }
}

} // verus!
