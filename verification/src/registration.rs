//! What registering the plugin puts into the registry, and what
//! unregistering takes out of it, as a table of plain values.
//!
//! The plugin is known to the remote desktop client by an entry among its
//! add-ins, which names the plugin's class identifier, and to the system by
//! an in-process server entry under that identifier. The caller writes and
//! deletes; the functions here say what, and how a run of steps ends.

use crate::plugin::{ComError, CLSID_ECHODVC_PLUGIN};
use vstd::prelude::*;

verus! {

/// The sixteen hexadecimal digits, capitals for ten to fifteen.
pub open spec fn hex_digit(value: int) -> char
    recommends
        0 <= value < 16,
{
    seq!['0', '1', '2', '3', '4', '5', '6', '7', '8', '9', 'A', 'B', 'C', 'D', 'E', 'F'][value]
}

/// The last `digits` hexadecimal digits of a number, zeros included.
pub open spec fn hex_text(value: int, digits: nat) -> Seq<char>
    decreases digits,
{
    if digits == 0 {
        Seq::empty()
    } else {
        hex_text(value / 16, (digits - 1) as nat).push(hex_digit(value % 16))
    }
}

/// The text of an identifier: its 32 hexadecimal digits, most significant
/// first, in groups of 8, 4, 4, 4 and 12 with a hyphen between them.
pub open spec fn guid_text(id: u128) -> Seq<char> {
    hex_text(id as int / 0x1_0000_0000_0000_0000_0000_0000, 8) + seq!['-'] + hex_text(
        id as int / 0x1_0000_0000_0000_0000_0000,
        4,
    ) + seq!['-'] + hex_text(id as int / 0x1_0000_0000_0000_0000, 4) + seq!['-'] + hex_text(
        id as int / 0x1_0000_0000_0000,
        4,
    ) + seq!['-'] + hex_text(id as int, 12)
}

/// The `Debug` text of the `windows_core::GUID` that `GUID::from_u128`
/// makes of a number. That function puts the top 32 bits into the first
/// field, the next two times 16 bits into the second and third, and the low
/// 64 bits, most significant byte first, into the eight bytes of the
/// fourth; the formatter writes the fields in that order in capital
/// hexadecimal digits, zero-padded to 8, 4, 4 and eight times 2 places,
/// with a hyphen after the first three fields and after the second byte of
/// the fourth.
#[verifier::external_body]
fn guid_debug_text(id: u128) -> (r: String)
    ensures
        r@ == guid_text(id),
{
    format!("{:?}", windows_core::GUID::from_u128(id))
}

/// The registry hive that an entry lies in.
#[derive(Clone, Copy, Debug, PartialEq, Eq, Structural)]
pub enum Hive {
    CurrentUser,
    ClassesRoot,
}

/// One named value under a key, to be written.
#[derive(Debug, PartialEq, Eq)]
pub struct RegistryValue {
    pub hive: Hive,
    /// The path of the key, which is made if it is not there.
    pub key: String,
    /// The name of the value; empty for the default value of the key.
    pub name: String,
    pub data: String,
}

/// One key to be deleted, with all below it.
#[derive(Debug, PartialEq, Eq)]
pub struct RegistryKey {
    pub hive: Hive,
    /// The path of the key that holds the one to delete.
    pub parent: String,
    pub subkey: String,
}

/// A [`RegistryValue`] as plain sequences of characters.
pub struct RegistryValueView {
    pub hive: Hive,
    pub key: Seq<char>,
    pub name: Seq<char>,
    pub data: Seq<char>,
}

/// A [`RegistryKey`] as plain sequences of characters.
pub struct RegistryKeyView {
    pub hive: Hive,
    pub parent: Seq<char>,
    pub subkey: Seq<char>,
}

impl View for RegistryValue {
    type V = RegistryValueView;

    open spec fn view(&self) -> RegistryValueView {
        RegistryValueView { hive: self.hive, key: self.key@, name: self.name@, data: self.data@ }
    }
}

impl View for RegistryKey {
    type V = RegistryKeyView;

    open spec fn view(&self) -> RegistryKeyView {
        RegistryKeyView { hive: self.hive, parent: self.parent@, subkey: self.subkey@ }
    }
}

/// The key of the remote desktop client under which add-ins are listed.
pub open spec fn addins_path() -> Seq<char> {
    "Software\\Microsoft\\Terminal Server Client\\Default\\AddIns"@
}

/// The class identifier of the plugin as the registry spells it: its text
/// in braces.
pub open spec fn clsid_name() -> Seq<char> {
    seq!['{'] + guid_text(CLSID_ECHODVC_PLUGIN) + seq!['}']
}

/// The key under which the system finds the library of the plugin's class.
pub open spec fn inproc_server_path() -> Seq<char> {
    "CLSID\\"@ + clsid_name() + "\\InprocServer32"@
}

/// The text of the plugin's class identifier is the identifier as it is
/// commonly written.
pub proof fn clsid_text_is_as_written()
    ensures
        guid_text(CLSID_ECHODVC_PLUGIN) == "F5234ABF-AC88-4D6E-AA8D-490DF08F194D"@,
{
    reveal_strlit("F5234ABF-AC88-4D6E-AA8D-490DF08F194D");
    reveal_with_fuel(hex_text, 13);
    assert(guid_text(CLSID_ECHODVC_PLUGIN) =~= "F5234ABF-AC88-4D6E-AA8D-490DF08F194D"@);
}

/// The class identifier of the plugin as the registry spells it.
pub fn clsid_key_name() -> (r: String)
    ensures
        r@ == clsid_name(),
{
    proof {
        reveal_strlit("{");
        reveal_strlit("}");
    }
    let text = guid_debug_text(CLSID_ECHODVC_PLUGIN);
    let name = String::from_str("{").concat(text.as_str()).concat("}");
    assert(name@ =~= clsid_name());
    name
}

/// The entry that makes the plugin known to the remote desktop client:
/// under the add-in key of the plugin's name, the value `Name` holds the
/// class identifier.
pub fn rdp_entry(plugin_name: &str) -> (r: RegistryValue)
    ensures
        r@ == (RegistryValueView {
            hive: Hive::CurrentUser,
            key: addins_path() + "\\"@ + plugin_name@,
            name: "Name"@,
            data: clsid_name(),
        }),
{
    let key = String::from_str("Software\\Microsoft\\Terminal Server Client\\Default\\AddIns")
        .concat("\\").concat(plugin_name);
    RegistryValue {
        hive: Hive::CurrentUser,
        key,
        name: String::from_str("Name"),
        data: clsid_key_name(),
    }
}

/// The entries that make the plugin's class known to the system: the
/// in-process server key of the class holds the path of the library as its
/// default value, and the threading model `Free`.
pub fn com_entries(library_path: &str) -> (r: Vec<RegistryValue>)
    ensures
        r@.len() == 2,
        r@[0]@ == (RegistryValueView {
            hive: Hive::ClassesRoot,
            key: inproc_server_path(),
            name: ""@,
            data: library_path@,
        }),
        r@[1]@ == (RegistryValueView {
            hive: Hive::ClassesRoot,
            key: inproc_server_path(),
            name: "ThreadingModel"@,
            data: "Free"@,
        }),
{
    let clsid = clsid_key_name();
    let library = RegistryValue {
        hive: Hive::ClassesRoot,
        key: String::from_str("CLSID\\").concat(clsid.as_str()).concat("\\InprocServer32"),
        name: String::from_str(""),
        data: String::from_str(library_path),
    };
    let threading = RegistryValue {
        hive: Hive::ClassesRoot,
        key: String::from_str("CLSID\\").concat(clsid.as_str()).concat("\\InprocServer32"),
        name: String::from_str("ThreadingModel"),
        data: String::from_str("Free"),
    };
    let mut entries: Vec<RegistryValue> = Vec::new();
    entries.push(library);
    entries.push(threading);
    entries
}

/// The key whose removal makes the remote desktop client forget the plugin.
pub fn rdp_removal(plugin_name: &str) -> (r: RegistryKey)
    ensures
        r@ == (RegistryKeyView {
            hive: Hive::CurrentUser,
            parent: addins_path(),
            subkey: plugin_name@,
        }),
{
    RegistryKey {
        hive: Hive::CurrentUser,
        parent: String::from_str("Software\\Microsoft\\Terminal Server Client\\Default\\AddIns"),
        subkey: String::from_str(plugin_name),
    }
}

/// The key whose removal makes the system forget the plugin's class.
pub fn com_removal() -> (r: RegistryKey)
    ensures
        r@ == (RegistryKeyView {
            hive: Hive::ClassesRoot,
            parent: "CLSID"@,
            subkey: clsid_name(),
        }),
{
    RegistryKey {
        hive: Hive::ClassesRoot,
        parent: String::from_str("CLSID"),
        subkey: clsid_key_name(),
    }
}

/// A step of registering or unregistering: first what concerns the remote
/// desktop client, then what concerns the system.
#[derive(Clone, Copy, Debug, PartialEq, Eq, Structural)]
pub enum RegistrationStep {
    /// Write or delete the add-in entry.
    Client,
    /// Write or delete the class entry.
    Class,
    /// Both steps succeeded; nothing is left to do.
    Done,
    /// A step failed; nothing more is tried.
    Failed(ComError),
}

/// The step that follows `step` when it succeeded or failed. The first
/// failure ends the run, and what follows the failed step is not tried.
pub open spec fn step_after(step: RegistrationStep, succeeded: bool) -> RegistrationStep {
    match step {
        RegistrationStep::Client => if succeeded {
            RegistrationStep::Class
        } else {
            RegistrationStep::Failed(ComError::SelfRegistration)
        },
        RegistrationStep::Class => if succeeded {
            RegistrationStep::Done
        } else {
            RegistrationStep::Failed(ComError::SelfRegistration)
        },
        RegistrationStep::Done => RegistrationStep::Done,
        RegistrationStep::Failed(error) => RegistrationStep::Failed(error),
    }
}

/// The step with which registering and unregistering start.
pub fn first_step() -> (r: RegistrationStep)
    ensures
        r == RegistrationStep::Client,
{
    RegistrationStep::Client
}

/// Says what follows a step, given whether it succeeded.
pub fn next_step(step: RegistrationStep, succeeded: bool) -> (r: RegistrationStep)
    ensures
        r == step_after(step, succeeded),
{
    match step {
        RegistrationStep::Client => {
            if succeeded {
                RegistrationStep::Class
            } else {
                RegistrationStep::Failed(ComError::SelfRegistration)
            }
        },
        RegistrationStep::Class => {
            if succeeded {
                RegistrationStep::Done
            } else {
                RegistrationStep::Failed(ComError::SelfRegistration)
            }
        },
        RegistrationStep::Done => RegistrationStep::Done,
        RegistrationStep::Failed(error) => RegistrationStep::Failed(error),
    }
}

} // verus!
