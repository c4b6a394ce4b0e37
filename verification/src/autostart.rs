//! Start on boot: what has to be done on each platform to enable, disable or
//! check autostart. Running the registry tool and touching the desktop entry
//! file are left to the caller, which carries out the returned plan.

use crate::config::{joined, path_join, verbatim_prefixed};
use crate::text::strings_view;
use vstd::prelude::*;

verus! {

/// The operating system the application runs on.
#[derive(Clone, Copy, Debug, PartialEq, Eq)]
pub enum Platform {
    Windows,
    Linux,
    Other,
}

/// One step that puts an autostart decision into effect.
#[derive(Clone, Debug)]
pub enum AutostartPlan {
    /// Run the Windows `reg` tool with these arguments.
    RunRegistry(Vec<String>),
    /// Write this XDG desktop entry to the autostart file.
    WriteDesktopEntry(String),
    /// Remove the autostart file if it exists.
    RemoveDesktopEntry,
    /// Autostart is on exactly when the autostart file exists.
    CheckDesktopEntry,
}

/// Name under which the application registers itself.
pub open spec fn app_name() -> Seq<char> {
    "KeySlop"@
}

/// The registry key, under HKEY_CURRENT_USER, of programs run at logon.
pub open spec fn registry_key() -> Seq<char> {
    "Software\\Microsoft\\Windows\\CurrentVersion\\Run"@
}

/// The registry key with its hive.
pub open spec fn full_registry_key() -> Seq<char> {
    "HKCU\\"@ + registry_key()
}

/// Error when autostart is asked for on a platform without support.
pub open spec fn unsupported_message() -> Seq<char> {
    "Autostart is not supported on this platform"@
}

/// Arguments of `reg` that register `exe` to run at logon.
pub open spec fn registry_add_args(exe: Seq<char>) -> Seq<Seq<char>> {
    seq![
        "add"@,
        full_registry_key(),
        "/v"@,
        app_name(),
        "/t"@,
        "REG_SZ"@,
        "/d"@,
        "\""@ + exe + "\""@,
        "/f"@,
    ]
}

/// Arguments of `reg` that remove the registration.
pub open spec fn registry_delete_args() -> Seq<Seq<char>> {
    seq!["delete"@, full_registry_key(), "/v"@, app_name(), "/f"@]
}

/// Arguments of `reg` that look the registration up.
pub open spec fn registry_query_args() -> Seq<Seq<char>> {
    seq!["query"@, full_registry_key(), "/v"@, app_name()]
}

/// The XDG autostart desktop entry that starts `exe`.
pub open spec fn desktop_entry(exe: Seq<char>) -> Seq<char> {
    "[Desktop Entry]\nType=Application\nName="@ + app_name() + "\nExec="@ + exe
        + "\nHidden=false\nNoDisplay=false\nX-GNOME-Autostart-enabled=true\nComment=Keyboard soundboard application\n"@
}

/// The plan's content as plain values: its kind and its text.
pub open spec fn plan_is_registry(p: AutostartPlan, args: Seq<Seq<char>>) -> bool {
    p matches AutostartPlan::RunRegistry(a) && strings_view(a@) == args
}

/// The registry key under which programs run at logon.
pub fn windows_registry_key() -> (r: &'static str)
    ensures
        r@ == registry_key(),
{
    "Software\\Microsoft\\Windows\\CurrentVersion\\Run"
}

fn full_registry_key_string() -> (r: String)
    ensures
        r@ == full_registry_key(),
{
    let mut r = String::from_str("HKCU\\");
    r.append(windows_registry_key());
    r
}

fn app_name_string() -> (r: String)
    ensures
        r@ == app_name(),
{
    String::from_str("KeySlop")
}

/// Arguments of `reg` that register `exe` to run at logon.
pub fn registry_add_arguments(exe: &str) -> (r: Vec<String>)
    ensures
        strings_view(r@) == registry_add_args(exe@),
{
    let mut quoted = String::from_str("\"");
    quoted.append(exe);
    quoted.append("\"");
    let mut r: Vec<String> = Vec::new();
    r.push(String::from_str("add"));
    r.push(full_registry_key_string());
    r.push(String::from_str("/v"));
    r.push(app_name_string());
    r.push(String::from_str("/t"));
    r.push(String::from_str("REG_SZ"));
    r.push(String::from_str("/d"));
    r.push(quoted);
    r.push(String::from_str("/f"));
    assert(strings_view(r@) =~= registry_add_args(exe@));
    r
}

/// Arguments of `reg` that remove the registration.
pub fn registry_delete_arguments() -> (r: Vec<String>)
    ensures
        strings_view(r@) == registry_delete_args(),
{
    let mut r: Vec<String> = Vec::new();
    r.push(String::from_str("delete"));
    r.push(full_registry_key_string());
    r.push(String::from_str("/v"));
    r.push(app_name_string());
    r.push(String::from_str("/f"));
    assert(strings_view(r@) =~= registry_delete_args());
    r
}

/// Arguments of `reg` that look the registration up.
pub fn registry_query_arguments() -> (r: Vec<String>)
    ensures
        strings_view(r@) == registry_query_args(),
{
    let mut r: Vec<String> = Vec::new();
    r.push(String::from_str("query"));
    r.push(full_registry_key_string());
    r.push(String::from_str("/v"));
    r.push(app_name_string());
    assert(strings_view(r@) =~= registry_query_args());
    r
}

/// The XDG autostart desktop entry that starts `exe`.
pub fn desktop_entry_for(exe: &str) -> (r: String)
    ensures
        r@ == desktop_entry(exe@),
{
    let mut r = String::from_str("[Desktop Entry]\nType=Application\nName=");
    r.append("KeySlop");
    r.append("\nExec=");
    r.append(exe);
    r.append(
        "\nHidden=false\nNoDisplay=false\nX-GNOME-Autostart-enabled=true\nComment=Keyboard soundboard application\n",
    );
    r
}

/// The path of the desktop entry file inside the XDG autostart directory.
pub fn desktop_file_path(autostart_dir: &str) -> (r: String)
    ensures
        !verbatim_prefixed(autostart_dir@) ==> joined(r@, autostart_dir@, "keyslop.desktop"@),
{
    proof {
        reveal_strlit("keyslop.desktop");
    }
    path_join(autostart_dir, "keyslop.desktop")
}

/// Enable autostart: the plan for the platform. `exe_path` is the path of
/// the running executable, or the error met while finding it, which is the
/// result on the platforms that need the path.
pub fn enable(platform: Platform, exe_path: Result<String, String>) -> (r: Result<AutostartPlan, String>)
    ensures
        platform == Platform::Other ==> (r matches Err(e) && e@ == unsupported_message()),
        platform != Platform::Other ==> match exe_path {
            Err(e) => r matches Err(e2) && e2@ == e@,
            Ok(exe) => match r {
                Ok(p) => if platform == Platform::Windows {
                    plan_is_registry(p, registry_add_args(exe@))
                } else {
                    p matches AutostartPlan::WriteDesktopEntry(entry) && entry@ == desktop_entry(exe@)
                },
                Err(_) => false,
            },
        },
{
    match platform {
        Platform::Other => Err(String::from_str("Autostart is not supported on this platform")),
        Platform::Windows => match exe_path {
            Ok(exe) => Ok(AutostartPlan::RunRegistry(registry_add_arguments(exe.as_str()))),
            Err(e) => Err(e),
        },
        Platform::Linux => match exe_path {
            Ok(exe) => Ok(AutostartPlan::WriteDesktopEntry(desktop_entry_for(exe.as_str()))),
            Err(e) => Err(e),
        },
    }
}

/// Disable autostart: the plan for the platform.
pub fn disable(platform: Platform) -> (r: Result<AutostartPlan, String>)
    ensures
        platform == Platform::Other ==> (r matches Err(e) && e@ == unsupported_message()),
        platform == Platform::Windows ==> (r matches Ok(p) && plan_is_registry(p, registry_delete_args())),
        platform == Platform::Linux ==> (r matches Ok(AutostartPlan::RemoveDesktopEntry)),
{
    match platform {
        Platform::Other => Err(String::from_str("Autostart is not supported on this platform")),
        Platform::Windows => Ok(AutostartPlan::RunRegistry(registry_delete_arguments())),
        Platform::Linux => Ok(AutostartPlan::RemoveDesktopEntry),
    }
}

/// Check whether autostart is enabled: the check to make, or `None` where
/// autostart is never enabled.
pub fn is_enabled(platform: Platform) -> (r: Option<AutostartPlan>)
    ensures
        platform == Platform::Other ==> r is None,
        platform == Platform::Windows ==> (r matches Some(p) && plan_is_registry(p, registry_query_args())),
        platform == Platform::Linux ==> (r matches Some(AutostartPlan::CheckDesktopEntry)),
{
    match platform {
        Platform::Other => None,
        Platform::Windows => Some(AutostartPlan::RunRegistry(registry_query_arguments())),
        Platform::Linux => Some(AutostartPlan::CheckDesktopEntry),
    }
}

/// The result of enabling through the registry, once `reg add` has run:
/// success, or an error carrying the tool's error output.
pub fn registry_add_result(success: bool, stderr: &str) -> (r: Result<(), String>)
    ensures
        success ==> r is Ok,
        !success ==> (r matches Err(e) && e@ == "Failed to set registry key: "@ + stderr@),
{
    if success {
        Ok(())
    } else {
        let mut e = String::from_str("Failed to set registry key: ");
        e.append(stderr);
        Err(e)
    }
}

/// The result of disabling through the registry, once `reg delete` has run:
/// success whatever the tool's exit status, since a registration that does
/// not exist is already disabled.
pub fn registry_delete_result(success: bool) -> (r: Result<(), String>)
    ensures
        r is Ok,
{
    if success {
        Ok(())
    } else {
        Ok(())
    }
}

/// Enabling, checking and disabling act on one registration: on Windows the
/// same registry value (added, queried, deleted), on Linux the same desktop
/// entry file (written, looked for, removed); elsewhere there is none.
pub proof fn autostart_plans_agree(exe: Seq<char>)
    ensures
        registry_add_args(exe)[0] == "add"@,
        registry_query_args()[0] == "query"@,
        registry_delete_args()[0] == "delete"@,
        registry_add_args(exe)[1] == full_registry_key(),
        registry_query_args()[1] == full_registry_key(),
        registry_delete_args()[1] == full_registry_key(),
        registry_add_args(exe)[2] == "/v"@ && registry_add_args(exe)[3] == app_name(),
        registry_query_args()[2] == "/v"@ && registry_query_args()[3] == app_name(),
        registry_delete_args()[2] == "/v"@ && registry_delete_args()[3] == app_name(),
{
}

/// The registry arguments spelled out: enabling adds the value `KeySlop`
/// under HKCU's Run key with the quoted executable path as its data,
/// checking queries that value, and disabling deletes it.
pub proof fn registry_arguments_spelled_out(exe: Seq<char>)
    ensures
        registry_add_args(exe) === seq![seq!['a', 'd', 'd'], seq!['H', 'K', 'C', 'U', '\\', 'S', 'o', 'f', 't', 'w', 'a', 'r', 'e', '\\', 'M', 'i', 'c', 'r', 'o', 's', 'o', 'f', 't', '\\', 'W', 'i', 'n', 'd', 'o', 'w', 's', '\\', 'C', 'u', 'r', 'r', 'e', 'n', 't', 'V', 'e', 'r', 's', 'i', 'o', 'n', '\\', 'R', 'u', 'n'], seq!['/', 'v'], seq!['K', 'e', 'y', 'S', 'l', 'o', 'p'], seq!['/', 't'], seq!['R', 'E', 'G', '_', 'S', 'Z'], seq!['/', 'd'], seq!['"'] + exe + seq!['"'], seq!['/', 'f']],
        registry_query_args() === seq![seq!['q', 'u', 'e', 'r', 'y'], seq!['H', 'K', 'C', 'U', '\\', 'S', 'o', 'f', 't', 'w', 'a', 'r', 'e', '\\', 'M', 'i', 'c', 'r', 'o', 's', 'o', 'f', 't', '\\', 'W', 'i', 'n', 'd', 'o', 'w', 's', '\\', 'C', 'u', 'r', 'r', 'e', 'n', 't', 'V', 'e', 'r', 's', 'i', 'o', 'n', '\\', 'R', 'u', 'n'], seq!['/', 'v'], seq!['K', 'e', 'y', 'S', 'l', 'o', 'p']],
        registry_delete_args() === seq![seq!['d', 'e', 'l', 'e', 't', 'e'], seq!['H', 'K', 'C', 'U', '\\', 'S', 'o', 'f', 't', 'w', 'a', 'r', 'e', '\\', 'M', 'i', 'c', 'r', 'o', 's', 'o', 'f', 't', '\\', 'W', 'i', 'n', 'd', 'o', 'w', 's', '\\', 'C', 'u', 'r', 'r', 'e', 'n', 't', 'V', 'e', 'r', 's', 'i', 'o', 'n', '\\', 'R', 'u', 'n'], seq!['/', 'v'], seq!['K', 'e', 'y', 'S', 'l', 'o', 'p'], seq!['/', 'f']],
{
    reveal_strlit("add");
    assert("add"@ =~= seq!['a', 'd', 'd']);
    reveal_strlit("/v");
    assert("/v"@ =~= seq!['/', 'v']);
    reveal_strlit("KeySlop");
    assert("KeySlop"@ =~= seq!['K', 'e', 'y', 'S', 'l', 'o', 'p']);
    reveal_strlit("/t");
    assert("/t"@ =~= seq!['/', 't']);
    reveal_strlit("REG_SZ");
    assert("REG_SZ"@ =~= seq!['R', 'E', 'G', '_', 'S', 'Z']);
    reveal_strlit("/d");
    assert("/d"@ =~= seq!['/', 'd']);
    reveal_strlit("/f");
    assert("/f"@ =~= seq!['/', 'f']);
    reveal_strlit("delete");
    assert("delete"@ =~= seq!['d', 'e', 'l', 'e', 't', 'e']);
    reveal_strlit("query");
    assert("query"@ =~= seq!['q', 'u', 'e', 'r', 'y']);
    reveal_strlit("HKCU\\");
    assert("HKCU\\"@ =~= seq!['H', 'K', 'C', 'U', '\\']);
    reveal_strlit("Software\\Microsoft\\Windows\\CurrentVersion\\Run");
    assert("Software\\Microsoft\\Windows\\CurrentVersion\\Run"@ =~= seq!['S', 'o', 'f', 't', 'w', 'a', 'r', 'e', '\\', 'M', 'i', 'c', 'r', 'o', 's', 'o', 'f', 't', '\\', 'W', 'i', 'n', 'd', 'o', 'w', 's', '\\', 'C', 'u', 'r', 'r', 'e', 'n', 't', 'V', 'e', 'r', 's', 'i', 'o', 'n', '\\', 'R', 'u', 'n']);
    reveal_strlit("\"");
    assert("\""@ =~= seq!['"']);
    assert(full_registry_key() =~= seq!['H', 'K', 'C', 'U', '\\', 'S', 'o', 'f', 't', 'w', 'a', 'r', 'e', '\\', 'M', 'i', 'c', 'r', 'o', 's', 'o', 'f', 't', '\\', 'W', 'i', 'n', 'd', 'o', 'w', 's', '\\', 'C', 'u', 'r', 'r', 'e', 'n', 't', 'V', 'e', 'r', 's', 'i', 'o', 'n', '\\', 'R', 'u', 'n']);
    assert(registry_add_args(exe) =~= seq![seq!['a', 'd', 'd'], seq!['H', 'K', 'C', 'U', '\\', 'S', 'o', 'f', 't', 'w', 'a', 'r', 'e', '\\', 'M', 'i', 'c', 'r', 'o', 's', 'o', 'f', 't', '\\', 'W', 'i', 'n', 'd', 'o', 'w', 's', '\\', 'C', 'u', 'r', 'r', 'e', 'n', 't', 'V', 'e', 'r', 's', 'i', 'o', 'n', '\\', 'R', 'u', 'n'], seq!['/', 'v'], seq!['K', 'e', 'y', 'S', 'l', 'o', 'p'], seq!['/', 't'], seq!['R', 'E', 'G', '_', 'S', 'Z'], seq!['/', 'd'], seq!['"'] + exe + seq!['"'], seq!['/', 'f']]);
    assert(registry_query_args() =~= seq![seq!['q', 'u', 'e', 'r', 'y'], seq!['H', 'K', 'C', 'U', '\\', 'S', 'o', 'f', 't', 'w', 'a', 'r', 'e', '\\', 'M', 'i', 'c', 'r', 'o', 's', 'o', 'f', 't', '\\', 'W', 'i', 'n', 'd', 'o', 'w', 's', '\\', 'C', 'u', 'r', 'r', 'e', 'n', 't', 'V', 'e', 'r', 's', 'i', 'o', 'n', '\\', 'R', 'u', 'n'], seq!['/', 'v'], seq!['K', 'e', 'y', 'S', 'l', 'o', 'p']]);
    assert(registry_delete_args() =~= seq![seq!['d', 'e', 'l', 'e', 't', 'e'], seq!['H', 'K', 'C', 'U', '\\', 'S', 'o', 'f', 't', 'w', 'a', 'r', 'e', '\\', 'M', 'i', 'c', 'r', 'o', 's', 'o', 'f', 't', '\\', 'W', 'i', 'n', 'd', 'o', 'w', 's', '\\', 'C', 'u', 'r', 'r', 'e', 'n', 't', 'V', 'e', 'r', 's', 'i', 'o', 'n', '\\', 'R', 'u', 'n'], seq!['/', 'v'], seq!['K', 'e', 'y', 'S', 'l', 'o', 'p'], seq!['/', 'f']]);
}

/// The desktop entry spelled out: it names the application `KeySlop` and
/// runs the given executable path, as it is.
pub proof fn desktop_entry_spelled_out(exe: Seq<char>)
    ensures
        desktop_entry(exe) === seq!['[', 'D', 'e', 's', 'k', 't', 'o', 'p', ' ', 'E', 'n', 't', 'r', 'y', ']', '\n', 'T', 'y', 'p', 'e', '=', 'A', 'p', 'p', 'l', 'i', 'c', 'a', 't', 'i', 'o', 'n', '\n', 'N', 'a', 'm', 'e', '=', 'K', 'e', 'y', 'S', 'l', 'o', 'p', '\n', 'E', 'x', 'e', 'c', '='] + exe + seq!['\n', 'H', 'i', 'd', 'd', 'e', 'n', '=', 'f', 'a', 'l', 's', 'e', '\n', 'N', 'o', 'D', 'i', 's', 'p', 'l', 'a', 'y', '=', 'f', 'a', 'l', 's', 'e', '\n', 'X', '-', 'G', 'N', 'O', 'M', 'E', '-', 'A', 'u', 't', 'o', 's', 't', 'a', 'r', 't', '-', 'e', 'n', 'a', 'b', 'l', 'e', 'd', '=', 't', 'r', 'u', 'e', '\n', 'C', 'o', 'm', 'm', 'e', 'n', 't', '=', 'K', 'e', 'y', 'b', 'o', 'a', 'r', 'd', ' ', 's', 'o', 'u', 'n', 'd', 'b', 'o', 'a', 'r', 'd', ' ', 'a', 'p', 'p', 'l', 'i', 'c', 'a', 't', 'i', 'o', 'n', '\n'],
{
    reveal_strlit("[Desktop Entry]\nType=Application\nName=");
    assert("[Desktop Entry]\nType=Application\nName="@ =~= seq!['[', 'D', 'e', 's', 'k', 't', 'o', 'p', ' ', 'E', 'n', 't', 'r', 'y', ']', '\n', 'T', 'y', 'p', 'e', '=', 'A', 'p', 'p', 'l', 'i', 'c', 'a', 't', 'i', 'o', 'n', '\n', 'N', 'a', 'm', 'e', '=']);
    reveal_strlit("KeySlop");
    assert("KeySlop"@ =~= seq!['K', 'e', 'y', 'S', 'l', 'o', 'p']);
    reveal_strlit("\nExec=");
    assert("\nExec="@ =~= seq!['\n', 'E', 'x', 'e', 'c', '=']);
    reveal_strlit("\nHidden=false\nNoDisplay=false\nX-GNOME-Autostart-enabled=true\nComment=Keyboard soundboard application\n");
    assert("\nHidden=false\nNoDisplay=false\nX-GNOME-Autostart-enabled=true\nComment=Keyboard soundboard application\n"@ =~= seq!['\n', 'H', 'i', 'd', 'd', 'e', 'n', '=', 'f', 'a', 'l', 's', 'e', '\n', 'N', 'o', 'D', 'i', 's', 'p', 'l', 'a', 'y', '=', 'f', 'a', 'l', 's', 'e', '\n', 'X', '-', 'G', 'N', 'O', 'M', 'E', '-', 'A', 'u', 't', 'o', 's', 't', 'a', 'r', 't', '-', 'e', 'n', 'a', 'b', 'l', 'e', 'd', '=', 't', 'r', 'u', 'e', '\n', 'C', 'o', 'm', 'm', 'e', 'n', 't', '=', 'K', 'e', 'y', 'b', 'o', 'a', 'r', 'd', ' ', 's', 'o', 'u', 'n', 'd', 'b', 'o', 'a', 'r', 'd', ' ', 'a', 'p', 'p', 'l', 'i', 'c', 'a', 't', 'i', 'o', 'n', '\n']);
    assert(desktop_entry(exe) =~= seq!['[', 'D', 'e', 's', 'k', 't', 'o', 'p', ' ', 'E', 'n', 't', 'r', 'y', ']', '\n', 'T', 'y', 'p', 'e', '=', 'A', 'p', 'p', 'l', 'i', 'c', 'a', 't', 'i', 'o', 'n', '\n', 'N', 'a', 'm', 'e', '=', 'K', 'e', 'y', 'S', 'l', 'o', 'p', '\n', 'E', 'x', 'e', 'c', '='] + exe + seq!['\n', 'H', 'i', 'd', 'd', 'e', 'n', '=', 'f', 'a', 'l', 's', 'e', '\n', 'N', 'o', 'D', 'i', 's', 'p', 'l', 'a', 'y', '=', 'f', 'a', 'l', 's', 'e', '\n', 'X', '-', 'G', 'N', 'O', 'M', 'E', '-', 'A', 'u', 't', 'o', 's', 't', 'a', 'r', 't', '-', 'e', 'n', 'a', 'b', 'l', 'e', 'd', '=', 't', 'r', 'u', 'e', '\n', 'C', 'o', 'm', 'm', 'e', 'n', 't', '=', 'K', 'e', 'y', 'b', 'o', 'a', 'r', 'd', ' ', 's', 'o', 'u', 'n', 'd', 'b', 'o', 'a', 'r', 'd', ' ', 'a', 'p', 'p', 'l', 'i', 'c', 'a', 't', 'i', 'o', 'n', '\n']);
}

/// The error on a platform without autostart, spelled out.
pub proof fn unsupported_message_spelled_out()
    ensures
        unsupported_message() === seq!['A', 'u', 't', 'o', 's', 't', 'a', 'r', 't', ' ', 'i', 's', ' ', 'n', 'o', 't', ' ', 's', 'u', 'p', 'p', 'o', 'r', 't', 'e', 'd', ' ', 'o', 'n', ' ', 't', 'h', 'i', 's', ' ', 'p', 'l', 'a', 't', 'f', 'o', 'r', 'm'],
{
    reveal_strlit("Autostart is not supported on this platform");
    assert(unsupported_message() =~= seq!['A', 'u', 't', 'o', 's', 't', 'a', 'r', 't', ' ', 'i', 's', ' ', 'n', 'o', 't', ' ', 's', 'u', 'p', 'p', 'o', 'r', 't', 'e', 'd', ' ', 'o', 'n', ' ', 't', 'h', 'i', 's', ' ', 'p', 'l', 'a', 't', 'f', 'o', 'r', 'm']);
}

} // verus!
