use crate::text::{decimal, decimal_text, owned, texts};
use vstd::prelude::*;

verus! {

/// The directory of the application's data, as the names that lead to it
/// from the user's configuration directory. A preview build keeps its data
/// apart.
pub open spec fn data_directory(preview: bool) -> Seq<Seq<char>> {
    if preview {
        seq!["SurrealDB"@, "SurrealistPreview"@]
    } else {
        seq!["SurrealDB"@, "Surrealist"@]
    }
}

/// The name of the backup of the configuration of a version.
pub open spec fn backup_name(version: u32) -> Seq<char> {
    "config-version-"@ + decimal(version as nat) + ".json"@
}

/// The directory where the application data is stored.
pub fn get_data_directory(preview: bool) -> (path: Vec<String>)
    ensures
        texts(path@) == data_directory(preview),
{
    let mut path: Vec<String> = Vec::new();
    path.push(owned("SurrealDB"));
    if preview {
        path.push(owned("SurrealistPreview"));
    } else {
        path.push(owned("Surrealist"));
    }
    assert(texts(path@) =~= data_directory(preview));
    path
}

/// The data directory and one name under it.
fn under_data_directory(preview: bool, name: String) -> (path: Vec<String>)
    ensures
        texts(path@) == data_directory(preview).push(name@),
{
    let mut path = get_data_directory(preview);
    let ghost before = texts(path@);
    path.push(name);
    assert(texts(path@) =~= before.push(name@));
    path
}

/// The path to the configuration file.
pub fn get_config_path(preview: bool) -> (path: Vec<String>)
    ensures
        texts(path@) == data_directory(preview).push("config.json"@),
{
    under_data_directory(preview, owned("config.json"))
}

/// The path to the backup of the configuration of a version.
pub fn get_config_backup_path(preview: bool, version: u32) -> (path: Vec<String>)
    ensures
        texts(path@) == data_directory(preview).push("backups"@).push(backup_name(version)),
{
    let mut path = under_data_directory(preview, owned("backups"));
    let mut name = owned("config-version-");
    name.append(decimal_text(version as u64).as_str());
    name.append(".json");
    let ghost before = texts(path@);
    path.push(name);
    assert(texts(path@) =~= before.push(backup_name(version)));
    path
}

/// The path to the file whitelist.
pub fn get_file_whitelist_path(preview: bool) -> (path: Vec<String>)
    ensures
        texts(path@) == data_directory(preview).push("allowed_files"@),
{
    under_data_directory(preview, owned("allowed_files"))
}

/// The path to the logs directory.
pub fn get_logs_directory(preview: bool) -> (path: Vec<String>)
    ensures
        texts(path@) == data_directory(preview).push("logs"@),
{
    under_data_directory(preview, owned("logs"))
}

/// The path to the file of known SSH hosts.
pub fn get_ssh_known_hosts_path(preview: bool) -> (path: Vec<String>)
    ensures
        texts(path@) == data_directory(preview).push("ssh"@).push("known_hosts.json"@),
{
    let mut path = under_data_directory(preview, owned("ssh"));
    let ghost before = texts(path@);
    path.push(owned("known_hosts.json"));
    assert(texts(path@) =~= before.push("known_hosts.json"@));
    path
}

} // verus!
