use crate::paths::{backup_name, data_directory, get_config_backup_path, get_config_path};
use crate::text::{owned, text_of, texts};
use vstd::prelude::*;

verus! {

/// The JSON document that serde_json writes, indented, for the value that
/// it reads from a text; `None` where the text is no JSON document.
pub uninterp spec fn json_pretty(text: Seq<char>) -> Option<Seq<char>>;

/// Reads a text with `serde_json::from_str` as a `serde_json::Value` and
/// writes the value with `serde_json::to_string_pretty`. The contract only
/// gives the result its name.
#[verifier::external_body]
fn pretty_json(text: &str) -> (pretty: Option<String>)
    ensures
        text_of(pretty) == json_pretty(text@),
{
    match serde_json::from_str::<serde_json::Value>(text) {
        Ok(value) => match serde_json::to_string_pretty(&value) {
            Ok(pretty) => Some(pretty),
            Err(_) => None,
        },
        Err(_) => None,
    }
}

/// A file to write: where, as the names that lead to it from the user's
/// configuration directory, and what.
pub struct ConfigWrite {
    pub path: Vec<String>,
    pub content: String,
}

/// The content of a configuration file: the document indented, with a line
/// feed at its end.
pub open spec fn config_content(pretty: Option<Seq<char>>) -> Option<Seq<char>> {
    match pretty {
        Some(p) => Some(p.push('\n')),
        None => None,
    }
}

/// Ends an indented document with a line feed.
pub fn finish_config(pretty: Option<String>) -> (content: Option<String>)
    ensures
        text_of(content) == config_content(text_of(pretty)),
{
    match pretty {
        Some(p) => {
            let mut content = p;
            content.push('\n');
            Some(content)
        },
        None => None,
    }
}

/// The content of the file that keeps a configuration; `None` where the
/// configuration is no JSON document.
pub fn write_config(config: &str) -> (content: Option<String>)
    ensures
        text_of(content) == config_content(json_pretty(config@)),
{
    finish_config(pretty_json(config))
}

/// The write that saves a configuration; `None` where the configuration is
/// no JSON document.
pub fn save_config(config: &str, preview: bool) -> (write: Option<ConfigWrite>)
    ensures
        write is Some == json_pretty(config@) is Some,
        write is Some ==> texts(write->0.path@) == data_directory(preview).push("config.json"@)
            && Some(write->0.content@) == config_content(json_pretty(config@)),
{
    match write_config(config) {
        Some(content) => Some(ConfigWrite { path: get_config_path(preview), content }),
        None => None,
    }
}

/// The write that keeps a configuration as the backup of a version; `None`
/// where the configuration is no JSON document.
pub fn backup_config(config: &str, version: u32, preview: bool) -> (write: Option<ConfigWrite>)
    ensures
        write is Some == json_pretty(config@) is Some,
        write is Some ==> texts(write->0.path@) == data_directory(preview).push("backups"@).push(
            backup_name(version),
        ) && Some(write->0.content@) == config_content(json_pretty(config@)),
{
    match write_config(config) {
        Some(content) => Some(
            ConfigWrite { path: get_config_backup_path(preview, version), content },
        ),
        None => None,
    }
}

/// A configuration as loaded, and whether the default is to be written
/// because none could be read.
pub struct LoadedConfig {
    pub content: String,
    pub write_default: bool,
}

/// The configuration to use, given what reading the file gave: what was
/// read, or the empty document where nothing could be.
pub fn load_config(read: Option<String>) -> (loaded: LoadedConfig)
    ensures
        loaded.write_default == (read is None),
        loaded.content@ == match read {
            Some(c) => c@,
            None => "{}"@,
        },
{
    match read {
        Some(content) => LoadedConfig { content, write_default: false },
        None => LoadedConfig { content: owned("{}"), write_default: true },
    }
}

/// What restoring a backup comes to, given whether the backup is there and
/// whether copying it went through.
pub fn restore_config_backup(present: bool, copied: bool) -> (done: Result<(), String>)
    ensures
        done is Ok == (present && copied),
        done is Err ==> done->Err_0@ == if !present {
            "Backup does not exist"@
        } else {
            "Failed to restore config backup"@
        },
{
    if !present {
        Err(owned("Backup does not exist"))
    } else if copied {
        Ok(())
    } else {
        Err(owned("Failed to restore config backup"))
    }
}

} // verus!
