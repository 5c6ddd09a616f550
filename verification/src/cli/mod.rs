//! The command line: the names of its commands and arguments, their
//! defaults, and what their values select.

use crate::text::same_text;
use vstd::prelude::*;

verus! {

/// The command that generates what is missing on the server.
pub const GENERATE_COMMAND: &'static str = "gen";

/// The argument that names where the URL sources come from.
pub const SOURCE_ARG: &'static str = "source";

/// Its value for sources from the server's own items; the default.
pub const SOURCE_ARG_DEFAULT_VALUE: &'static str = "zabbix";

/// Its value for sources from a text file.
pub const SOURCE_ARG_FILE_VALUE: &'static str = "file";

/// The argument that names the file of URL sources.
pub const FILE_ARG: &'static str = "file";

/// The file of URL sources, where none is named.
pub const FILE_ARG_DEFAULT_VALUE: &'static str = "urls.txt";

pub const FILE_SHORT_ARG: &'static str = "f";

pub const SOURCE_SHORT_ARG: &'static str = "s";

/// The argument that gives the mask by which items are searched.
pub const ITEM_KEY_SEARCH_MASK_ARG: &'static str = "item-key-starts-with";

/// The mask, where none is given.
pub const ITEM_KEY_SEARCH_MASK_DEFAULT_VALUE: &'static str = "nginx.vhost.item";

/// The argument that names the working directory.
pub const WORK_DIR_ARG: &'static str = "work-dir";

pub const WORK_DIR_SHORT_ARG: &'static str = "d";

/// The working directory, where none is named.
pub const WORK_DIR_DEFAULT_VALUE: &'static str = ".";

/// The argument that names the log level.
pub const LOG_LEVEL_ARG: &'static str = "log-level";

/// The log level, where none is named.
pub const LOG_LEVEL_DEFAULT_VALUE: &'static str = "info";

/// The name of the configuration file.
pub const CONFIG_FILE_NAME: &'static str = "wszl.yml";

/// Where the URL sources come from.
#[derive(Clone, Copy, Debug)]
pub enum UrlSourceType {
    /// From the server's own items.
    Zabbix,
    /// From a text file.
    File,
}

/// What a value of the source argument selects: `zabbix` the server, `file`
/// the text file, anything else nothing.
pub open spec fn source_type_named(value: Seq<char>) -> Option<UrlSourceType> {
    if value == SOURCE_ARG_DEFAULT_VALUE@ {
        Some(UrlSourceType::Zabbix)
    } else if value == SOURCE_ARG_FILE_VALUE@ {
        Some(UrlSourceType::File)
    } else {
        None
    }
}

/// Reads what a value of the source argument selects.
pub fn url_source_type(value: &str) -> (out: Option<UrlSourceType>)
    ensures
        out == source_type_named(value@),
{
    if same_text(value, SOURCE_ARG_DEFAULT_VALUE) {
        Some(UrlSourceType::Zabbix)
    } else if same_text(value, SOURCE_ARG_FILE_VALUE) {
        Some(UrlSourceType::File)
    } else {
        None
    }
}

/// The value of an argument: what was given, or else the default.
pub fn argument_or_default<'a>(given: Option<&'a String>, default_value: &'a str) -> (value: &'a str)
    ensures
        value@ == match given {
            Some(text) => text@,
            None => default_value@,
        },
{
    match given {
        Some(text) => text.as_str(),
        None => default_value,
    }
}

} // verus!
