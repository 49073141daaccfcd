use crate::text::text_eq;
use vstd::prelude::*;

verus! {

/// The name of the environment variable that holds the script's path.
pub const SCRIPT_FILE: &'static str = "SCRIPT_FILE";

/// The name of the environment variable that asks for a docked surface.
pub const CRISP_AS_LAYERSHELL: &'static str = "CRISP_AS_LAYERSHELL";

/// The name of the environment variable that holds the stylesheet's path.
pub const STYLESHEET: &'static str = "STYLESHEET";

/// Whether the value of `CRISP_AS_LAYERSHELL` asks for a docked surface: it
/// does where it is set to `1`.
pub open spec fn asks_for_layershell(flag: Option<Seq<char>>) -> bool {
    flag == Some("1"@)
}

/// Config-related functions.
pub struct Config;

impl Config {
    /// Puts together the script's information from what the environment
    /// holds: the value of `SCRIPT_FILE`, the value of
    /// `CRISP_AS_LAYERSHELL` where it is set, and the content of the file
    /// that `SCRIPT_FILE` names.
    ///
    /// The tuple consists of:
    /// 0 -> The relative file path.
    /// 1 -> Whether to display as a layershell or not.
    /// 2 -> The content of the file.
    pub fn get_script_information(
        script_file: String,
        layershell_flag: Option<String>,
        file_data: String,
    ) -> (information: (String, bool, String))
        ensures
            information.0 == script_file,
            information.1 == asks_for_layershell(
                match layershell_flag {
                    Some(flag) => Some(flag@),
                    None => None,
                },
            ),
            information.2 == file_data,
    {
        let layershell = match &layershell_flag {
            Some(flag) => text_eq(flag.as_str(), "1"),
            None => false,
        };
        (script_file, layershell, file_data)
    }
}

} // verus!
