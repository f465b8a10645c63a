use vstd::prelude::*;
use vstd::string::*;

use crate::photos::failure;

verus! {

/// The application's settings.
pub struct AppConfig {
    pub heat_level: u8,
    pub theme: String,
}

/// The settings in force while none were saved: heat level 5, theme `HOT`.
pub open spec fn is_default_config(c: AppConfig) -> bool {
    c.heat_level == 5 && c.theme@ == "HOT"@
}

impl Default for AppConfig {
    fn default() -> (r: AppConfig)
        ensures
            is_default_config(r),
    {
        AppConfig { heat_level: 5, theme: String::from_str("HOT") }
    }
}

/// What looking for the configuration file found.
pub enum StoredConfig {
    /// There is no configuration file.
    Absent,
    /// The file exists but could not be read; the read error.
    Unreadable(String),
    /// The file was read but does not hold a configuration; the parse error.
    Malformed(String),
    /// The file holds this configuration.
    Parsed(AppConfig),
}

/// The configuration that a load answers with: the default where no file
/// exists, the stored one where it was read and parsed, and otherwise an
/// error that says which step failed.
pub fn loaded_config(stored: StoredConfig) -> (r: Result<AppConfig, String>)
    ensures
        stored is Absent ==> (r matches Ok(c) && is_default_config(c)),
        stored matches StoredConfig::Parsed(c) ==> r matches Ok(d) && d.heat_level == c.heat_level && d.theme@
            == c.theme@,
        stored matches StoredConfig::Unreadable(m) ==> r matches Err(e) && e@ == "Failed to read config: "@
            + m@,
        stored matches StoredConfig::Malformed(m) ==> r matches Err(e) && e@ == "Failed to parse config: "@
            + m@,
{
    match stored {
        StoredConfig::Absent => Ok(AppConfig::default()),
        StoredConfig::Unreadable(m) => Err(failure("Failed to read config: ", m.as_str())),
        StoredConfig::Malformed(m) => Err(failure("Failed to parse config: ", m.as_str())),
        StoredConfig::Parsed(c) => Ok(c),
    }
}

/// The answer to a save of the configuration, from what serializing it and
/// writing the file gave (a failed serialization leaves nothing to write).
pub fn saved_config(serialized: Result<(), String>, written: Result<(), String>) -> (r: Result<
    (),
    String,
>)
    ensures
        r is Ok <==> serialized is Ok && written is Ok,
        serialized matches Err(m) ==> r matches Err(e) && e@ == "Failed to serialize: "@ + m@,
        serialized is Ok ==> (written matches Err(m) ==> r matches Err(e) && e@
            == "Failed to write config: "@ + m@),
{
    match serialized {
        Err(m) => Err(failure("Failed to serialize: ", m.as_str())),
        Ok(()) => match written {
            Ok(()) => Ok(()),
            Err(m) => Err(failure("Failed to write config: ", m.as_str())),
        },
    }
}

} // verus!
