use vstd::prelude::*;
use vstd::string::*;

use crate::text::{chars_of, is_blank, is_white_space, law_trim, trim_chars};

verus! {

/// Whether `name` holds two dots in a row.
pub open spec fn has_double_dot(name: Seq<char>) -> bool {
    exists|i: int| #![trigger name[i]] 0 <= i && i + 1 < name.len() && name[i] == '.' && name[i + 1] == '.'
}

/// A file name that may name a configuration: not empty, and with no `..`,
/// `/` or `\` in it, so that it cannot lead out of the configuration folder.
pub open spec fn spec_is_valid_file_name(name: Seq<char>) -> bool {
    &&& name.len() > 0
    &&& !has_double_dot(name)
    &&& !name.contains('/')
    &&& !name.contains('\\')
}

/// Checks a configuration file name (see `spec_is_valid_file_name`).
pub fn is_valid_file_name(file_name: &str) -> (valid: bool)
    ensures
        valid == spec_is_valid_file_name(file_name@),
{
    let v = chars_of(file_name);
    let n = v.len();
    if n == 0 {
        return false;
    }
    for i in 0..n
        invariant
            n == v@.len(),
            v@ == file_name@,
            forall|j: int| 0 <= j < i ==> v@[j] != '/' && v@[j] != '\\',
            forall|j: int| #![trigger v@[j]] 0 <= j && j + 1 < n && j < i ==> !(v@[j] == '.' && v@[j + 1] == '.'),
    {
        if v[i] == '/' || v[i] == '\\' {
            assert(file_name@[i as int] == v@[i as int]);
            return false;
        }
        if i + 1 < n && v[i] == '.' && v[i + 1] == '.' {
            assert(file_name@[i as int] == '.');
            return false;
        }
    }
    true
}

/// The fields of a VPN start configuration that the Android payload reads or
/// sets.
#[derive(Debug)]
pub struct StartConfig {
    pub device_id: Option<String>,
    pub device_name: Option<String>,
    pub config_name: Option<String>,
    pub no_tun: bool,
}

/// Whether an optional text setting is missing or blank.
pub open spec fn missing_or_blank(value: Option<String>) -> bool {
    match value {
        Some(s) => trim_chars(s@).len() == 0,
        None => true,
    }
}

/// The configuration sent to the Android VPN service, before it is written as
/// JSON, with the file it came from and the name it is shown under.
#[derive(Debug)]
pub struct AndroidVpnPayload {
    pub file_name: String,
    pub config_name: String,
    pub config: StartConfig,
}

/// Why an Android VPN command could not be prepared.
#[derive(Debug, Clone, Copy, PartialEq, Eq, Structural)]
pub enum PayloadError {
    /// The file name is not a valid configuration file name.
    InvalidFileName,
    /// The configuration is not valid TOML for a start configuration.
    InvalidConfig,
    /// The app data folder, where the fallback device id is kept, could not
    /// be resolved.
    DataDirUnavailable,
    /// No device id could be obtained.
    DeviceIdUnavailable,
    /// The configuration could not be written as JSON.
    SerializeFailed,
}

/// Whether the Android service must be given a device id: the configuration
/// has none, or a blank one.
pub fn needs_device_id(config: &StartConfig) -> (needed: bool)
    ensures
        needed == missing_or_blank(config.device_id),
{
    match &config.device_id {
        Some(id) => is_blank(id.as_str()),
        None => true,
    }
}

/// The device id of a configuration after the obtained id is filled in:
/// the obtained one where its own is missing or blank, and its own otherwise.
pub open spec fn filled_device_id(own: Option<String>, obtained: String) -> Option<String> {
    if missing_or_blank(own) {
        Some(obtained)
    } else {
        own
    }
}

/// Gives the configuration the device id obtained for it, where it needs one
/// (its own is missing or blank, as `needs_device_id` tells); a configuration
/// with a device id of its own keeps it.  Nothing else changes.
pub fn fill_device_id(config: &mut StartConfig, device_id: String)
    ensures
        final(config).device_id == filled_device_id(old(config).device_id, device_id),
        final(config).device_name == old(config).device_name,
        final(config).config_name == old(config).config_name,
        final(config).no_tun == old(config).no_tun,
{
    if needs_device_id(config) {
        config.device_id = Some(device_id);
    }
}

/// The name a configuration is shown under: its own name, or the file name
/// where that is missing or blank.
pub open spec fn shown_config_name(file_name: Seq<char>, config_name: Option<String>) -> Seq<char> {
    if missing_or_blank(config_name) {
        file_name
    } else {
        config_name->0@
    }
}

/// Prepares the Android VPN command for a configuration: the file name must
/// be valid and the configuration must have been read (`None` where its TOML
/// was invalid).  The service always gets a TUN device; a blank device name
/// is dropped; the configuration is shown under its own name, or under the
/// file name where that is missing or blank.
pub fn build_android_vpn_payload(file_name: String, config: Option<StartConfig>) -> (payload: Result<AndroidVpnPayload, PayloadError>)
    ensures
        !spec_is_valid_file_name(file_name@) ==> payload == Err::<AndroidVpnPayload, PayloadError>(PayloadError::InvalidFileName),
        spec_is_valid_file_name(file_name@) && config is None ==> payload == Err::<AndroidVpnPayload, PayloadError>(PayloadError::InvalidConfig),
        spec_is_valid_file_name(file_name@) && config is Some ==> (payload matches Ok(p) && {
            let c = config->0;
            &&& p.file_name@ == file_name@
            &&& p.config.no_tun == false
            &&& p.config.device_id == c.device_id
            &&& p.config.config_name == c.config_name
            &&& p.config.device_name == (if missing_or_blank(c.device_name) { None } else { c.device_name })
            &&& p.config_name@ == shown_config_name(file_name@, c.config_name)
        }),
{
    if !is_valid_file_name(file_name.as_str()) {
        return Err(PayloadError::InvalidFileName);
    }
    let mut cfg = match config {
        Some(c) => c,
        None => {
            return Err(PayloadError::InvalidConfig);
        },
    };
    cfg.no_tun = false;
    let drop_name = match &cfg.device_name {
        Some(name) => is_blank(name.as_str()),
        None => false,
    };
    if drop_name {
        cfg.device_name = None;
    }
    let config_name = match &cfg.config_name {
        Some(name) => if is_blank(name.as_str()) {
            file_name.clone()
        } else {
            name.clone()
        },
        None => file_name.clone(),
    };
    Ok(AndroidVpnPayload { file_name, config_name, config: cfg })
}

/// A configuration sent to the service is always shown under a name that is
/// not empty.
pub proof fn law_shown_config_name_not_empty(file_name: Seq<char>, config_name: Option<String>)
    requires
        spec_is_valid_file_name(file_name),
    ensures
        shown_config_name(file_name, config_name).len() > 0,
{
}

/// On Android the service always gets a device id: once an id that is not
/// blank was filled in, the configuration has a device id and needs no
/// other, so filling again changes nothing; an id of its own is never
/// replaced.
pub proof fn law_payload_device_id(own: Option<String>, obtained: String, again: String)
    requires
        trim_chars(obtained@).len() > 0,
    ensures
        filled_device_id(own, obtained) is Some,
        !missing_or_blank(filled_device_id(own, obtained)),
        filled_device_id(filled_device_id(own, obtained), again) == filled_device_id(own, obtained),
        !missing_or_blank(own) ==> filled_device_id(own, obtained) == own,
{
}

/// A file name is valid exactly when it is not empty and holds no two dots
/// in a row, no `/` and no `\\`; any other character is allowed.
pub proof fn law_file_name_validity(name: Seq<char>)
    ensures
        spec_is_valid_file_name(name) <==> {
            &&& name.len() > 0
            &&& forall|i: int| 0 <= i < name.len() ==> #[trigger] name[i] != '/' && name[i] != '\\'
            &&& forall|i: int| 0 <= i && i + 1 < name.len() ==> !(#[trigger] name[i] == '.' && name[i + 1] == '.')
        },
{
    if spec_is_valid_file_name(name) {
        assert forall|i: int| 0 <= i < name.len() implies #[trigger] name[i] != '/' && name[i] != '\\' by {
            if name[i] == '/' || name[i] == '\\' {
                assert(name.contains(name[i]));
            }
        }
    }
}

/// A configuration whose own name has a character that is not white space
/// is shown under that name exactly as it is written, whatever its
/// characters; one without a name, or with a white-space-only name, is shown
/// under the file name.
pub proof fn law_shown_config_name(file_name: Seq<char>, config_name: Option<String>)
    ensures
        config_name matches Some(name) ==> ((exists|i: int|
            0 <= i < name@.len() && !is_white_space(#[trigger] name@[i])) ==> shown_config_name(file_name, config_name)
            == name@),
        config_name is None ==> shown_config_name(file_name, config_name) == file_name,
        config_name matches Some(name) ==> ((forall|i: int|
            0 <= i < name@.len() ==> is_white_space(#[trigger] name@[i])) ==> shown_config_name(file_name, config_name)
            == file_name),
{
    if let Some(name) = config_name {
        law_trim(name@);
    }
}

/// The message of a payload error, as the command reports it.
pub open spec fn payload_error_message(error: PayloadError) -> Seq<char> {
    match error {
        PayloadError::InvalidFileName => "Invalid file name"@,
        PayloadError::InvalidConfig => "Invalid TOML format in configuration"@,
        PayloadError::DataDirUnavailable => "failed to resolve app data directory for device_id"@,
        PayloadError::DeviceIdUnavailable => "failed to get device_id"@,
        PayloadError::SerializeFailed => "failed to serialize Android VPN configuration"@,
    }
}

/// The message that a failed command reports.
pub fn error_to_string(error: PayloadError) -> (message: String)
    ensures
        message@ == payload_error_message(error),
{
    match error {
        PayloadError::InvalidFileName => String::from_str("Invalid file name"),
        PayloadError::InvalidConfig => String::from_str("Invalid TOML format in configuration"),
        PayloadError::DataDirUnavailable => String::from_str(
            "failed to resolve app data directory for device_id",
        ),
        PayloadError::DeviceIdUnavailable => String::from_str("failed to get device_id"),
        PayloadError::SerializeFailed => String::from_str("failed to serialize Android VPN configuration"),
    }
}

} // verus!
