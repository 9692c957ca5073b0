//! Which browser the agent drives: the stored preference, its schema
//! version, and how a stored or requested settings file is accepted.

use vstd::prelude::*;
use crate::clock::now_timestamp;
use crate::error::{CommandError, CommandResult, user_fixable_is};
use crate::text::{cat3, decimal, decimal_string, own, trim, trim_string};

verus! {

pub const BROWSER_CONTROL_SETTINGS_SCHEMA_VERSION: u32 = 1;

#[derive(Debug, Clone, Copy, PartialEq, Eq, Structural)]
pub enum BrowserControlPreferenceDto {
    Default,
    InAppBrowser,
    NativeBrowser,
}

impl Default for BrowserControlPreferenceDto {
    fn default() -> (p: Self)
        ensures
            p == BrowserControlPreferenceDto::Default,
    {
        BrowserControlPreferenceDto::Default
    }
}

#[derive(Debug, Clone)]
pub struct BrowserControlSettingsDto {
    pub preference: BrowserControlPreferenceDto,
    pub updated_at: Option<String>,
}

#[derive(Debug, Clone, Copy)]
pub struct UpsertBrowserControlSettingsRequestDto {
    pub preference: BrowserControlPreferenceDto,
}

/// The settings as stored.
#[derive(Debug, Clone)]
pub struct BrowserControlSettingsFile {
    pub schema_version: u32,
    pub preference: BrowserControlPreferenceDto,
    pub updated_at: String,
}

/// The settings before any are stored.
pub fn default_browser_control_settings() -> (s: BrowserControlSettingsDto)
    ensures
        s.preference == BrowserControlPreferenceDto::Default,
        s.updated_at is None,
{
    BrowserControlSettingsDto { preference: BrowserControlPreferenceDto::Default, updated_at: None }
}

/// A trimmed timestamp; a blank one is replaced by the current time.
pub fn normalize_timestamp(value: String) -> (s: String)
    ensures
        trim(value@).len() > 0 ==> s@ == trim(value@),
{
    let trimmed = trim_string(value.as_str());
    if trimmed.unicode_len() == 0 {
        now_timestamp()
    } else {
        trimmed
    }
}

/// The message of a settings file of an unsupported version.
pub open spec fn version_message(v: u32) -> Seq<char> {
    "Xero rejected browser control settings version `"@ + decimal(v as nat)
        + "` because only version `1` is supported."@
}

/// Accepts a file of the supported schema version, with its timestamp
/// normalized; rejects any other version with `error_code`.
pub fn validate_browser_control_settings_file(file: BrowserControlSettingsFile, error_code: &str) -> (r:
    CommandResult<BrowserControlSettingsFile>)
    ensures
        r is Ok <==> file.schema_version == BROWSER_CONTROL_SETTINGS_SCHEMA_VERSION,
        r matches Err(e) ==> user_fixable_is(e, error_code@, version_message(file.schema_version)),
        r matches Ok(f) ==> {
            &&& f.schema_version == BROWSER_CONTROL_SETTINGS_SCHEMA_VERSION
            &&& f.preference == file.preference
            &&& trim(file.updated_at@).len() > 0 ==> f.updated_at@ == trim(file.updated_at@)
        },
{
    if file.schema_version != BROWSER_CONTROL_SETTINGS_SCHEMA_VERSION {
        let v = decimal_string(file.schema_version as u64);
        let m = cat3("Xero rejected browser control settings version `", v.as_str(), "` because only version `1` is supported.");
        return Err(CommandError::user_fixable(error_code, m.as_str()));
    }
    Ok(
        BrowserControlSettingsFile {
            schema_version: BROWSER_CONTROL_SETTINGS_SCHEMA_VERSION,
            preference: file.preference,
            updated_at: normalize_timestamp(file.updated_at),
        },
    )
}

/// The file a settings request stores: the requested preference, stamped
/// with the current time.
pub fn browser_control_settings_file_from_request(request: UpsertBrowserControlSettingsRequestDto) -> (r:
    CommandResult<BrowserControlSettingsFile>)
    ensures
        r matches Ok(f) && f.schema_version == BROWSER_CONTROL_SETTINGS_SCHEMA_VERSION
            && f.preference == request.preference,
{
    validate_browser_control_settings_file(
        BrowserControlSettingsFile {
            schema_version: BROWSER_CONTROL_SETTINGS_SCHEMA_VERSION,
            preference: request.preference,
            updated_at: now_timestamp(),
        },
        "browser_control_settings_request_invalid",
    )
}

impl BrowserControlSettingsFile {
    pub fn into_dto(self) -> (d: BrowserControlSettingsDto)
        ensures
            d.preference == self.preference,
            d.updated_at == Some(self.updated_at),
    {
        BrowserControlSettingsDto { preference: self.preference, updated_at: Some(self.updated_at) }
    }
}

} // verus!
