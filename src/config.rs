//! The configuration record, and how one field of it is written.

use vstd::prelude::*;
use vstd::string::*;
use crate::error::RunError;
use crate::text::same_text;

verus! {

/// A JSON value of serde_json, held opaque: the fields of the configuration that the
/// tool does not know are carried through as they were read.
#[verifier::external_type_specification]
#[verifier::external_body]
pub struct ExValue(serde_json::Value);

/// The configuration record: the credential, the chosen location reference, and any
/// other fields the file holds, carried through untouched.
#[derive(Debug, Clone)]
pub struct ConfigFile {
    pub api_key: Option<String>,
    pub query_location: Option<String>,
    pub extra: Vec<(String, serde_json::Value)>,
}

/// The two fields of the record that the tool writes.
#[derive(Debug, Clone, Copy, PartialEq, Eq, Structural)]
pub enum ConfigField {
    ApiKey,
    QueryLocation,
}

pub open spec fn text_of(o: Option<String>) -> Option<Seq<char>> {
    match o {
        Some(s) => Some(s@),
        None => None,
    }
}

/// What a configuration record holds, as mathematical values.
pub struct ConfigView {
    pub api_key: Option<Seq<char>>,
    pub query_location: Option<Seq<char>>,
    pub extra: Seq<(String, serde_json::Value)>,
}

impl View for ConfigFile {
    type V = ConfigView;

    open spec fn view(&self) -> ConfigView {
        ConfigView {
            api_key: text_of(self.api_key),
            query_location: text_of(self.query_location),
            extra: self.extra@,
        }
    }
}

pub open spec fn view_of(config: Option<ConfigFile>) -> Option<ConfigView> {
    match config {
        Some(c) => Some(c@),
        None => None,
    }
}

/// The record after writing `value` into `field`; with no record, one that holds that
/// field alone.
pub open spec fn with_field(config: Option<ConfigView>, field: ConfigField, value: Seq<char>) -> ConfigView {
    let base = match config {
        Some(c) => c,
        None => ConfigView { api_key: None, query_location: None, extra: Seq::empty() },
    };
    match field {
        ConfigField::ApiKey => ConfigView { api_key: Some(value), ..base },
        ConfigField::QueryLocation => ConfigView { query_location: Some(value), ..base },
    }
}

/// Writes one field of the record and leaves every other field as it was; with no
/// record yet, makes one that holds that field alone.
pub fn set_field(config: Option<ConfigFile>, field: ConfigField, value: String) -> (r: ConfigFile)
    ensures
        r@ == with_field(view_of(config), field, value@),
{
    let base = match config {
        Some(c) => c,
        None => ConfigFile { api_key: None, query_location: None, extra: Vec::new() },
    };
    match field {
        ConfigField::ApiKey => ConfigFile { api_key: Some(value), ..base },
        ConfigField::QueryLocation => ConfigFile { query_location: Some(value), ..base },
    }
}

/// Writing one field never changes the other: with both fields set, storing a new
/// credential keeps the location reference, and storing a new location reference keeps
/// the credential. The unknown fields stay as they were either way.
pub proof fn lemma_set_field_keeps_others(config: ConfigView, value: Seq<char>)
    ensures
        with_field(Some(config), ConfigField::ApiKey, value).query_location == config.query_location,
        with_field(Some(config), ConfigField::QueryLocation, value).api_key == config.api_key,
        with_field(Some(config), ConfigField::ApiKey, value).extra == config.extra,
        with_field(Some(config), ConfigField::QueryLocation, value).extra == config.extra,
{
}

/// The credential a record holds, when it holds a non-empty one.
pub open spec fn credential_of(config: Option<ConfigView>) -> Result<Seq<char>, RunError> {
    match config {
        None => Err(RunError::ConfigNotFound),
        Some(c) => match c.api_key {
            Some(k) => if k.len() > 0 { Ok(k) } else { Err(RunError::MissingCredential) },
            None => Err(RunError::MissingCredential),
        },
    }
}

/// Checks that a configuration exists and holds a credential, and hands the credential
/// back.
pub fn verify_has_api_key(config: &Option<ConfigFile>) -> (r: Result<String, RunError>)
    ensures
        match r {
            Ok(k) => credential_of(view_of(*config)) == Ok::<Seq<char>, RunError>(k@),
            Err(e) => credential_of(view_of(*config)) == Err::<Seq<char>, RunError>(e),
        },
{
    match config {
        None => Err(RunError::ConfigNotFound),
        Some(c) => match &c.api_key {
            Some(k) => {
                if k.as_str().unicode_len() > 0 {
                    Ok(k.clone())
                } else {
                    Err(RunError::MissingCredential)
                }
            },
            None => Err(RunError::MissingCredential),
        },
    }
}

/// The lowercase form of a text, character by character.
pub uninterp spec fn lower_of(s: Seq<char>) -> Seq<char>;

/// Relies on `str::to_lowercase`: its result depends on the characters of `s` alone.
#[verifier::external_body]
fn lowercase(s: &str) -> (r: String)
    ensures
        r@ == lower_of(s@),
{
    s.to_lowercase()
}

/// The field that a lowercase name denotes.
pub open spec fn field_named(name: Seq<char>) -> Option<ConfigField> {
    if name == "api_key"@ {
        Some(ConfigField::ApiKey)
    } else if name == "query_location"@ {
        Some(ConfigField::QueryLocation)
    } else {
        None
    }
}

/// Looks up a field by its name, already in lowercase.
pub fn field_from_lowered(name: &str) -> (r: Option<ConfigField>)
    ensures
        r == field_named(name@),
{
    if same_text(name, "api_key") {
        Some(ConfigField::ApiKey)
    } else if same_text(name, "query_location") {
        Some(ConfigField::QueryLocation)
    } else {
        None
    }
}

/// Read-modify-write of one field named in any case (`API_KEY`, `query_location`):
/// the record with that field set and all else kept, or `UnknownField`.
pub fn update_field_in_json(config: Option<ConfigFile>, field: &str, value: &str) -> (r: Result<
    ConfigFile,
    RunError,
>)
    ensures
        match field_named(lower_of(field@)) {
            Some(f) => r matches Ok(c) && c@ == with_field(view_of(config), f, value@),
            None => r == Err::<ConfigFile, RunError>(RunError::UnknownField),
        },
{
    let lowered = lowercase(field);
    match field_from_lowered(lowered.as_str()) {
        Some(f) => Ok(set_field(config, f, String::from_str(value))),
        None => Err(RunError::UnknownField),
    }
}

} // verus!
