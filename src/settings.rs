//! The settings object as the host hands it over, and its typed reading.
use vstd::prelude::*;

verus! {

/// A JSON number as the settings object holds it.
pub struct RawNumber {
    /// The value, when the number is written as an integer.
    pub integer: Option<i128>,
    /// The shortest decimal text of the number read as a double.
    pub decimal: String,
}

/// A value of the settings object.
pub enum RawValue {
    Null,
    Bool(bool),
    Number(RawNumber),
    Text(String),
    Array,
    Object,
}

/// The entries of the settings object under the keys this library reads;
/// `None` where the key is absent. Other keys are ignored.
pub struct RawFields {
    pub config_file: Option<RawValue>,
    pub datasets_burst: Option<RawValue>,
    pub datasets_rate: Option<RawValue>,
    pub query_burst: Option<RawValue>,
    pub query_rate: Option<RawValue>,
    pub token: Option<RawValue>,
    pub url: Option<RawValue>,
}

/// The settings as the host hands them over: an object, or a value of
/// another shape.
pub enum RawSettings {
    Object(RawFields),
    NotAnObject,
}

/// A key of the settings object.
#[derive(Clone, Copy, Debug, PartialEq, Eq, Structural)]
pub enum SettingsField {
    ConfigFile,
    DatasetsBurst,
    DatasetsRate,
    QueryBurst,
    QueryRate,
    Token,
    Url,
}

/// Why a settings object could not be read.
#[derive(Clone, Copy, Debug, PartialEq, Eq, Structural)]
pub enum ParseError {
    /// The settings are not an object.
    NotAnObject,
    /// The field holds a value of the wrong type.
    InvalidType(SettingsField),
    /// The field holds an integer outside the range of `i32`.
    OutOfRange(SettingsField),
    /// The required field is absent.
    MissingField(SettingsField),
}

/// Settings read and checked: the token is present, every other field is
/// independently set or not. Rates are kept as their decimal text.
pub struct ResolvedSettings {
    pub token: String,
    pub url: Option<String>,
    pub query_rate: Option<String>,
    pub query_burst: Option<i32>,
    pub datasets_rate: Option<String>,
    pub datasets_burst: Option<i32>,
    pub config_file: Option<String>,
}

/// The mathematical value of `ResolvedSettings`.
pub struct SettingsView {
    pub token: Seq<char>,
    pub url: Option<Seq<char>>,
    pub query_rate: Option<Seq<char>>,
    pub query_burst: Option<i32>,
    pub datasets_rate: Option<Seq<char>>,
    pub datasets_burst: Option<i32>,
    pub config_file: Option<Seq<char>>,
}

pub open spec fn text_view(s: Option<String>) -> Option<Seq<char>> {
    match s {
        Some(t) => Some(t@),
        None => None,
    }
}

impl View for ResolvedSettings {
    type V = SettingsView;

    open spec fn view(&self) -> SettingsView {
        SettingsView {
            token: self.token@,
            url: text_view(self.url),
            query_rate: text_view(self.query_rate),
            query_burst: self.query_burst,
            datasets_rate: text_view(self.datasets_rate),
            datasets_burst: self.datasets_burst,
            config_file: text_view(self.config_file),
        }
    }
}

/// An optional text field accepts an absent key, `null` or a string.
pub open spec fn text_ok(v: Option<RawValue>) -> bool {
    match v {
        None | Some(RawValue::Null) | Some(RawValue::Text(_)) => true,
        _ => false,
    }
}

pub open spec fn text_value(v: Option<RawValue>) -> Option<Seq<char>> {
    match v {
        Some(RawValue::Text(s)) => Some(s@),
        _ => None,
    }
}

/// A rate accepts an absent key, `null` or any number.
pub open spec fn rate_ok(v: Option<RawValue>) -> bool {
    match v {
        None | Some(RawValue::Null) | Some(RawValue::Number(_)) => true,
        _ => false,
    }
}

pub open spec fn rate_value(v: Option<RawValue>) -> Option<Seq<char>> {
    match v {
        Some(RawValue::Number(n)) => Some(n.decimal@),
        _ => None,
    }
}

/// What is wrong with a burst: it takes an absent key, `null` or an integer
/// that fits in `i32`.
pub open spec fn burst_error(v: Option<RawValue>, f: SettingsField) -> Option<ParseError> {
    match v {
        None | Some(RawValue::Null) => None,
        Some(RawValue::Number(n)) => match n.integer {
            Some(i) => if i32::MIN <= i <= i32::MAX {
                None
            } else {
                Some(ParseError::OutOfRange(f))
            },
            None => Some(ParseError::InvalidType(f)),
        },
        _ => Some(ParseError::InvalidType(f)),
    }
}

pub open spec fn burst_value(v: Option<RawValue>) -> Option<i32> {
    match v {
        Some(RawValue::Number(n)) => match n.integer {
            Some(i) => Some(i as i32),
            None => None,
        },
        _ => None,
    }
}

/// The first fault of the fields, taken in the order of their keys, and
/// after them an absent token.
pub open spec fn fields_error(f: RawFields) -> Option<ParseError> {
    if !text_ok(f.config_file) {
        Some(ParseError::InvalidType(SettingsField::ConfigFile))
    } else if burst_error(f.datasets_burst, SettingsField::DatasetsBurst) is Some {
        burst_error(f.datasets_burst, SettingsField::DatasetsBurst)
    } else if !rate_ok(f.datasets_rate) {
        Some(ParseError::InvalidType(SettingsField::DatasetsRate))
    } else if burst_error(f.query_burst, SettingsField::QueryBurst) is Some {
        burst_error(f.query_burst, SettingsField::QueryBurst)
    } else if !rate_ok(f.query_rate) {
        Some(ParseError::InvalidType(SettingsField::QueryRate))
    } else if f.token is Some && !(f.token->0 is Text) {
        Some(ParseError::InvalidType(SettingsField::Token))
    } else if !text_ok(f.url) {
        Some(ParseError::InvalidType(SettingsField::Url))
    } else if f.token is None {
        Some(ParseError::MissingField(SettingsField::Token))
    } else {
        None
    }
}

/// Why the settings cannot be read, if they cannot.
pub open spec fn settings_error(raw: RawSettings) -> Option<ParseError> {
    match raw {
        RawSettings::Object(f) => fields_error(f),
        RawSettings::NotAnObject => Some(ParseError::NotAnObject),
    }
}

/// The settings read from fields that have no fault.
pub open spec fn fields_view(f: RawFields) -> SettingsView {
    SettingsView {
        token: text_value(f.token).unwrap_or(Seq::empty()),
        url: text_value(f.url),
        query_rate: rate_value(f.query_rate),
        query_burst: burst_value(f.query_burst),
        datasets_rate: rate_value(f.datasets_rate),
        datasets_burst: burst_value(f.datasets_burst),
        config_file: text_value(f.config_file),
    }
}

fn read_text(v: &Option<RawValue>, f: SettingsField) -> (r: Result<Option<String>, ParseError>)
    ensures
        match r {
            Ok(s) => text_ok(*v) && text_view(s) == text_value(*v),
            Err(e) => !text_ok(*v) && e == ParseError::InvalidType(f),
        },
{
    match v {
        None | Some(RawValue::Null) => Ok(None),
        Some(RawValue::Text(s)) => Ok(Some(s.clone())),
        _ => Err(ParseError::InvalidType(f)),
    }
}

fn read_rate(v: &Option<RawValue>, f: SettingsField) -> (r: Result<Option<String>, ParseError>)
    ensures
        match r {
            Ok(s) => rate_ok(*v) && text_view(s) == rate_value(*v),
            Err(e) => !rate_ok(*v) && e == ParseError::InvalidType(f),
        },
{
    match v {
        None | Some(RawValue::Null) => Ok(None),
        Some(RawValue::Number(n)) => Ok(Some(n.decimal.clone())),
        _ => Err(ParseError::InvalidType(f)),
    }
}

fn read_burst(v: &Option<RawValue>, f: SettingsField) -> (r: Result<Option<i32>, ParseError>)
    ensures
        match r {
            Ok(b) => burst_error(*v, f) is None && b == burst_value(*v),
            Err(e) => burst_error(*v, f) == Some(e),
        },
{
    match v {
        None | Some(RawValue::Null) => Ok(None),
        Some(RawValue::Number(n)) => match n.integer {
            Some(i) => if i32::MIN as i128 <= i && i <= i32::MAX as i128 {
                Ok(Some(i as i32))
            } else {
                Err(ParseError::OutOfRange(f))
            },
            None => Err(ParseError::InvalidType(f)),
        },
        _ => Err(ParseError::InvalidType(f)),
    }
}

/// Reads the settings object into typed settings. Fields are checked in the
/// order of their keys and the first fault is reported; an absent token is
/// reported after all of them. An empty token is accepted.
pub fn resolve_settings(raw: &RawSettings) -> (r: Result<ResolvedSettings, ParseError>)
    ensures
        match r {
            Ok(s) => settings_error(*raw) is None && raw is Object && s@ == fields_view(
                raw->Object_0,
            ),
            Err(e) => settings_error(*raw) == Some(e),
        },
{
    let f = match raw {
        RawSettings::Object(f) => f,
        RawSettings::NotAnObject => {
            return Err(ParseError::NotAnObject);
        },
    };
    let config_file = match read_text(&f.config_file, SettingsField::ConfigFile) {
        Ok(v) => v,
        Err(e) => {
            return Err(e);
        },
    };
    let datasets_burst = match read_burst(&f.datasets_burst, SettingsField::DatasetsBurst) {
        Ok(v) => v,
        Err(e) => {
            return Err(e);
        },
    };
    let datasets_rate = match read_rate(&f.datasets_rate, SettingsField::DatasetsRate) {
        Ok(v) => v,
        Err(e) => {
            return Err(e);
        },
    };
    let query_burst = match read_burst(&f.query_burst, SettingsField::QueryBurst) {
        Ok(v) => v,
        Err(e) => {
            return Err(e);
        },
    };
    let query_rate = match read_rate(&f.query_rate, SettingsField::QueryRate) {
        Ok(v) => v,
        Err(e) => {
            return Err(e);
        },
    };
    let token = match &f.token {
        None => None,
        Some(RawValue::Text(t)) => Some(t.clone()),
        Some(_) => {
            return Err(ParseError::InvalidType(SettingsField::Token));
        },
    };
    let url = match read_text(&f.url, SettingsField::Url) {
        Ok(v) => v,
        Err(e) => {
            return Err(e);
        },
    };
    match token {
        None => Err(ParseError::MissingField(SettingsField::Token)),
        Some(token) => Ok(
            ResolvedSettings {
                token,
                url,
                query_rate,
                query_burst,
                datasets_rate,
                datasets_burst,
                config_file,
            },
        ),
    }
}

/// The key of a field in the settings object.
pub open spec fn field_key(f: SettingsField) -> Seq<char> {
    match f {
        SettingsField::ConfigFile => "config_file"@,
        SettingsField::DatasetsBurst => "datasets_burst"@,
        SettingsField::DatasetsRate => "datasets_rate"@,
        SettingsField::QueryBurst => "query_burst"@,
        SettingsField::QueryRate => "query_rate"@,
        SettingsField::Token => "token"@,
        SettingsField::Url => "url"@,
    }
}

/// The diagnostic text of a parse error.
pub open spec fn parse_message(e: ParseError) -> Seq<char> {
    match e {
        ParseError::NotAnObject => "invalid type: expected an object"@,
        ParseError::InvalidType(f) => "invalid type for field `"@ + field_key(f) + "`"@,
        ParseError::OutOfRange(f) => "integer out of range for field `"@ + field_key(f) + "`"@,
        ParseError::MissingField(f) => "missing field `"@ + field_key(f) + "`"@,
    }
}

impl SettingsField {
    /// The key of this field in the settings object.
    pub fn key(&self) -> (r: &'static str)
        ensures
            r@ == field_key(*self),
    {
        match self {
            SettingsField::ConfigFile => "config_file",
            SettingsField::DatasetsBurst => "datasets_burst",
            SettingsField::DatasetsRate => "datasets_rate",
            SettingsField::QueryBurst => "query_burst",
            SettingsField::QueryRate => "query_rate",
            SettingsField::Token => "token",
            SettingsField::Url => "url",
        }
    }
}

impl ParseError {
    /// The diagnostic text of this error.
    pub fn message(&self) -> (r: String)
        ensures
            r@ == parse_message(*self),
    {
        match self {
            ParseError::NotAnObject => String::from_str("invalid type: expected an object"),
            ParseError::InvalidType(f) => String::from_str("invalid type for field `").concat(
                f.key(),
            ).concat("`"),
            ParseError::OutOfRange(f) => String::from_str(
                "integer out of range for field `",
            ).concat(f.key()).concat("`"),
            ParseError::MissingField(f) => String::from_str("missing field `").concat(
                f.key(),
            ).concat("`"),
        }
    }
}

} // verus!
