//! The argument vector of the helper process.
use vstd::prelude::*;
use crate::decimal::{decimal_text, i32_text};
use crate::settings::{text_view, ResolvedSettings, SettingsField, SettingsView};

verus! {

/// The flag that introduces a field on the command line.
pub open spec fn field_flag(f: SettingsField) -> Seq<char> {
    match f {
        SettingsField::Token => "-token"@,
        SettingsField::Url => "-url"@,
        SettingsField::QueryRate => "-query-rate"@,
        SettingsField::QueryBurst => "-query-burst"@,
        SettingsField::DatasetsRate => "-datasets-rate"@,
        SettingsField::DatasetsBurst => "-datasets-burst"@,
        SettingsField::ConfigFile => "-config"@,
    }
}

/// The number of optional fields.
pub open spec fn optional_count() -> nat {
    6
}

/// The optional fields in the order in which they follow the token.
pub open spec fn optional_at(k: int) -> SettingsField {
    if k == 0 {
        SettingsField::Url
    } else if k == 1 {
        SettingsField::QueryRate
    } else if k == 2 {
        SettingsField::QueryBurst
    } else if k == 3 {
        SettingsField::DatasetsRate
    } else if k == 4 {
        SettingsField::DatasetsBurst
    } else {
        SettingsField::ConfigFile
    }
}

/// The place of an optional field in that order.
pub open spec fn optional_position(f: SettingsField) -> int {
    match f {
        SettingsField::Url => 0,
        SettingsField::QueryRate => 1,
        SettingsField::QueryBurst => 2,
        SettingsField::DatasetsRate => 3,
        SettingsField::DatasetsBurst => 4,
        _ => 5,
    }
}

pub open spec fn burst_text(b: Option<i32>) -> Option<Seq<char>> {
    match b {
        Some(n) => Some(decimal_text(n as int)),
        None => None,
    }
}

/// The text that follows an optional field's flag, if the field is set.
pub open spec fn field_text(s: SettingsView, f: SettingsField) -> Option<Seq<char>> {
    match f {
        SettingsField::Url => s.url,
        SettingsField::QueryRate => s.query_rate,
        SettingsField::QueryBurst => burst_text(s.query_burst),
        SettingsField::DatasetsRate => s.datasets_rate,
        SettingsField::DatasetsBurst => burst_text(s.datasets_burst),
        SettingsField::ConfigFile => s.config_file,
        SettingsField::Token => Some(s.token),
    }
}

/// A flag and its value, or nothing for an unset field.
pub open spec fn flag_pair(flag: Seq<char>, value: Option<Seq<char>>) -> Seq<Seq<char>> {
    match value {
        Some(v) => seq![flag, v],
        None => Seq::empty(),
    }
}

/// The pairs of the first `n` optional fields.
pub open spec fn optional_pairs(s: SettingsView, n: nat) -> Seq<Seq<char>>
    decreases n,
{
    if n == 0 {
        Seq::empty()
    } else {
        let f = optional_at(n - 1);
        optional_pairs(s, (n - 1) as nat) + flag_pair(field_flag(f), field_text(s, f))
    }
}

/// How many of the first `n` optional fields are set.
pub open spec fn set_count(s: SettingsView, n: nat) -> nat
    decreases n,
{
    if n == 0 {
        0
    } else {
        set_count(s, (n - 1) as nat) + if field_text(s, optional_at(n - 1)) is Some {
            1nat
        } else {
            0nat
        }
    }
}

/// The arguments of the helper process: the token first, then each set
/// optional field in the fixed order.
pub open spec fn command_line(s: SettingsView) -> Seq<Seq<char>> {
    seq![field_flag(SettingsField::Token), s.token] + optional_pairs(s, optional_count())
}

/// The texts of a vector of strings.
pub open spec fn texts(v: Seq<String>) -> Seq<Seq<char>> {
    v.map_values(|a: String| a@)
}

fn push_pair(args: &mut Vec<String>, flag: &str, value: Option<String>)
    ensures
        texts(final(args)@) == texts(old(args)@) + flag_pair(flag@, text_view(value)),
{
    match value {
        Some(v) => {
            args.push(String::from_str(flag));
            args.push(v);
            assert(texts(args@) =~= texts(old(args)@) + flag_pair(flag@, text_view(value)));
        },
        None => {
            assert(texts(args@) =~= texts(old(args)@) + flag_pair(flag@, text_view(value)));
        },
    }
}

fn burst_string(b: Option<i32>) -> (r: Option<String>)
    ensures
        text_view(r) == burst_text(b),
{
    match b {
        Some(n) => Some(i32_text(n)),
        None => None,
    }
}

/// The arguments of the helper process for the given settings.
pub fn command_args(s: &ResolvedSettings) -> (r: Vec<String>)
    ensures
        texts(r@) == command_line(s@),
{
    let mut args: Vec<String> = Vec::new();
    args.push(String::from_str("-token"));
    args.push(s.token.clone());
    let ghost head = seq![field_flag(SettingsField::Token), s@.token];
    assert(texts(args@) =~= head + optional_pairs(s@, 0));
    push_pair(&mut args, "-url", s.url.clone());
    assert(texts(args@) =~= head + optional_pairs(s@, 1));
    push_pair(&mut args, "-query-rate", s.query_rate.clone());
    assert(texts(args@) =~= head + optional_pairs(s@, 2));
    push_pair(&mut args, "-query-burst", burst_string(s.query_burst));
    assert(texts(args@) =~= head + optional_pairs(s@, 3));
    push_pair(&mut args, "-datasets-rate", s.datasets_rate.clone());
    assert(texts(args@) =~= head + optional_pairs(s@, 4));
    push_pair(&mut args, "-datasets-burst", burst_string(s.datasets_burst));
    assert(texts(args@) =~= head + optional_pairs(s@, 5));
    push_pair(&mut args, "-config", s.config_file.clone());
    assert(texts(args@) =~= head + optional_pairs(s@, 6));
    args
}

} // verus!
