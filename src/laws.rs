//! Properties of the command line and of the launch outcome.
use vstd::prelude::*;
use crate::args::{
    command_line, field_flag, field_text, flag_pair, optional_at, optional_count,
    optional_pairs, optional_position, set_count,
};
use crate::launch::{launch_outcome, ConfigError};
use crate::settings::{RawSettings, SettingsField, SettingsView};

verus! {

/// Settings that lack a token never give a launch specification: they are
/// reported as malformed, whatever the working directory.
pub proof fn lemma_token_required(raw: RawSettings, working_dir: Option<Seq<char>>)
    requires
        raw is NotAnObject || raw->Object_0.token is None,
    ensures
        launch_outcome(Some(raw), working_dir) is Err,
        launch_outcome(Some(raw), working_dir)->Err_0 is Malformed,
{
}

/// Absent settings give exactly the `Missing` error.
pub proof fn lemma_missing_settings(working_dir: Option<Seq<char>>)
    ensures
        launch_outcome(None, working_dir) == Err::<crate::launch::LaunchView, ConfigError>(
            ConfigError::Missing,
        ),
{
}

/// With every optional field set, the command line is the token followed by
/// the url, the query rate and burst, the datasets rate and burst and the
/// configuration file, each after its flag, in exactly that order.
pub proof fn lemma_full_order(s: SettingsView)
    requires
        field_text(s, SettingsField::Url) is Some,
        field_text(s, SettingsField::QueryRate) is Some,
        field_text(s, SettingsField::QueryBurst) is Some,
        field_text(s, SettingsField::DatasetsRate) is Some,
        field_text(s, SettingsField::DatasetsBurst) is Some,
        field_text(s, SettingsField::ConfigFile) is Some,
    ensures
        command_line(s) == seq![
            "-token"@,
            s.token,
            "-url"@,
            field_text(s, SettingsField::Url)->0,
            "-query-rate"@,
            field_text(s, SettingsField::QueryRate)->0,
            "-query-burst"@,
            field_text(s, SettingsField::QueryBurst)->0,
            "-datasets-rate"@,
            field_text(s, SettingsField::DatasetsRate)->0,
            "-datasets-burst"@,
            field_text(s, SettingsField::DatasetsBurst)->0,
            "-config"@,
            field_text(s, SettingsField::ConfigFile)->0,
        ],
{
    reveal_with_fuel(optional_pairs, 7);
    assert(command_line(s) =~= seq![
        "-token"@,
        s.token,
        "-url"@,
        field_text(s, SettingsField::Url)->0,
        "-query-rate"@,
        field_text(s, SettingsField::QueryRate)->0,
        "-query-burst"@,
        field_text(s, SettingsField::QueryBurst)->0,
        "-datasets-rate"@,
        field_text(s, SettingsField::DatasetsRate)->0,
        "-datasets-burst"@,
        field_text(s, SettingsField::DatasetsBurst)->0,
        "-config"@,
        field_text(s, SettingsField::ConfigFile)->0,
    ]);
}

proof fn lemma_pairs_len(s: SettingsView, n: nat)
    ensures
        optional_pairs(s, n).len() == 2 * set_count(s, n),
    decreases n,
{
    if n > 0 {
        lemma_pairs_len(s, (n - 1) as nat);
    }
}

/// The command line holds the token's pair and one pair for each set
/// optional field: each unset field shortens it by two.
pub proof fn lemma_command_line_len(s: SettingsView)
    ensures
        command_line(s).len() == 2 + 2 * set_count(s, optional_count()),
{
    lemma_pairs_len(s, optional_count());
}

proof fn lemma_flags_distinct(f: SettingsField, g: SettingsField)
    requires
        f != g,
    ensures
        field_flag(f) != field_flag(g),
{
    reveal_strlit("-token");
    reveal_strlit("-url");
    reveal_strlit("-query-rate");
    reveal_strlit("-query-burst");
    reveal_strlit("-datasets-rate");
    reveal_strlit("-datasets-burst");
    reveal_strlit("-config");
    assert(field_flag(f).len() != field_flag(g).len());
}

proof fn lemma_pairs_flag_absent(s: SettingsView, n: nat, f: SettingsField)
    requires
        n <= optional_count(),
        f == SettingsField::Token || field_text(s, f) is None,
    ensures
        forall|i: int|
            0 <= i < optional_pairs(s, n).len() && i % 2 == 0 ==> optional_pairs(s, n)[i]
                != field_flag(f),
    decreases n,
{
    if n > 0 {
        let m = (n - 1) as nat;
        lemma_pairs_flag_absent(s, m, f);
        lemma_pairs_len(s, m);
        let g = optional_at(m as int);
        if field_text(s, g) is Some {
            lemma_flags_distinct(f, g);
        }
    }
}

/// An unset optional field's flag stands at no flag position of the
/// command line (the even positions); values may hold any text.
pub proof fn lemma_omitted_flag_absent(s: SettingsView, f: SettingsField)
    requires
        f != SettingsField::Token,
        field_text(s, f) is None,
    ensures
        forall|i: int|
            0 <= i < command_line(s).len() && i % 2 == 0 ==> command_line(s)[i] != field_flag(
                f,
            ),
{
    lemma_pairs_flag_absent(s, optional_count(), f);
    lemma_flags_distinct(f, SettingsField::Token);
    let p = optional_pairs(s, optional_count());
    assert forall|i: int| 0 <= i < command_line(s).len() && i % 2 == 0 implies command_line(
        s,
    )[i] != field_flag(f) by {
        if i >= 2 {
            assert(command_line(s)[i] == p[i - 2]);
        }
    }
}

proof fn lemma_pairs_agree(s: SettingsView, t: SettingsView, n: nat)
    requires
        forall|j: int| 0 <= j < n ==> field_text(s, optional_at(j)) == field_text(t, optional_at(j)),
    ensures
        optional_pairs(s, n) == optional_pairs(t, n),
        set_count(s, n) == set_count(t, n),
    decreases n,
{
    if n > 0 {
        lemma_pairs_agree(s, t, (n - 1) as nat);
    }
}

proof fn lemma_pairs_insert(s: SettingsView, t: SettingsView, k: int, n: nat)
    requires
        0 <= k < n <= optional_count(),
        field_text(s, optional_at(k)) is None,
        field_text(t, optional_at(k)) is Some,
        forall|j: int|
            0 <= j < n && j != k ==> field_text(s, optional_at(j)) == field_text(t, optional_at(j)),
    ensures
        ({
            let p = optional_pairs(s, n);
            let q: int = 2 * set_count(s, k as nat) as int;
            q <= p.len() && optional_pairs(t, n) == p.take(q) + seq![
                field_flag(optional_at(k)),
                field_text(t, optional_at(k))->0,
            ] + p.skip(q)
        }),
    decreases n,
{
    let m = (n - 1) as nat;
    let q: int = 2 * set_count(s, k as nat) as int;
    let pair = seq![field_flag(optional_at(k)), field_text(t, optional_at(k))->0];
    lemma_pairs_len(s, k as nat);
    if m == k {
        lemma_pairs_agree(s, t, m);
        let p = optional_pairs(s, m);
        assert(optional_pairs(s, n) =~= p);
        assert(optional_pairs(t, n) =~= p.take(q) + pair + p.skip(q));
    } else {
        lemma_pairs_insert(s, t, k, m);
        lemma_pairs_len(s, m);
        let a = optional_pairs(s, m);
        let g = optional_at(m as int);
        let b = flag_pair(field_flag(g), field_text(s, g));
        assert(optional_pairs(s, n) =~= a + b);
        assert(optional_pairs(t, n) =~= (a + b).take(q) + pair + (a + b).skip(q));
    }
}

/// Setting one optional field that was unset, and changing nothing else,
/// inserts its flag and value at the place given by the fields before it,
/// and moves no other argument out of order.
pub proof fn lemma_omitted_pair(s: SettingsView, t: SettingsView, f: SettingsField)
    requires
        f != SettingsField::Token,
        t.token == s.token,
        field_text(s, f) is None,
        field_text(t, f) is Some,
        forall|g: SettingsField| g != f ==> field_text(s, g) == field_text(t, g),
    ensures
        ({
            let c = command_line(s);
            let at: int = 2 + 2 * set_count(s, optional_position(f) as nat) as int;
            at <= c.len() && command_line(t) == c.take(at) + seq![
                field_flag(f),
                field_text(t, f)->0,
            ] + c.skip(at)
        }),
{
    let k = optional_position(f);
    assert(optional_at(k) == f);
    assert forall|j: int| 0 <= j < optional_count() && j != k implies field_text(
        s,
        optional_at(j),
    ) == field_text(t, optional_at(j)) by {
        assert(optional_at(j) != f);
    }
    lemma_pairs_insert(s, t, k, optional_count());
    let head = seq![field_flag(SettingsField::Token), s.token];
    let p = optional_pairs(s, optional_count());
    let q: int = 2 * set_count(s, k as nat) as int;
    let pair = seq![field_flag(f), field_text(t, f)->0];
    assert(command_line(t) =~= (head + p).take(2 + q) + pair + (head + p).skip(2 + q));
}

} // verus!
