//! Integer settings kept in an INI document of the `rust-ini` crate, by
//! section and key.
use vstd::prelude::*;
use crate::decimal::decimalText;
use crate::settings_values::{i32SettingOrDefault, i32SettingText, lemma_stored_setting_reads_back, parsedI32};

verus! {

/// `ini::Ini`, an INI document, held opaquely.
#[verifier::external_type_specification]
#[verifier::external_body]
pub struct ExIni(ini::Ini);

/// The values of an INI document by section name (`None` for the general
/// section) and key: for each key, the first value in the first section of
/// that name, the one that `Ini::get_from` gives.
pub uninterp spec fn iniValues(config: ini::Ini) -> Map<(Option<Seq<char>>, Seq<char>), Seq<char>>;

/// Calls `Ini::get_from` with a named section. Trusted to give the value that
/// `iniValues` holds for the section and the key, and nothing where it holds none.
#[verifier::external_body]
fn iniGet(config: &ini::Ini, section: &str, key: &str) -> (value: Option<String>)
    ensures
        match value {
            Some(text) => iniValues(*config).contains_key((Some(section@), key@))
                && iniValues(*config)[(Some(section@), key@)] == text@,
            None => !iniValues(*config).contains_key((Some(section@), key@)),
        },
{
    config.get_from(Some(section), key).map(|text| text.to_string())
}

/// Calls `Ini::set_to` with a named section. Trusted to make `value` the value
/// of the key in that section (it replaces every value of the key there) and
/// to leave every other section and key as it was.
#[verifier::external_body]
fn iniSet(config: &mut ini::Ini, section: &str, key: &str, value: String)
    ensures
        iniValues(*final(config)) == iniValues(*old(config)).insert((Some(section@), key@), value@),
{
    config.set_to(Some(section), key.to_string(), value);
}

/// The integer that a setting with the given values reads as: the value
/// stored under the section and the key where it reads as an `i32`, else
/// `default`.
pub open spec fn settingValue(
    values: Map<(Option<Seq<char>>, Seq<char>), Seq<char>>,
    section: Seq<char>,
    key: Seq<char>,
    default: i32,
) -> i32 {
    if values.contains_key((Some(section), key)) {
        match parsedI32(values[(Some(section), key)]) {
            Some(v) => v,
            None => default,
        }
    } else {
        default
    }
}

/// Settings of the program, read from and written to an INI document.
pub struct Settings {
    config: ini::Ini,
}

impl Settings {
    /// The values of the settings by section and key.
    pub closed spec fn values(&self) -> Map<(Option<Seq<char>>, Seq<char>), Seq<char>> {
        iniValues(self.config)
    }

    /// Settings held in the INI document `config`.
    pub fn new(config: ini::Ini) -> (settings: Self)
        ensures
            settings.values() == iniValues(config),
    {
        Settings { config }
    }

    /// The INI document that holds the settings.
    pub fn config(&self) -> (config: &ini::Ini)
        ensures
            iniValues(*config) == self.values(),
    {
        &self.config
    }

    /// The integer setting under `section` and `key`, or `default` where it is
    /// missing or does not read as an `i32`.
    pub fn getI32(&self, section: &str, key: &str, default: i32) -> (value: i32)
        ensures
            value == settingValue(self.values(), section@, key@, default),
    {
        let text = iniGet(&self.config, section, key);
        match text {
            Some(text) => i32SettingOrDefault(Some(text.as_str()), default),
            None => default,
        }
    }

    /// Stores `value` as the integer setting under `section` and `key`.
    pub fn setI32(&mut self, section: &str, key: &str, value: i32)
        ensures
            final(self).values() == old(self).values().insert((Some(section@), key@), decimalText(value as int)),
    {
        iniSet(&mut self.config, section, key, i32SettingText(value));
    }
}

/// A setting reads back as the value last stored under its section and key,
/// and storing it leaves every other setting as it was.
pub proof fn lemma_setting_reads_back_what_was_set(
    values: Map<(Option<Seq<char>>, Seq<char>), Seq<char>>,
    section: Seq<char>,
    key: Seq<char>,
    value: i32,
    otherSection: Seq<char>,
    otherKey: Seq<char>,
    default: i32,
)
    ensures
        settingValue(values.insert((Some(section), key), decimalText(value as int)), section, key, default) == value,
        (otherSection, otherKey) != (section, key) ==> settingValue(
            values.insert((Some(section), key), decimalText(value as int)),
            otherSection,
            otherKey,
            default,
        ) == settingValue(values, otherSection, otherKey, default),
{
    lemma_stored_setting_reads_back(value);
    if (otherSection, otherKey) != (section, key) {
        assert((Some(otherSection), otherKey) != (Some(section), key));
    }
}

/// The setting values after the integer settings `writes` were stored in
/// order, each a section, a key and a value.
pub open spec fn afterWrites(
    values: Map<(Option<Seq<char>>, Seq<char>), Seq<char>>,
    writes: Seq<(Seq<char>, Seq<char>, i32)>,
) -> Map<(Option<Seq<char>>, Seq<char>), Seq<char>>
    decreases writes.len(),
{
    if writes.len() == 0 {
        values
    } else {
        let last = writes.last();
        afterWrites(values, writes.drop_last()).insert((Some(last.0), last.1), decimalText(last.2 as int))
    }
}

/// A setting that no write of a series touches reads after the series as it
/// did before, which is `default` where it is missing or does not read as an
/// `i32`.
pub proof fn lemma_unwritten_setting_keeps_its_value(
    values: Map<(Option<Seq<char>>, Seq<char>), Seq<char>>,
    writes: Seq<(Seq<char>, Seq<char>, i32)>,
    section: Seq<char>,
    key: Seq<char>,
    default: i32,
)
    requires
        forall|k: int| 0 <= k < writes.len() ==> !(#[trigger] writes[k].0 == section && writes[k].1 == key),
    ensures
        settingValue(afterWrites(values, writes), section, key, default) == settingValue(values, section, key, default),
        !values.contains_key((Some(section), key)) ==> settingValue(afterWrites(values, writes), section, key, default)
            == default,
    decreases writes.len(),
{
    if writes.len() > 0 {
        let before = writes.drop_last();
        let last = writes.last();
        assert(!(writes[writes.len() - 1].0 == section && writes[writes.len() - 1].1 == key));
        assert forall|k: int| 0 <= k < before.len() implies !(#[trigger] before[k].0 == section && before[k].1 == key) by {
            assert(before[k] == writes[k]);
        }
        lemma_unwritten_setting_keeps_its_value(values, before, section, key, default);
        lemma_setting_reads_back_what_was_set(afterWrites(values, before), last.0, last.1, last.2, section, key, default);
    }
}

/// After a series of stored settings, a setting reads as the value of the
/// last write to its section and key, whatever was written before or after
/// to other settings.
pub proof fn lemma_setting_reads_last_write(
    values: Map<(Option<Seq<char>>, Seq<char>), Seq<char>>,
    writes: Seq<(Seq<char>, Seq<char>, i32)>,
    j: int,
    default: i32,
)
    requires
        0 <= j < writes.len(),
        forall|k: int| j < k < writes.len() ==> !(#[trigger] writes[k].0 == writes[j].0 && writes[k].1 == writes[j].1),
    ensures
        settingValue(afterWrites(values, writes), writes[j].0, writes[j].1, default) == writes[j].2,
    decreases writes.len(),
{
    let before = writes.drop_last();
    let last = writes.last();
    let (section, key, value) = writes[j];
    if j == writes.len() - 1 {
        lemma_setting_reads_back_what_was_set(afterWrites(values, before), section, key, value, section, key, default);
    } else {
        assert(!(writes[writes.len() - 1].0 == section && writes[writes.len() - 1].1 == key));
        assert(before[j] == writes[j]);
        assert forall|k: int| j < k < before.len() implies !(#[trigger] before[k].0 == before[j].0 && before[k].1
            == before[j].1) by {
            assert(before[k] == writes[k]);
        }
        lemma_setting_reads_last_write(values, before, j, default);
        lemma_setting_reads_back_what_was_set(afterWrites(values, before), last.0, last.1, last.2, section, key, default);
    }
}

} // verus!
