//! Preparing a profile: the preferences that the browser needs are merged
//! into the profile's user preferences and written to disk before anything
//! is started.
//!
//! Reading the user preferences from disk is the caller's part. The caller
//! hands over what the read gave, and gets back either a failure or a
//! `Prepared`, without which no runner hands out a command.

use crate::error::RunnerError;
use mozprofile::prefdata::FIREFOX_PREFERENCES;
use mozprofile::prefreader::PrefReaderError;
use mozprofile::profile::{PrefFile, Profile};
use std::path::PathBuf;
use vstd::prelude::*;

verus! {

/// `mozprofile::profile::Profile`: a profile directory with its preference
/// files.
#[verifier::external_type_specification]
#[verifier::external_body]
pub struct ExProfile(Profile);

/// `mozprofile::profile::PrefFile`: the preferences of one file of a profile.
#[verifier::external_type_specification]
#[verifier::external_body]
pub struct ExPrefFile(PrefFile);

/// The value of a preference.
pub enum PreferenceValue {
    Bool(bool),
    Text(Seq<char>),
    Int(int),
}

/// A preference: its value, and whether it is locked against the user.
pub struct Preference {
    pub value: PreferenceValue,
    pub sticky: bool,
}

/// A keyed set of preferences.
pub type Preferences = Map<Seq<char>, Preference>;

/// The directory of a profile: its field `path`.
pub uninterp spec fn profile_dir(profile: Profile) -> PathBuf;

/// The preferences that a preference file holds in memory.
pub uninterp spec fn preferences(file: PrefFile) -> Preferences;

/// A preference that is not locked.
pub open spec fn unlocked(value: PreferenceValue) -> Preference {
    Preference { value, sticky: false }
}

/// The preferences that the browser must run with, in the order in which
/// they are merged.
pub open spec fn required_preferences() -> Seq<(Seq<char>, Preference)> {
    seq![
        ("app.update.enabled"@, unlocked(PreferenceValue::Bool(false))),
        ("browser.sessionstore.resume_from_crash"@, unlocked(PreferenceValue::Bool(false))),
        ("browser.shell.checkDefaultBrowser"@, unlocked(PreferenceValue::Bool(false))),
        ("browser.tabs.warnOnClose"@, unlocked(PreferenceValue::Bool(false))),
        ("browser.warnOnQuit"@, unlocked(PreferenceValue::Bool(false))),
        ("extensions.enabledScopes"@, unlocked(PreferenceValue::Int(5))),
        ("extensions.autoDisableScopes"@, unlocked(PreferenceValue::Int(10))),
        ("extensions.getAddons.cache.enabled"@, unlocked(PreferenceValue::Bool(false))),
        ("extensions.installDistroAddons"@, unlocked(PreferenceValue::Bool(false))),
        ("extensions.showMismatchUI"@, unlocked(PreferenceValue::Bool(false))),
        ("extensions.update.enabled"@, unlocked(PreferenceValue::Bool(false))),
        ("extensions.update.notifyUser"@, unlocked(PreferenceValue::Bool(false))),
        ("focusmanager.testmode"@, unlocked(PreferenceValue::Bool(true))),
        ("geo.provider.testing"@, unlocked(PreferenceValue::Bool(true))),
        ("security.notification_enable_delay"@, unlocked(PreferenceValue::Int(0))),
        ("toolkit.startup.max_resumed_crashes"@, unlocked(PreferenceValue::Int(-1))),
        ("toolkit.telemetry.enabled"@, unlocked(PreferenceValue::Bool(false))),
    ]
}

/// `base` after the entries of `list` have been inserted one by one, in
/// their order.
pub open spec fn inserted(base: Preferences, list: Seq<(Seq<char>, Preference)>) -> Preferences
    decreases list.len(),
{
    if list.len() == 0 {
        base
    } else {
        inserted(base, list.drop_last()).insert(list.last().0, list.last().1)
    }
}

/// The preference that `list` gives to `key`: that of the last entry with
/// this key, if there is one.
pub open spec fn last_entry(list: Seq<(Seq<char>, Preference)>, key: Seq<char>) -> Option<
    Preference,
>
    decreases list.len(),
{
    if list.len() == 0 {
        None
    } else if list.last().0 == key {
        Some(list.last().1)
    } else {
        last_entry(list.drop_last(), key)
    }
}

/// `base` merged with `list`: a key that `list` names has the preference of
/// its last entry there; every other key is as in `base`.
pub open spec fn merged(base: Preferences, list: Seq<(Seq<char>, Preference)>) -> Preferences {
    Map::new(
        |key: Seq<char>| base.dom().contains(key) || last_entry(list, key) is Some,
        |key: Seq<char>|
            match last_entry(list, key) {
                Some(preference) => preference,
                None => base[key],
            },
    )
}

/// Whether `prefs` holds every required preference with its required value.
pub open spec fn has_required(prefs: Preferences) -> bool {
    forall|i: int|
        0 <= i < required_preferences().len() ==> {
            let entry = #[trigger] required_preferences()[i];
            prefs.dom().contains(entry.0) && prefs[entry.0] == entry.1
        }
}

/// Inserting the entries of a list one by one merges the list: for each key
/// the last entry wins, and keys that the list does not name stay as they
/// were.
pub proof fn lemma_inserted_is_merged(base: Preferences, list: Seq<(Seq<char>, Preference)>)
    ensures
        inserted(base, list) == merged(base, list),
    decreases list.len(),
{
    if list.len() > 0 {
        lemma_inserted_is_merged(base, list.drop_last());
    }
    assert(inserted(base, list) =~= merged(base, list));
}

/// The entry at `i` decides its key unless a later entry has the same key.
pub proof fn lemma_last_entry_at(list: Seq<(Seq<char>, Preference)>, i: int)
    requires
        0 <= i < list.len(),
        forall|j: int| i < j < list.len() ==> list[j].0 != list[i].0,
    ensures
        last_entry(list, list[i].0) == Some(list[i].1),
    decreases list.len(),
{
    if i < list.len() - 1 {
        lemma_last_entry_at(list.drop_last(), i);
    }
}

/// No two required preferences share a key.
pub proof fn lemma_required_keys_distinct()
    ensures
        required_preferences().len() == 17,
        forall|i: int, j: int|
            0 <= i < j < 17 ==> required_preferences()[i].0 != required_preferences()[j].0,
{
    reveal_strlit("app.update.enabled");
    reveal_strlit("browser.sessionstore.resume_from_crash");
    reveal_strlit("browser.shell.checkDefaultBrowser");
    reveal_strlit("browser.tabs.warnOnClose");
    reveal_strlit("browser.warnOnQuit");
    reveal_strlit("extensions.enabledScopes");
    reveal_strlit("extensions.autoDisableScopes");
    reveal_strlit("extensions.getAddons.cache.enabled");
    reveal_strlit("extensions.installDistroAddons");
    reveal_strlit("extensions.showMismatchUI");
    reveal_strlit("extensions.update.enabled");
    reveal_strlit("extensions.update.notifyUser");
    reveal_strlit("focusmanager.testmode");
    reveal_strlit("geo.provider.testing");
    reveal_strlit("security.notification_enable_delay");
    reveal_strlit("toolkit.startup.max_resumed_crashes");
    reveal_strlit("toolkit.telemetry.enabled");
    let list = required_preferences();
    assert forall|i: int, j: int| 0 <= i < j < 17 implies list[i].0 != list[j].0 by {
        // Two keys differ in their length, in their first letter or in their twelfth.
        assert(list[i].0.len() != list[j].0.len() || list[i].0[0] != list[j].0[0] || list[i].0[11]
            != list[j].0[11]);
    }
}

/// Merging the required preferences into any set leaves every one of them
/// present with its required value.
pub proof fn lemma_merged_has_required(base: Preferences)
    ensures
        has_required(merged(base, required_preferences())),
{
    lemma_required_keys_distinct();
    let list = required_preferences();
    assert forall|i: int| 0 <= i < list.len() implies {
        let entry = #[trigger] list[i];
        merged(base, list).dom().contains(entry.0) && merged(base, list)[entry.0] == entry.1
    } by {
        lemma_last_entry_at(list, i);
    }
}

/// Calls `Profile::new` without a directory, which creates a temporary
/// directory and a profile on it. Nothing is claimed of the outcome.
#[verifier::external_body]
fn create_profile() -> (created: Result<Profile, std::io::Error>) {
    Profile::new(None)
}

/// Reads the field `path` of a `Profile`: the result is the profile's
/// directory.
#[verifier::external_body]
pub(crate) fn directory(profile: &Profile) -> (dir: PathBuf)
    ensures
        dir == profile_dir(*profile),
{
    profile.path.clone()
}

/// Calls `PrefFile::insert_slice` with `FIREFOX_PREFERENCES`, which inserts
/// the entries of that list one by one, in their order, each replacing what
/// its key held before. The list is the one that `required_preferences`
/// spells out.
#[verifier::external_body]
fn insert_required(file: &mut PrefFile)
    ensures
        preferences(*final(file)) == inserted(preferences(*old(file)), required_preferences()),
{
    file.insert_slice(&FIREFOX_PREFERENCES[..]);
}

/// Calls `PrefFile::write`, which writes the preferences to the file's path.
/// Nothing is claimed of the outcome.
#[verifier::external_body]
fn write(file: &PrefFile) -> (outcome: Result<(), std::io::Error>) {
    file.write()
}

/// The profile to run on: the given one, or else a new one on a fresh
/// temporary directory.
///
/// A given profile is taken as it is and this cannot fail. Creating one may
/// fail, and then the failure is that of the configuration.
pub fn obtain(profile: Option<Profile>) -> (obtained: Result<Profile, RunnerError>)
    ensures
        profile matches Some(given) ==> obtained == Ok::<Profile, RunnerError>(given),
        obtained matches Err(e) ==> profile is None && e is Profile,
{
    match profile {
        Some(given) => Ok(given),
        None => created(create_profile()),
    }
}

/// What creating a profile amounts to: the profile, or the failure as one
/// of the configuration.
pub fn created(outcome: Result<Profile, std::io::Error>) -> (obtained: Result<
    Profile,
    RunnerError,
>)
    ensures
        obtained == match outcome {
            Ok(profile) => Ok::<Profile, RunnerError>(profile),
            Err(e) => Err(RunnerError::Profile(e)),
        },
{
    match outcome {
        Ok(profile) => Ok(profile),
        Err(e) => Err(RunnerError::Profile(e)),
    }
}

/// What writing the preferences amounts to: success, or the failure as one
/// of writing the configuration.
pub fn written(outcome: Result<(), std::io::Error>) -> (persisted: Result<(), RunnerError>)
    ensures
        persisted == match outcome {
            Ok(()) => Ok::<(), RunnerError>(()),
            Err(e) => Err(RunnerError::PrefWriter(e)),
        },
{
    match outcome {
        Ok(()) => Ok(()),
        Err(e) => Err(RunnerError::PrefWriter(e)),
    }
}

/// Merges the required preferences into `file` and writes the file.
///
/// Whether or not the write succeeds, the preferences in memory are the old
/// ones merged with the required ones: each required preference is present
/// with its required value and no other key has changed. The only failure
/// is that of the write.
pub fn persist_required(file: &mut PrefFile) -> (persisted: Result<(), RunnerError>)
    ensures
        preferences(*final(file)) == merged(preferences(*old(file)), required_preferences()),
        has_required(preferences(*final(file))),
        persisted matches Err(e) ==> e is PrefWriter,
{
    insert_required(file);
    proof {
        lemma_inserted_is_merged(preferences(*old(file)), required_preferences());
        lemma_merged_has_required(preferences(*old(file)));
    }
    written(write(file))
}

/// Proof that a preference file has been merged with the required
/// preferences and written. Only `loaded` makes one, and only after the write
/// has succeeded.
#[derive(Debug)]
pub struct Prepared {
    written: (),
}

/// Takes what loading the profile's user preferences gave, and prepares the
/// profile for a start.
///
/// Where the load failed, nothing is done and the failure is that of the
/// reader. Where it gave the preferences, the required ones are merged into
/// them and they are written: afterwards they hold every required preference
/// with its required value and no other key has changed, whether or not the
/// write succeeded, and the only failure is that of the write.
pub fn loaded(outcome: Result<&mut PrefFile, PrefReaderError>) -> (prepared: Result<
    Prepared,
    RunnerError,
>)
    ensures
        outcome matches Err(e) ==> prepared == Err::<Prepared, RunnerError>(
            RunnerError::PrefReader(e),
        ),
        outcome matches Ok(file) ==> preferences(*final(file)) == merged(
            preferences(*file),
            required_preferences(),
        ),
        outcome matches Ok(file) ==> has_required(preferences(*final(file))),
        outcome matches Ok(file) ==> (prepared matches Err(e) ==> e is PrefWriter),
{
    match outcome {
        Ok(file) => match persist_required(file) {
            Ok(()) => Ok(Prepared { written: () }),
            Err(e) => Err(e),
        },
        Err(e) => Err(RunnerError::from(e)),
    }
}

} // verus!
