use mozprofile::preferences::{Pref, PrefValue};
use mozprofile::prefdata::FIREFOX_PREFERENCES;
use mozprofile::profile::Profile;
use mozrunner::error::RunnerError;
use mozrunner::profile::{created, loaded, obtain, persist_required, written};
use std::path::Path;

fn failure(text: &str) -> std::io::Error {
    std::io::Error::new(std::io::ErrorKind::PermissionDenied, text.to_string())
}

#[test]
fn obtain_keeps_a_given_profile() {
    let given = Profile::new(Some(Path::new("/some/where"))).unwrap();
    let obtained = obtain(Some(given)).unwrap();
    assert_eq!(obtained.path, Path::new("/some/where"));
    assert!(obtained.temp_dir.is_none());
}

#[test]
fn obtain_creates_a_profile_where_none_is_given() {
    let first = obtain(None).unwrap();
    let second = obtain(None).unwrap();
    assert!(first.path.is_dir());
    assert!(second.path.is_dir());
    assert_ne!(first.path, second.path);
}

#[test]
fn creation_failure_is_a_profile_error() {
    match created(Err(failure("read-only"))) {
        Err(RunnerError::Profile(e)) => assert_eq!(e.to_string(), "read-only"),
        other => panic!("unexpected {:?}", other),
    }
    let profile = Profile::new(Some(Path::new("/x"))).unwrap();
    assert_eq!(created(Ok(profile)).unwrap().path, Path::new("/x"));
}

#[test]
fn write_failure_is_a_writer_error() {
    match written(Err(failure("disk full"))) {
        Err(RunnerError::PrefWriter(e)) => assert_eq!(e.to_string(), "disk full"),
        other => panic!("unexpected {:?}", other),
    }
    assert!(written(Ok(())).is_ok());
}

#[test]
fn persist_required_merges_and_writes() {
    let mut profile = Profile::new(None).unwrap();
    let dir = profile.path.clone();
    {
        let file = profile.user_prefs().unwrap();
        file.insert("focusmanager.testmode", Pref::new(false));
        file.insert("zzz.last", Pref::new(-3));
        assert!(!dir.join("user.js").exists());
        persist_required(file).unwrap();
        assert_eq!(file.prefs.len(), 18);
        assert_eq!(
            file.get("focusmanager.testmode"),
            Some(&Pref { value: PrefValue::Bool(true), sticky: false })
        );
        assert_eq!(file.get("zzz.last"), Some(&Pref::new(-3)));
        for &(key, ref pref) in FIREFOX_PREFERENCES.iter() {
            assert_eq!(file.get(key), Some(pref));
        }
    }
    assert!(dir.join("user.js").is_file());
}

#[test]
fn loaded_merges_and_writes() {
    let mut profile = Profile::new(None).unwrap();
    let dir = profile.path.clone();
    assert!(!dir.join("user.js").exists());
    loaded(profile.user_prefs()).unwrap();
    assert!(dir.join("user.js").is_file());
    assert_eq!(profile.path, dir);
    assert_eq!(profile.user_prefs().unwrap().prefs.len(), 17);
    let mut on_disk = Profile::new(Some(dir.as_path())).unwrap();
    let read = on_disk.user_prefs().unwrap();
    assert_eq!(read.prefs.len(), 17);
    for &(key, ref pref) in FIREFOX_PREFERENCES.iter() {
        assert_eq!(read.get(key), Some(pref));
    }
}

#[test]
fn loaded_twice_changes_nothing() {
    let mut profile = Profile::new(None).unwrap();
    loaded(profile.user_prefs()).unwrap();
    loaded(profile.user_prefs()).unwrap();
    assert_eq!(profile.user_prefs().unwrap().prefs.len(), 17);
}

#[test]
fn loaded_passes_on_the_failure_of_the_read() {
    let mut writer = Profile::new(None).unwrap();
    {
        let file = writer.user_prefs().unwrap();
        file.insert("broken", Pref::new("a\nb"));
        file.write().unwrap();
    }
    let mut reader = Profile::new(Some(writer.path.as_path())).unwrap();
    let outcome = reader.user_prefs().map(|_| ());
    let text = outcome.unwrap_err().to_string();
    match loaded(reader.user_prefs()) {
        Err(RunnerError::PrefReader(e)) => assert_eq!(e.to_string(), text),
        other => panic!("unexpected {:?}", other),
    }
    assert!(writer.path.join("user.js").is_file());
    let mut again = Profile::new(Some(writer.path.as_path())).unwrap();
    assert!(again.user_prefs().is_err());
}

#[test]
fn loaded_reports_a_failed_write() {
    let mut profile = Profile::new(Some(Path::new("/nonexistent/rust_mozprofile"))).unwrap();
    match loaded(profile.user_prefs()) {
        Err(RunnerError::PrefWriter(e)) => assert_eq!(e.kind(), std::io::ErrorKind::NotFound),
        other => panic!("unexpected {:?}", other),
    }
    assert_eq!(profile.user_prefs().unwrap().prefs.len(), 17);
}
