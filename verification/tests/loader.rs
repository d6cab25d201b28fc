use melos::loader::{LoadError, SongMsg};
use melos::pipeline::{assemble, Unplayable};
use melos::source::{Source, TrackLength};

#[test]
fn assemble_builds_a_pipeline_at_rest() {
    let pipeline = assemble(2, 44_100, vec![0; 88_200]).unwrap();
    assert_eq!(pipeline.channels(), 2);
    assert_eq!(pipeline.sample_rate(), 44_100);
    assert_eq!(pipeline.total_duration(), Some(TrackLength { secs: 1, nanos: 0 }));
    assert_eq!(pipeline.volume(), 100);
    assert_eq!(pipeline.current_frame_len(), None);
}

#[test]
fn assemble_refuses_a_track_without_channels() {
    assert_eq!(assemble(0, 44_100, vec![0; 4]).err(), Some(Unplayable::NoChannels));
    assert_eq!(assemble(0, 0, vec![0; 4]).err(), Some(Unplayable::NoChannels));
}

#[test]
fn assemble_refuses_a_track_without_a_rate() {
    assert_eq!(assemble(1, 0, vec![0; 4]).err(), Some(Unplayable::NoSampleRate));
}

#[test]
fn assemble_takes_an_empty_track() {
    assert!(assemble(1, 1, Vec::new()).is_ok());
}

#[test]
fn load_error_for_a_missing_file() {
    match LoadError::not_found() {
        LoadError::Io(message) => assert_eq!(message, "File not found"),
        other => panic!("unexpected error: {:?}", other),
    }
}

#[test]
fn load_error_for_a_missing_device() {
    match LoadError::no_device() {
        LoadError::Device(message) => assert_eq!(message, "Can't get endpoints list"),
        other => panic!("unexpected error: {:?}", other),
    }
}

#[test]
fn load_error_for_an_unplayable_track() {
    for (reason, words) in [
        (Unplayable::NoChannels, "Track has no channels"),
        (Unplayable::NoSampleRate, "Track has no sample rate"),
    ] {
        match LoadError::unplayable(reason) {
            LoadError::Decode(message) => assert_eq!(message, words),
            other => panic!("unexpected error: {:?}", other),
        }
    }
}

#[test]
fn load_error_message_is_what_it_was_made_with() {
    assert_eq!(LoadError::Io(String::from("denied")).message(), "denied");
    assert_eq!(LoadError::Decode(String::from("Unrecognized format")).message(), "Unrecognized format");
    assert_eq!(LoadError::Device(String::from("none")).message(), "none");
}

#[test]
fn a_load_that_went_well_reports_loaded() {
    assert!(matches!(SongMsg::from_outcome(Ok(())), SongMsg::Loaded));
}

#[test]
fn a_load_of_a_missing_file_reports_failed() {
    match SongMsg::from_outcome(Err(LoadError::not_found())) {
        SongMsg::Failed(message) => assert_eq!(message, "File not found"),
        SongMsg::Loaded => panic!("a missing file cannot be loaded"),
    }
}

#[test]
fn a_load_that_failed_reports_the_words_of_the_error() {
    match SongMsg::from_outcome(Err(LoadError::Decode(String::from("Unrecognized format")))) {
        SongMsg::Failed(message) => assert_eq!(message, "Unrecognized format"),
        SongMsg::Loaded => panic!("a failed load cannot report success"),
    }
    match SongMsg::from_outcome(Err(LoadError::no_device())) {
        SongMsg::Failed(message) => assert_eq!(message, "Can't get endpoints list"),
        SongMsg::Loaded => panic!("a failed load cannot report success"),
    }
}

#[test]
fn a_report_says_in_the_log_how_the_load_ended() {
    assert_eq!(SongMsg::Loaded.log_line(), "Song was loaded");
    assert_eq!(SongMsg::Failed(String::from("File not found")).log_line(), "File not found");
}
