use gphoto2::camera::{
    decode_event, validate_all_config, wait_event_outcome, CameraEvent, CameraFilePath,
    EVENT_TAG_CAPTURE_COMPLETE, EVENT_TAG_FILE_ADDED, EVENT_TAG_FILE_CHANGED,
    EVENT_TAG_FOLDER_ADDED, EVENT_TAG_TIMEOUT, EVENT_TAG_UNKNOWN,
};
use gphoto2::error::{
    check_config_key_status, check_status, Error, STATUS_BAD_PARAMETERS,
    STATUS_DIRECTORY_NOT_FOUND, STATUS_FILE_NOT_FOUND, STATUS_MODEL_NOT_FOUND,
    STATUS_NOT_SUPPORTED,
};
use gphoto2::widget::Widget;

fn path(folder: &str, name: &str) -> CameraFilePath {
    CameraFilePath { folder: folder.to_string(), name: name.to_string() }
}

#[test]
fn file_added_decodes_with_exact_path() {
    let e = decode_event(EVENT_TAG_FILE_ADDED, Some(path("/store_00010001", "IMG_0001.JPG")));
    match e {
        CameraEvent::NewFile(p) => {
            assert_eq!(p.folder, "/store_00010001");
            assert_eq!(p.name, "IMG_0001.JPG");
        }
        _ => panic!("expected a new-file event"),
    }
}

#[test]
fn folder_added_decodes_with_exact_path() {
    let e = decode_event(EVENT_TAG_FOLDER_ADDED, Some(path("/store_00010001", "100CANON")));
    match e {
        CameraEvent::NewFolder(p) => {
            assert_eq!(p.folder, "/store_00010001");
            assert_eq!(p.name, "100CANON");
        }
        _ => panic!("expected a new-folder event"),
    }
}

#[test]
fn file_changed_decodes_with_exact_path() {
    let e = decode_event(EVENT_TAG_FILE_CHANGED, Some(path("/d", "f.jpg")));
    match e {
        CameraEvent::FileChanged(p) => {
            assert_eq!(p.folder, "/d");
            assert_eq!(p.name, "f.jpg");
        }
        _ => panic!("expected a file-changed event"),
    }
}

#[test]
fn capture_complete_and_timeout_decode_without_payload() {
    assert!(matches!(decode_event(EVENT_TAG_CAPTURE_COMPLETE, None), CameraEvent::CaptureComplete));
    assert!(matches!(decode_event(EVENT_TAG_TIMEOUT, None), CameraEvent::Timeout));
    assert!(matches!(decode_event(EVENT_TAG_UNKNOWN, None), CameraEvent::Unknown));
}

#[test]
fn unrecognized_tag_decodes_to_unknown() {
    assert!(matches!(decode_event(17, None), CameraEvent::Unknown));
    assert!(matches!(decode_event(-3, Some(path("/d", "f"))), CameraEvent::Unknown));
    assert!(matches!(decode_event(i32::MAX, None), CameraEvent::Unknown));
}

#[test]
fn path_tag_without_payload_decodes_to_unknown() {
    assert!(matches!(decode_event(EVENT_TAG_FILE_ADDED, None), CameraEvent::Unknown));
    assert!(matches!(decode_event(EVENT_TAG_FOLDER_ADDED, None), CameraEvent::Unknown));
    assert!(matches!(decode_event(EVENT_TAG_FILE_CHANGED, None), CameraEvent::Unknown));
}

#[test]
fn timeout_poll_is_a_success_value() {
    let r = wait_event_outcome(0, String::new(), EVENT_TAG_TIMEOUT, None);
    assert!(matches!(r, Ok(CameraEvent::Timeout)));
}

#[test]
fn failed_poll_is_a_structured_error() {
    let r = wait_event_outcome(-1, "Unspecified error".to_string(), EVENT_TAG_TIMEOUT, None);
    match r {
        Err(Error::DriverError { code, message }) => {
            assert_eq!(code, -1);
            assert_eq!(message, "Unspecified error");
        }
        _ => panic!("expected a driver error"),
    }
}

#[test]
fn whole_tree_write_requires_window_root() {
    let leaf = Widget::text("artist".to_string(), "Artist".to_string(), "a".to_string());
    assert!(matches!(validate_all_config(&leaf), Err(Error::TypeMismatch)));
    let section = Widget::section("s".to_string(), "S".to_string(), vec![]);
    assert!(matches!(validate_all_config(&section), Err(Error::TypeMismatch)));
    let root = Widget::window("main".to_string(), "Main".to_string(), vec![]);
    assert!(validate_all_config(&root).is_ok());
}

#[test]
fn status_translation_covers_the_taxonomy() {
    assert!(check_status(0, String::new()).is_ok());
    assert!(check_status(42, String::new()).is_ok());
    assert!(matches!(
        check_status(STATUS_NOT_SUPPORTED, String::new()),
        Err(Error::NotSupported)
    ));
    assert!(matches!(check_status(STATUS_MODEL_NOT_FOUND, String::new()), Err(Error::NotFound)));
    assert!(matches!(
        check_status(STATUS_DIRECTORY_NOT_FOUND, String::new()),
        Err(Error::NotFound)
    ));
    assert!(matches!(check_status(STATUS_FILE_NOT_FOUND, String::new()), Err(Error::NotFound)));
    match check_status(-7, "I/O problem".to_string()) {
        Err(Error::DriverError { code, message }) => {
            assert_eq!(code, -7);
            assert_eq!(message, "I/O problem");
        }
        _ => panic!("expected a driver error"),
    }
}

#[test]
fn absent_config_key_reads_as_not_found() {
    assert!(check_config_key_status(0, String::new()).is_ok());
    assert!(matches!(
        check_config_key_status(STATUS_BAD_PARAMETERS, String::new()),
        Err(Error::NotFound)
    ));
    assert!(matches!(
        check_config_key_status(-1, "boom".to_string()),
        Err(Error::DriverError { code: -1, .. })
    ));
}
