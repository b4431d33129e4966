use clipsaver::capture::clipsaver;
use clipsaver::clipboard::capture_image;
use clipsaver::clipboard::ClipboardPixels;
use clipsaver::errors::Error;
use clipsaver::paths::config_file_contents;
use clipsaver::paths::config_file_name;
use clipsaver::paths::config_file_path;
use clipsaver::paths::get_config_dir;
use clipsaver::paths::get_config_home;
use clipsaver::paths::path_join;

#[test]
fn missing_image_propagates_as_no_image_error() {
    let r = capture_image(Err(Error::NoImageOnClipboard));
    assert_eq!(r.unwrap_err(), Error::NoImageOnClipboard);
}

#[test]
fn failed_acquisition_propagates_unchanged() {
    let r = clipsaver::clipboard::image_from_acquisition(Err(Error::ClipboardUnavailable));
    assert_eq!(r.unwrap_err(), Error::ClipboardUnavailable);
}

#[test]
fn no_image_message_differs_from_write_message() {
    let no_image = Error::NoImageOnClipboard.message();
    let write = Error::WriteError.message();
    assert_ne!(no_image, write);
    assert_eq!(no_image, "the clipboard does not hold an image");
    assert_eq!(write, "the image could not be written");
}

#[test]
fn all_error_messages_are_pairwise_distinct() {
    let kinds = [
        Error::ConfigError,
        Error::PathExpansionError,
        Error::ClipboardUnavailable,
        Error::NoImageOnClipboard,
        Error::ImageValidationError,
        Error::WriteError,
    ];
    for (i, a) in kinds.iter().enumerate() {
        for (j, b) in kinds.iter().enumerate() {
            if i != j {
                assert_ne!(a.message(), b.message());
            }
        }
    }
}

#[test]
fn raw_clipboard_buffer_is_validated() {
    let raw = ClipboardPixels { width: 1, height: 2, bytes: vec![0u8; 8] };
    let img = capture_image(Ok(raw)).unwrap();
    assert_eq!(img.width, 1);
    assert_eq!(img.height, 2);
    let bad = ClipboardPixels { width: 1, height: 2, bytes: vec![0u8; 9] };
    assert_eq!(capture_image(Ok(bad)).unwrap_err(), Error::ImageValidationError);
}

#[test]
fn orchestrator_failure_names_a_pipeline_step() {
    match clipsaver(&None, &None) {
        Ok(capture) => {
            assert!(capture.path.starts_with("./Clipboard "));
            assert!(capture.path.ends_with(".png"));
        }
        Err(e) => {
            assert!(matches!(
                e,
                Error::PathExpansionError
                    | Error::ClipboardUnavailable
                    | Error::NoImageOnClipboard
                    | Error::ImageValidationError
            ));
        }
    }
}

#[test]
fn join_inserts_a_separator_only_when_needed() {
    assert_eq!(path_join("", "x.png"), "x.png");
    assert_eq!(path_join("/a", "x.png"), "/a/x.png");
    assert_eq!(path_join("/a/", "x.png"), "/a/x.png");
}

#[test]
fn config_locations_are_derived_from_the_config_home() {
    assert_eq!(get_config_home(Some(String::from("/etc/xdg")), "/cwd"), "/etc/xdg");
    assert_eq!(get_config_home(None, "/cwd"), "/cwd");
    assert_eq!(config_file_name("/home/u/.config/clipsaver"), "/home/u/.config/clipsaver/config");
    assert_eq!(
        config_file_path("/home/u/.config/clipsaver"),
        "/home/u/.config/clipsaver/config.ini"
    );
    let dir = get_config_dir("/cwd");
    assert!(dir.ends_with("/clipsaver"));
}

#[test]
fn persisted_config_record_holds_the_directory_key() {
    assert_eq!(config_file_contents("~/shots"), "directory = ~/shots");
}
