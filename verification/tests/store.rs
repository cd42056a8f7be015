use eureka::ConfigError;
use eureka::ConfigFile;
use eureka::ConfigManagement;
use eureka::ErrorKind;
use eureka::FaultKind;
use eureka::FileHandler;
use eureka::FileManagement;
use eureka::IoFault;
use eureka::ReadOutcome;
use eureka::WriteOutcome;

fn handler() -> FileHandler {
    FileHandler::new(Some("/home/u".to_string())).unwrap()
}

fn not_found() -> IoFault {
    IoFault { kind: FaultKind::NotFound, message: "No such file or directory (os error 2)".to_string() }
}

fn denied() -> IoFault {
    IoFault { kind: FaultKind::Other, message: "Permission denied (os error 13)".to_string() }
}

/// Stands for the file system between a write and a read: the file holds
/// exactly the bytes that the write asked for.
fn write_then_read(file: ConfigFile, value: &str) -> Result<String, ConfigError> {
    let store = handler();
    let request = store.write_request(file, value.to_string());
    assert_eq!(request.path, store.config_name(file));
    assert_eq!(store.write_to_config(file, WriteOutcome::Written), Ok(()));
    store.read_from_config(file, ReadOutcome::Loaded(request.bytes))
}

#[test]
fn no_home_no_handler() {
    assert_eq!(
        FileHandler::new(None),
        Err(ConfigError {
            kind: ErrorKind::EnvironmentUnresolved,
            message: "Could not resolve your $HOME directory".to_string(),
            fatal: true,
        })
    );
}

#[test]
fn handler_keeps_the_home_it_was_given() {
    assert_eq!(handler().home_dir(), "/home/u");
    assert_eq!(FileHandler::new(Some(String::new())).unwrap().home_dir(), "");
}

#[test]
fn repo_value_round_trip() {
    let store = handler();
    let request = store.write_request(ConfigFile::Repo, "/home/u/proj".to_string());
    assert_eq!(request.path, "/home/u/.eureka/repo_path");
    assert_eq!(request.bytes, b"/home/u/proj".to_vec());
    assert_eq!(
        write_then_read(ConfigFile::Repo, "/home/u/proj"),
        Ok("/home/u/proj".to_string())
    );
}

#[test]
fn editor_value_with_newline_round_trip() {
    let store = handler();
    let request = store.write_request(ConfigFile::Editor, "/usr/bin/vim\n".to_string());
    assert_eq!(request.path, "/home/u/.eureka/editor_path");
    assert_eq!(request.bytes, b"/usr/bin/vim\n".to_vec());
    assert_eq!(
        write_then_read(ConfigFile::Editor, "/usr/bin/vim\n"),
        Ok("/usr/bin/vim".to_string())
    );
}

#[test]
fn round_trip_for_both_values() {
    for file in [ConfigFile::Repo, ConfigFile::Editor] {
        for value in ["", "x", " a b ", "é€😀", "a\nb"] {
            assert_eq!(write_then_read(file, value), Ok(value.to_string()));
        }
        for value in ["\n", "x\n", "a\n\n", "é\n"] {
            let expected = value[..value.len() - 1].to_string();
            assert_eq!(write_then_read(file, value), Ok(expected));
        }
    }
}

#[test]
fn write_adds_no_newline() {
    let request = handler().write_request(ConfigFile::Repo, "proj".to_string());
    assert_eq!(request.bytes, vec![b'p', b'r', b'o', b'j']);
}

#[test]
fn read_of_file_with_lone_newline_is_empty() {
    assert_eq!(
        handler().read_from_config(ConfigFile::Repo, ReadOutcome::Loaded(vec![b'\n'])),
        Ok(String::new())
    );
}

#[test]
fn read_of_empty_file_is_empty() {
    assert_eq!(
        handler().read_from_config(ConfigFile::Editor, ReadOutcome::Loaded(Vec::new())),
        Ok(String::new())
    );
}

#[test]
fn read_keeps_leading_and_inner_whitespace() {
    assert_eq!(
        handler().read_from_config(ConfigFile::Repo, ReadOutcome::Loaded(b" \n a  b \n".to_vec())),
        Ok(" \n a  b ".to_string())
    );
}

#[test]
fn read_of_file_never_written_is_not_found() {
    let result = handler().read_from_config(ConfigFile::Repo, ReadOutcome::OpenFailed(not_found()));
    assert_eq!(
        result,
        Err(ConfigError {
            kind: ErrorKind::NotFound,
            message: "No such file or directory (os error 2)".to_string(),
            fatal: false,
        })
    );
}

#[test]
fn read_of_file_that_cannot_be_opened_is_handed_on() {
    let result = handler().read_from_config(ConfigFile::Editor, ReadOutcome::OpenFailed(denied()));
    assert_eq!(
        result,
        Err(ConfigError {
            kind: ErrorKind::IoFailure,
            message: "Permission denied (os error 13)".to_string(),
            fatal: false,
        })
    );
}

#[test]
fn read_that_fails_after_opening_is_fatal() {
    let result = handler().read_from_config(ConfigFile::Repo, ReadOutcome::ReadFailed(denied()));
    assert_eq!(
        result,
        Err(ConfigError {
            kind: ErrorKind::IoFailure,
            message: "Unable to read file at: /home/u/.eureka/repo_path".to_string(),
            fatal: true,
        })
    );
}

#[test]
fn read_of_bytes_that_are_not_text_is_fatal() {
    let result =
        handler().read_from_config(ConfigFile::Editor, ReadOutcome::Loaded(vec![b'v', 0xFF, b'\n']));
    assert_eq!(
        result,
        Err(ConfigError {
            kind: ErrorKind::EncodingFailure,
            message: "Unable to read file at: /home/u/.eureka/editor_path".to_string(),
            fatal: true,
        })
    );
}

#[test]
fn write_that_went_through_succeeds() {
    assert_eq!(handler().write_to_config(ConfigFile::Repo, WriteOutcome::Written), Ok(()));
    assert_eq!(handler().write_to_config(ConfigFile::Editor, WriteOutcome::Written), Ok(()));
}

#[test]
fn write_to_file_that_cannot_be_created_is_fatal() {
    let result = handler().write_to_config(ConfigFile::Repo, WriteOutcome::CreateFailed(denied()));
    assert_eq!(
        result,
        Err(ConfigError {
            kind: ErrorKind::IoFailure,
            message: "Couldn't create /home/u/.eureka/repo_path: Permission denied (os error 13)"
                .to_string(),
            fatal: true,
        })
    );
}

#[test]
fn write_into_missing_directory_is_fatal_too() {
    let result =
        handler().write_to_config(ConfigFile::Editor, WriteOutcome::CreateFailed(not_found()));
    let e = result.unwrap_err();
    assert_eq!(e.kind, ErrorKind::IoFailure);
    assert!(e.fatal);
    assert_eq!(
        e.message,
        "Couldn't create /home/u/.eureka/editor_path: No such file or directory (os error 2)"
    );
}

#[test]
fn write_that_fails_after_creating_is_fatal() {
    let result = handler().write_to_config(ConfigFile::Editor, WriteOutcome::WriteFailed(denied()));
    assert_eq!(
        result,
        Err(ConfigError {
            kind: ErrorKind::IoFailure,
            message:
                "Couldn't write to /home/u/.eureka/editor_path: Permission denied (os error 13)"
                    .to_string(),
            fatal: true,
        })
    );
}

#[test]
fn directory_created_or_already_there() {
    let store = handler();
    assert_eq!(store.config_dir_create(Ok(())), Ok(()));
    assert_eq!(store.config_dir_create(Ok(())), Ok(()));
}

#[test]
fn directory_creation_fault_is_handed_on() {
    assert_eq!(
        handler().config_dir_create(Err(denied())),
        Err(ConfigError {
            kind: ErrorKind::IoFailure,
            message: "Permission denied (os error 13)".to_string(),
            fatal: false,
        })
    );
    assert_eq!(
        handler().config_dir_create(Err(not_found())).unwrap_err().kind,
        ErrorKind::NotFound
    );
}

#[test]
fn directory_exists_by_its_metadata() {
    let store = handler();
    assert!(!store.config_dir_exists(&Err(not_found())));
    assert!(store.config_dir_exists(&Ok(())));
}

#[test]
fn path_exists_by_its_metadata() {
    let store = handler();
    assert!(store.path_exists(&Ok(())));
    assert!(!store.path_exists(&Err(not_found())));
    assert!(!store.path_exists(&Err(denied())));
}

#[test]
fn remove_of_absent_repo_file_names_the_path() {
    let result = handler().rm_file(ConfigFile::Repo, Err(not_found()));
    let e = result.unwrap_err();
    assert_eq!(e.kind, ErrorKind::NotFound);
    assert!(!e.fatal);
    assert!(e.message.contains("/.eureka/repo_path"));
    assert_eq!(e.message, "Path does not exist: /home/u/.eureka/repo_path");
}

#[test]
fn remove_of_absent_editor_file_names_the_path() {
    assert_eq!(
        handler().rm_file(ConfigFile::Editor, Err(denied())),
        Err(ConfigError {
            kind: ErrorKind::NotFound,
            message: "Path does not exist: /home/u/.eureka/editor_path".to_string(),
            fatal: false,
        })
    );
}

#[test]
fn remove_of_existing_file_deletes_its_own_path() {
    let store = handler();
    assert_eq!(
        store.rm_file(ConfigFile::Repo, Ok(())),
        Ok("/home/u/.eureka/repo_path".to_string())
    );
    assert_eq!(
        store.rm_file(ConfigFile::Editor, Ok(())),
        Ok(store.config_name(ConfigFile::Editor))
    );
}

#[test]
fn deletion_fault_is_handed_on() {
    assert_eq!(
        ConfigError::propagated(denied()),
        ConfigError {
            kind: ErrorKind::IoFailure,
            message: "Permission denied (os error 13)".to_string(),
            fatal: false,
        }
    );
    assert_eq!(ConfigError::propagated(not_found()).kind, ErrorKind::NotFound);
}

#[test]
fn error_constructors_give_their_messages() {
    assert_eq!(ConfigError::missing_path("/p").message, "Path does not exist: /p");
    assert_eq!(
        ConfigError::unreadable(ErrorKind::EncodingFailure, "/p").message,
        "Unable to read file at: /p"
    );
    assert_eq!(ConfigError::create_failed("/p", "why").message, "Couldn't create /p: why");
    assert_eq!(ConfigError::write_failed("/p", "why").message, "Couldn't write to /p: why");
    assert!(ConfigError::unresolved_home().fatal);
}
