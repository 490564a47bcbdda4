use leftwm_client::error::{missing_pipe_message, unopened_pipe_message, Error, SetupStep};

#[test]
fn error_for_each_step() {
    assert_eq!(
        Error::from_step(SetupStep::PlaceFile, "return-0.pipe"),
        Error::CreateFile("return-0.pipe".to_string())
    );
    assert_eq!(
        Error::from_step(SetupStep::Connect, "return-0.pipe"),
        Error::ConnectToFile("return-0.pipe".to_string())
    );
}

#[test]
fn create_file_message() {
    assert_eq!(
        Error::CreateFile("return-0.pipe".to_string()).message(),
        "Couldn't create the file: 'return-0.pipe'"
    );
}

#[test]
fn connect_to_file_message() {
    assert_eq!(
        Error::ConnectToFile("return-1.pipe".to_string()).message(),
        "Couldn't connect to file: 'return-1.pipe'"
    );
}

#[test]
fn error_keeps_the_file_name() {
    assert_eq!(Error::CreateFile("a b".to_string()).file_name(), "a b");
    assert_eq!(Error::ConnectToFile(String::new()).file_name(), "");
    assert_eq!(Error::ConnectToFile(String::new()).message(), "Couldn't connect to file: ''");
}

#[test]
fn errors_compare_by_variant_and_name() {
    assert_ne!(Error::CreateFile("x".to_string()), Error::ConnectToFile("x".to_string()));
    assert_ne!(Error::CreateFile("x".to_string()), Error::CreateFile("y".to_string()));
    let e = Error::CreateFile("x".to_string());
    assert_eq!(e.clone(), e);
}

#[test]
fn command_pipe_messages() {
    assert_eq!(missing_pipe_message("command-0.pipe"), "ERROR: Couldn't find command-0.pipe");
    assert_eq!(unopened_pipe_message("command-0.pipe"), "ERROR: Couldn't open command-0.pipe");
}
