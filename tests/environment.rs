use trash::environment::Environment as Variables;
use trash::trash::{Environment, PlacementError, VarError};

#[test]
fn an_environment_gives_the_last_value_set() {
    let mut vars = Variables::new();
    assert_eq!(vars.get("HOME"), None);
    vars.set("HOME", "/home/alice");
    vars.set("XDG_DATA_HOME", "/xdg");
    vars.set("HOME", "/home/bob");
    assert_eq!(vars.get("HOME"), Some(String::from("/home/bob")));
    assert_eq!(vars.var("XDG_DATA_HOME"), Ok(String::from("/xdg")));
    assert_eq!(vars.var("PATH"), Err(VarError::NotPresent));
}

#[test]
fn errors_describe_themselves() {
    assert_eq!(VarError::NotPresent.message(), "environment variable not found");
    assert_eq!(
        VarError::NotUnicode.message(),
        "environment variable was not valid unicode"
    );
    assert_eq!(
        PlacementError::EnvironmentUnresolved(VarError::NotUnicode).message(),
        "environment variable was not valid unicode"
    );
    assert_eq!(PlacementError::InvalidTarget.message(), "target has no file name");
}
