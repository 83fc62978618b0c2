use waves_rs::errors::ConfigError;
use waves_rs::errors::ParamName;
use waves_rs::fdtd1d::FDTD1D;
use waves_rs::Config;

fn args_of(tokens: &[&str]) -> Vec<String> {
    let mut v: Vec<String> = Vec::new();
    for t in tokens {
        v.push(String::from(*t));
    }
    v
}

#[test]
fn config_new_no_sim() {
    let args: Vec<String> = vec![String::from("foo")];
    assert!(Config::new(&args).is_err());
}

#[test]
fn config_new_invalid_sim() {
    let args: Vec<String> = vec![String::from("foo"), String::from("bar")];
    assert!(Config::new(&args).is_err());
}

#[test]
fn missing_kind_is_reported() {
    assert_eq!(
        Config::new(&args_of(&["prog"])),
        Err(ConfigError::MissingSimulationKind)
    );
    assert_eq!(
        Config::new(&args_of(&[])),
        Err(ConfigError::MissingSimulationKind)
    );
}

#[test]
fn unknown_kind_is_reported() {
    assert_eq!(
        Config::new(&args_of(&["prog", "fdtd2d", "5", "60"])),
        Err(ConfigError::UnknownSimulationKind)
    );
}

#[test]
fn kind_match_is_case_insensitive() {
    let lower = Config::new(&args_of(&["prog", "fdtd1d", "5", "60"])).unwrap();
    let upper = Config::new(&args_of(&["prog", "FDTD1D", "5", "60"])).unwrap();
    let mixed = Config::new(&args_of(&["prog", "FdTd1D", "5", "60"])).unwrap();
    let expected = Config::FDTD1D(FDTD1D {
        time_steps: 5,
        nodes: 60,
    });
    assert_eq!(lower, expected);
    assert_eq!(upper, expected);
    assert_eq!(mixed, expected);
}

#[test]
fn missing_time_steps_is_reported() {
    assert_eq!(
        Config::new(&args_of(&["prog", "fdtd1d"])),
        Err(ConfigError::MissingParameter(ParamName::TimeSteps))
    );
}

#[test]
fn missing_nodes_is_reported() {
    assert_eq!(
        Config::new(&args_of(&["prog", "fdtd1d", "5"])),
        Err(ConfigError::MissingParameter(ParamName::Nodes))
    );
}

#[test]
fn malformed_numbers_are_reported() {
    assert_eq!(
        Config::new(&args_of(&["prog", "fdtd1d", "abc", "60"])),
        Err(ConfigError::InvalidNumericParameter)
    );
    assert_eq!(
        Config::new(&args_of(&["prog", "fdtd1d", "5", "abc"])),
        Err(ConfigError::InvalidNumericParameter)
    );
    assert_eq!(
        Config::new(&args_of(&["prog", "fdtd1d", "-1", "60"])),
        Err(ConfigError::InvalidNumericParameter)
    );
    assert_eq!(
        Config::new(&args_of(&["prog", "fdtd1d", "", "60"])),
        Err(ConfigError::InvalidNumericParameter)
    );
    assert_eq!(
        Config::new(&args_of(&["prog", "fdtd1d", "+", "60"])),
        Err(ConfigError::InvalidNumericParameter)
    );
    assert_eq!(
        Config::new(&args_of(&["prog", "fdtd1d", "1.5", "60"])),
        Err(ConfigError::InvalidNumericParameter)
    );
}

#[test]
fn oversized_numbers_are_reported() {
    // One past usize::MAX on a 64-bit machine.
    assert_eq!(
        Config::new(&args_of(&["prog", "fdtd1d", "18446744073709551616", "60"])),
        Err(ConfigError::InvalidNumericParameter)
    );
}

#[test]
fn plus_sign_and_trailing_tokens_are_accepted() {
    let with_plus = Config::new(&args_of(&["prog", "fdtd1d", "+5", "+60"])).unwrap();
    assert_eq!(
        with_plus,
        Config::FDTD1D(FDTD1D {
            time_steps: 5,
            nodes: 60,
        })
    );
    let with_trailing = Config::new(&args_of(&["prog", "fdtd1d", "5", "60", "extra"])).unwrap();
    assert_eq!(
        with_trailing,
        Config::FDTD1D(FDTD1D {
            time_steps: 5,
            nodes: 60,
        })
    );
}

#[test]
fn word_sized_values_are_accepted() {
    // Exactly usize::MAX on a 64-bit machine: the largest accepted value.
    let config = Config::new(&args_of(&["prog", "fdtd1d", "18446744073709551615", "60"])).unwrap();
    assert_eq!(
        config,
        Config::FDTD1D(FDTD1D {
            time_steps: usize::MAX,
            nodes: 60,
        })
    );
}

#[test]
fn leading_zeros_are_accepted() {
    let config = Config::new(&args_of(&["prog", "fdtd1d", "007", "060"])).unwrap();
    assert_eq!(
        config,
        Config::FDTD1D(FDTD1D {
            time_steps: 7,
            nodes: 60,
        })
    );
}

#[test]
fn every_error_has_a_message() {
    assert_eq!(
        ConfigError::MissingSimulationKind.message(),
        "no simulation specified"
    );
    assert_eq!(
        ConfigError::UnknownSimulationKind.message(),
        "provided task did not match any defined tasks"
    );
    assert_eq!(
        ConfigError::MissingParameter(ParamName::TimeSteps).message(),
        "number of time steps not provided"
    );
    assert_eq!(
        ConfigError::MissingParameter(ParamName::Nodes).message(),
        "number of nodes not provided"
    );
    assert_eq!(
        ConfigError::InvalidNumericParameter.message(),
        "parameter is not a valid non-negative integer"
    );
    assert_eq!(
        ConfigError::ObservationIndexOutOfRange.message(),
        "observation index lies outside the grid"
    );
    assert_eq!(
        ConfigError::EdgeAccessOutOfRange.message(),
        "field access lies outside the grid"
    );
}
