use garmin_run_tracker::cli::verbosity;
use garmin_run_tracker::config::{LogLevel, ParamValue, Parameter, ServiceConfig, ServiceType};
use garmin_run_tracker::services::{ElevationHandler, PlottingHandler, RouteHandler};
use garmin_run_tracker::{Config, Error};

fn parameter(key: &str, value: ParamValue, shown: &str) -> Parameter {
    Parameter { key: key.to_string(), value, shown: shown.to_string() }
}

fn sample() -> ServiceConfig {
    ServiceConfig::new(
        "mapquest".to_string(),
        vec![
            parameter("api_key", ParamValue::Text("key-123".to_string()), "String(\"k\")"),
            parameter(
                "batch_size",
                ParamValue::Number { integer: Some(50), double: 50f64.to_bits() },
                "Number(50)",
            ),
            parameter(
                "rate",
                ParamValue::Number { integer: None, double: 2.5f64.to_bits() },
                "Number(2.5)",
            ),
            parameter("flag", ParamValue::Other, "Bool(true)"),
        ],
    )
}

fn invalid(result: Option<Result<impl std::fmt::Debug, Error>>) -> String {
    match result {
        Some(Err(Error::InvalidConfigurationValue(message))) => message,
        other => panic!("unexpected {:?}", other),
    }
}

#[test]
fn handler_and_parameters() {
    let config = sample();
    assert_eq!(config.handler(), "mapquest");
    assert_eq!(config.parameters(), vec!["api_key", "batch_size", "rate", "flag"]);
    assert_eq!(config.get_parameter("flag").unwrap().shown, "Bool(true)");
    assert!(config.get_parameter("absent").is_none());
}

#[test]
fn later_parameters_shadow_earlier_ones() {
    let config = ServiceConfig::new(
        "h".to_string(),
        vec![
            parameter("a", ParamValue::Text("first".to_string()), "1"),
            parameter("a", ParamValue::Text("second".to_string()), "2"),
        ],
    );
    assert_eq!(config.get_parameter_as_string("a").unwrap().unwrap(), "second");
}

#[test]
fn parameter_as_string() {
    let config = sample();
    assert_eq!(config.get_parameter_as_string("api_key").unwrap().unwrap(), "key-123");
    assert!(config.get_parameter_as_string("absent").is_none());
    assert_eq!(
        invalid(config.get_parameter_as_string("batch_size")),
        "invalid value for mapquest.batch_size, expected a string: Number(50)"
    );
}

#[test]
fn parameter_as_integer() {
    let config = sample();
    assert_eq!(config.get_parameter_as_i64("batch_size").unwrap().unwrap(), 50);
    assert!(config.get_parameter_as_i64("absent").is_none());
    assert_eq!(
        invalid(config.get_parameter_as_i64("rate")),
        "invalid value for mapquest.rate, expected an integer: Number(2.5)"
    );
    assert_eq!(
        invalid(config.get_parameter_as_i64("api_key")),
        "invalid value for mapquest.api_key, expected an integer: String(\"k\")"
    );
}

#[test]
fn parameter_as_floating_point() {
    let config = sample();
    assert_eq!(config.get_parameter_as_f64("rate").unwrap().unwrap(), 2.5f64.to_bits());
    assert_eq!(config.get_parameter_as_f64("batch_size").unwrap().unwrap(), 50f64.to_bits());
    assert!(config.get_parameter_as_f64("absent").is_none());
    assert_eq!(
        invalid(config.get_parameter_as_f64("flag")),
        "invalid value for mapquest.flag, expected a floating point value: Bool(true)"
    );
}

#[test]
fn verbosity_from_flags() {
    assert_eq!(verbosity(0, 0, LogLevel::Info), LogLevel::Info);
    assert_eq!(verbosity(0, 0, LogLevel::Off), LogLevel::Off);
    assert_eq!(verbosity(1, 0, LogLevel::Info), LogLevel::Warn);
    assert_eq!(verbosity(2, 0, LogLevel::Info), LogLevel::Error);
    assert_eq!(verbosity(5, 3, LogLevel::Info), LogLevel::Error);
    assert_eq!(verbosity(1, 1, LogLevel::Info), LogLevel::Warn);
    assert_eq!(verbosity(0, 1, LogLevel::Info), LogLevel::Debug);
    assert_eq!(verbosity(0, 2, LogLevel::Info), LogLevel::Trace);
    assert_eq!(verbosity(-1, -1, LogLevel::Warn), LogLevel::Warn);
}

fn service(handler: &str) -> ServiceConfig {
    ServiceConfig::new(handler.to_string(), vec![])
}

fn unknown(error: Error) -> String {
    match error {
        Error::UnknownServiceHandler(message) => message,
        other => panic!("unexpected {:?}", other),
    }
}

#[test]
fn configuration_getters() {
    let config = Config::new(
        vec!["/a".to_string(), "/b".to_string()],
        vec!["/epo".to_string()],
        LogLevel::Debug,
        vec![],
    );
    assert_eq!(config.import_paths(), &vec!["/a".to_string(), "/b".to_string()]);
    assert_eq!(config.epo_data_paths(), &vec!["/epo".to_string()]);
    assert_eq!(config.log_level(), LogLevel::Debug);
    assert!(config.service(ServiceType::Elevation).is_none());
}

#[test]
fn handlers_of_a_configuration() {
    let config = Config::new(
        vec![],
        vec![],
        LogLevel::Info,
        vec![
            (ServiceType::Elevation, service("opentopodata")),
            (ServiceType::RouteVisualization, service("openmaptiles")),
            (ServiceType::DataPlotting, service("ratatui")),
        ],
    );
    assert_eq!(config.get_elevation_handler().unwrap(), ElevationHandler::OpenTopoData);
    assert_eq!(config.get_route_visualization_handler().unwrap(), RouteHandler::OpenMapTiles);
    assert_eq!(config.get_plotting_visualization_handler().unwrap(), PlottingHandler::Terminal);
    assert_eq!(config.service(ServiceType::Elevation).unwrap().handler(), "opentopodata");
}

#[test]
fn handlers_that_are_not_configured() {
    let config = Config::new(vec![], vec![], LogLevel::Info, vec![]);
    assert_eq!(
        unknown(config.get_elevation_handler().unwrap_err()),
        "no service configuration defined for elevation"
    );
    assert_eq!(
        unknown(config.get_route_visualization_handler().unwrap_err()),
        "no service configuration defined for route visualization"
    );
    assert_eq!(config.get_plotting_visualization_handler().unwrap(), PlottingHandler::Terminal);
}

#[test]
fn handlers_of_unknown_name() {
    let config = Config::new(
        vec![],
        vec![],
        LogLevel::Info,
        vec![
            (ServiceType::Elevation, service("x")),
            (ServiceType::RouteVisualization, service("y")),
            (ServiceType::DataPlotting, service("z")),
            (ServiceType::Elevation, service("mapquest")),
        ],
    );
    assert_eq!(config.get_elevation_handler().unwrap(), ElevationHandler::Mapquest);
    assert_eq!(
        unknown(config.get_route_visualization_handler().unwrap_err()),
        "no route visualization handler exists for: y"
    );
    assert_eq!(
        unknown(config.get_plotting_visualization_handler().unwrap_err()),
        "no plotting visualization handler exists for: z"
    );
}
