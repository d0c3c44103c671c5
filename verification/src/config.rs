//! Configuration of the services that the application talks to.
//!
//! A service is configured by the name of its handler and a list of named
//! parameters. Each service type reads the parameters it knows through an
//! explicit mapping from key to typed setting; see the service types.

use crate::error::Error;
use crate::services::{
    new_elevation_handler, new_plotting_visualization_handler, new_route_visualization_handler,
    elevation_handler_named, plotting_handler_named, route_handler_named, ElevationHandler,
    PlottingHandler, RouteHandler,
};
use vstd::prelude::*;
use vstd::string::*;

verus! {

/// The service roles that a configuration can fill.
#[derive(Clone, Copy, Debug, Hash, PartialEq, Eq, PartialOrd, Ord, Structural)]
pub enum ServiceType {
    DataPlotting,
    Elevation,
    RouteVisualization,
}

/// The value of one configuration parameter.
///
/// A number keeps both of its readings: the integer it is, if it is one
/// that fits 64 bits with sign, and the bit pattern of the double
/// precision number nearest to it.
#[derive(Clone, Debug, PartialEq, Eq)]
pub enum ParamValue {
    Text(String),
    Number { integer: Option<i64>, double: u64 },
    /// Anything else: null, a boolean, a list, a mapping.
    Other,
}

/// Mathematical model of a `ParamValue`.
pub enum ParamValueView {
    Text(Seq<char>),
    Number { integer: Option<i64>, double: u64 },
    Other,
}

impl View for ParamValue {
    type V = ParamValueView;

    open spec fn view(&self) -> ParamValueView {
        match self {
            ParamValue::Text(text) => ParamValueView::Text(text@),
            ParamValue::Number { integer, double } => ParamValueView::Number {
                integer: *integer,
                double: *double,
            },
            ParamValue::Other => ParamValueView::Other,
        }
    }
}

/// One named parameter, with the text that shows its value in messages.
#[derive(Clone, Debug, PartialEq, Eq)]
pub struct Parameter {
    pub key: String,
    pub value: ParamValue,
    pub shown: String,
}

/// Mathematical model of a `Parameter`.
pub struct ParameterView {
    pub key: Seq<char>,
    pub value: ParamValueView,
    pub shown: Seq<char>,
}

impl View for Parameter {
    type V = ParameterView;

    open spec fn view(&self) -> ParameterView {
        ParameterView { key: self.key@, value: self.value@, shown: self.shown@ }
    }
}

/// The models of a list of parameters.
pub open spec fn parameter_views(parameters: Seq<Parameter>) -> Seq<ParameterView> {
    Seq::new(parameters.len(), |i: int| parameters[i]@)
}

/// The parameter that a lookup by key finds: the last one with that key.
pub open spec fn find_parameter(parameters: Seq<ParameterView>, key: Seq<char>) -> Option<
    ParameterView,
>
    decreases parameters.len(),
{
    if parameters.len() == 0 {
        None
    } else if parameters.last().key == key {
        Some(parameters.last())
    } else {
        find_parameter(parameters.drop_last(), key)
    }
}

/// Configuration of a single service of any type.
#[derive(Clone, Debug, PartialEq, Eq)]
pub struct ServiceConfig {
    handler: String,
    configuration: Vec<Parameter>,
}

/// Mathematical model of a `ServiceConfig`.
pub struct ServiceConfigView {
    pub handler: Seq<char>,
    pub configuration: Seq<ParameterView>,
}

impl View for ServiceConfig {
    type V = ServiceConfigView;

    closed spec fn view(&self) -> ServiceConfigView {
        ServiceConfigView {
            handler: self.handler@,
            configuration: parameter_views(self.configuration@),
        }
    }
}

/// The message for a parameter whose value has the wrong type.
pub open spec fn invalid_value_message(
    handler: Seq<char>,
    key: Seq<char>,
    expected: Seq<char>,
    shown: Seq<char>,
) -> Seq<char> {
    "invalid value for "@ + handler + "."@ + key + ", expected "@ + expected + ": "@ + shown
}

/// A setting read as text: absent, the text, or the message that says why
/// it is no text.
pub open spec fn text_setting(config: ServiceConfigView, key: Seq<char>) -> Option<
    Result<Seq<char>, Seq<char>>,
> {
    match find_parameter(config.configuration, key) {
        None => None,
        Some(parameter) => Some(
            match parameter.value {
                ParamValueView::Text(text) => Ok(text),
                _ => Err(
                    invalid_value_message(config.handler, key, "a string"@, parameter.shown),
                ),
            },
        ),
    }
}

/// A setting read as an integer: absent, the integer, or the message that
/// says why it is none.
pub open spec fn integer_setting(config: ServiceConfigView, key: Seq<char>) -> Option<
    Result<i64, Seq<char>>,
> {
    match find_parameter(config.configuration, key) {
        None => None,
        Some(parameter) => Some(
            match parameter.value {
                ParamValueView::Number { integer: Some(number), .. } => Ok(number),
                _ => Err(
                    invalid_value_message(config.handler, key, "an integer"@, parameter.shown),
                ),
            },
        ),
    }
}

/// A setting read as a floating point number, by its bit pattern: absent,
/// the number, or the message that says why it is none.
pub open spec fn double_setting(config: ServiceConfigView, key: Seq<char>) -> Option<
    Result<u64, Seq<char>>,
> {
    match find_parameter(config.configuration, key) {
        None => None,
        Some(parameter) => Some(
            match parameter.value {
                ParamValueView::Number { double, .. } => Ok(double),
                _ => Err(
                    invalid_value_message(
                        config.handler,
                        key,
                        "a floating point value"@,
                        parameter.shown,
                    ),
                ),
            },
        ),
    }
}

/// Whether a reading is the one that the model prescribes.
pub open spec fn reads_text(
    result: Option<Result<String, Error>>,
    expected: Option<Result<Seq<char>, Seq<char>>>,
) -> bool {
    match expected {
        None => result is None,
        Some(Ok(text)) => result matches Some(Ok(found)) && found@ == text,
        Some(Err(message)) => result matches Some(Err(Error::InvalidConfigurationValue(found)))
            && found@ == message,
    }
}

/// Whether a reading is the one that the model prescribes.
pub open spec fn reads_number<T>(
    result: Option<Result<T, Error>>,
    expected: Option<Result<T, Seq<char>>>,
) -> bool {
    match expected {
        None => result is None,
        Some(Ok(number)) => result matches Some(Ok(found)) && found == number,
        Some(Err(message)) => result matches Some(Err(Error::InvalidConfigurationValue(found)))
            && found@ == message,
    }
}

impl ServiceConfig {
    /// A configuration from the handler's name and its parameters.
    pub fn new(handler: String, configuration: Vec<Parameter>) -> (r: Self)
        ensures
            r@ == (ServiceConfigView {
                handler: handler@,
                configuration: parameter_views(configuration@),
            }),
    {
        ServiceConfig { handler, configuration }
    }

    /// The name of the handler that serves this configuration.
    pub fn handler(&self) -> (r: &str)
        ensures
            r@ == self@.handler,
    {
        self.handler.as_str()
    }

    /// The keys of all parameters, in stored order.
    pub fn parameters(&self) -> (keys: Vec<&String>)
        ensures
            keys@.len() == self@.configuration.len(),
            forall|i: int|
                0 <= i < keys@.len() ==> (#[trigger] keys@[i])@ == self@.configuration[i].key,
    {
        let mut keys: Vec<&String> = Vec::new();
        let mut i: usize = 0;
        while i < self.configuration.len()
            invariant
                0 <= i <= self.configuration.len(),
                keys@.len() == i,
                forall|k: int|
                    0 <= k < i ==> (#[trigger] keys@[k])@ == self@.configuration[k].key,
            decreases self.configuration.len() - i,
        {
            keys.push(&self.configuration[i].key);
            i = i + 1;
        }
        keys
    }

    /// Looks a parameter up by key.
    pub fn get_parameter(&self, key: &str) -> (r: Option<&Parameter>)
        ensures
            match r {
                Some(parameter) => find_parameter(self@.configuration, key@) == Some(
                    parameter@,
                ),
                None => find_parameter(self@.configuration, key@) is None,
            },
    {
        let mut i: usize = self.configuration.len();
        assert(self@.configuration.take(i as int) =~= self@.configuration);
        while i > 0
            invariant
                0 <= i <= self.configuration.len(),
                find_parameter(self@.configuration, key@) == find_parameter(
                    self@.configuration.take(i as int),
                    key@,
                ),
            decreases i,
        {
            let parameter = &self.configuration[i - 1];
            proof {
                let prefix = self@.configuration.take(i as int);
                assert(prefix.last() == parameter@);
                assert(prefix.drop_last() =~= self@.configuration.take(i - 1));
            }
            if parameter.key.as_str().eq(key) {
                return Some(parameter);
            }
            i = i - 1;
        }
        None
    }

    fn invalid_value(&self, key: &str, expected: &str, parameter: &Parameter) -> (r: Error)
        ensures
            r matches Error::InvalidConfigurationValue(message) && message@
                == invalid_value_message(self@.handler, key@, expected@, parameter@.shown),
    {
        let mut message = String::from_str("invalid value for ");
        message.append(self.handler.as_str());
        message.append(".");
        message.append(key);
        message.append(", expected ");
        message.append(expected);
        message.append(": ");
        message.append(parameter.shown.as_str());
        Error::InvalidConfigurationValue(message)
    }

    /// Reads a parameter as text. `None` if there is no such parameter, an
    /// `InvalidConfigurationValue` if its value is no text.
    pub fn get_parameter_as_string(&self, key: &str) -> (r: Option<Result<String, Error>>)
        ensures
            reads_text(r, text_setting(self@, key@)),
    {
        match self.get_parameter(key) {
            None => None,
            Some(parameter) => Some(
                match &parameter.value {
                    ParamValue::Text(text) => Ok(text.clone()),
                    _ => Err(self.invalid_value(key, "a string", parameter)),
                },
            ),
        }
    }

    /// Reads a parameter as an integer. `None` if there is no such
    /// parameter, an `InvalidConfigurationValue` if its value is no integer
    /// of 64 bits.
    pub fn get_parameter_as_i64(&self, key: &str) -> (r: Option<Result<i64, Error>>)
        ensures
            reads_number(r, integer_setting(self@, key@)),
    {
        match self.get_parameter(key) {
            None => None,
            Some(parameter) => Some(
                match &parameter.value {
                    ParamValue::Number { integer: Some(number), .. } => Ok(*number),
                    _ => Err(self.invalid_value(key, "an integer", parameter)),
                },
            ),
        }
    }

    /// Reads a parameter as a floating point number, handed out as the bit
    /// pattern of a double precision number. `None` if there is no such
    /// parameter, an `InvalidConfigurationValue` if its value is no number.
    pub fn get_parameter_as_f64(&self, key: &str) -> (r: Option<Result<u64, Error>>)
        ensures
            reads_number(r, double_setting(self@, key@)),
    {
        match self.get_parameter(key) {
            None => None,
            Some(parameter) => Some(
                match &parameter.value {
                    ParamValue::Number { double, .. } => Ok(*double),
                    _ => Err(self.invalid_value(key, "a floating point value", parameter)),
                },
            ),
        }
    }
}

/// How much the application logs.
#[derive(Clone, Copy, Debug, PartialEq, Eq, Structural)]
pub enum LogLevel {
    Off,
    Error,
    Warn,
    Info,
    Debug,
    Trace,
}

/// The configuration that the application reads at start.
#[derive(Clone, Debug, PartialEq, Eq)]
pub struct Config {
    import_paths: Vec<String>,
    epo_data_paths: Vec<String>,
    log_level: LogLevel,
    services: Vec<(ServiceType, ServiceConfig)>,
}

/// Mathematical model of a `Config`.
pub struct ConfigView {
    pub import_paths: Seq<String>,
    pub epo_data_paths: Seq<String>,
    pub log_level: LogLevel,
    pub services: Seq<(ServiceType, ServiceConfigView)>,
}

/// The service configurations with each one's model in place of it.
pub open spec fn service_views(services: Seq<(ServiceType, ServiceConfig)>) -> Seq<
    (ServiceType, ServiceConfigView),
> {
    Seq::new(services.len(), |i: int| (services[i].0, services[i].1@))
}

/// The configuration that fills a role: the last one listed for it.
pub open spec fn service_for(
    services: Seq<(ServiceType, ServiceConfigView)>,
    role: ServiceType,
) -> Option<ServiceConfigView>
    decreases services.len(),
{
    if services.len() == 0 {
        None
    } else if services.last().0 == role {
        Some(services.last().1)
    } else {
        service_for(services.drop_last(), role)
    }
}

impl View for Config {
    type V = ConfigView;

    closed spec fn view(&self) -> ConfigView {
        ConfigView {
            import_paths: self.import_paths@,
            epo_data_paths: self.epo_data_paths@,
            log_level: self.log_level,
            services: service_views(self.services@),
        }
    }
}

impl Config {
    /// A configuration from its parts.
    pub fn new(
        import_paths: Vec<String>,
        epo_data_paths: Vec<String>,
        log_level: LogLevel,
        services: Vec<(ServiceType, ServiceConfig)>,
    ) -> (r: Self)
        ensures
            r@ == (ConfigView {
                import_paths: import_paths@,
                epo_data_paths: epo_data_paths@,
                log_level,
                services: service_views(services@),
            }),
    {
        Config { import_paths, epo_data_paths, log_level, services }
    }

    /// The paths that every import searches.
    pub fn import_paths(&self) -> (r: &Vec<String>)
        ensures
            r@ == self@.import_paths,
    {
        &self.import_paths
    }

    /// The paths that orbit data is written to.
    pub fn epo_data_paths(&self) -> (r: &Vec<String>)
        ensures
            r@ == self@.epo_data_paths,
    {
        &self.epo_data_paths
    }

    /// The configured log level.
    pub fn log_level(&self) -> (r: LogLevel)
        ensures
            r == self@.log_level,
    {
        self.log_level
    }

    /// Looks up the configuration that fills a role.
    pub fn service(&self, role: ServiceType) -> (r: Option<&ServiceConfig>)
        ensures
            match r {
                Some(config) => service_for(self@.services, role) == Some(config@),
                None => service_for(self@.services, role) is None,
            },
    {
        let mut i: usize = self.services.len();
        assert(self@.services.take(i as int) =~= self@.services);
        while i > 0
            invariant
                0 <= i <= self.services.len(),
                service_for(self@.services, role) == service_for(
                    self@.services.take(i as int),
                    role,
                ),
            decreases i,
        {
            let entry = &self.services[i - 1];
            proof {
                let prefix = self@.services.take(i as int);
                assert(prefix.last() == (entry.0, entry.1@));
                assert(prefix.drop_last() =~= self@.services.take(i - 1));
            }
            if entry.0 == role {
                return Some(&entry.1);
            }
            i = i - 1;
        }
        None
    }

    /// The elevation provider that the configuration names. Fails with
    /// `UnknownServiceHandler` if none is configured or its name is unknown.
    pub fn get_elevation_handler(&self) -> (r: Result<ElevationHandler, Error>)
        ensures
            match service_for(self@.services, ServiceType::Elevation) {
                None => r matches Err(Error::UnknownServiceHandler(message)) && message@
                    == "no service configuration defined for elevation"@,
                Some(config) => match elevation_handler_named(config.handler) {
                    Some(handler) => r == Ok::<ElevationHandler, Error>(handler),
                    None => r matches Err(Error::UnknownServiceHandler(message)) && message@
                        == "no elevation handler exists for: "@ + config.handler,
                },
            },
    {
        match self.service(ServiceType::Elevation) {
            Some(config) => new_elevation_handler(config),
            None => Err(
                Error::UnknownServiceHandler(
                    String::from_str("no service configuration defined for elevation"),
                ),
            ),
        }
    }

    /// The route drawing service that the configuration names. Fails with
    /// `UnknownServiceHandler` if none is configured or its name is unknown.
    pub fn get_route_visualization_handler(&self) -> (r: Result<RouteHandler, Error>)
        ensures
            match service_for(self@.services, ServiceType::RouteVisualization) {
                None => r matches Err(Error::UnknownServiceHandler(message)) && message@
                    == "no service configuration defined for route visualization"@,
                Some(config) => match route_handler_named(config.handler) {
                    Some(handler) => r == Ok::<RouteHandler, Error>(handler),
                    None => r matches Err(Error::UnknownServiceHandler(message)) && message@
                        == "no route visualization handler exists for: "@ + config.handler,
                },
            },
    {
        match self.service(ServiceType::RouteVisualization) {
            Some(config) => new_route_visualization_handler(config),
            None => Err(
                Error::UnknownServiceHandler(
                    String::from_str("no service configuration defined for route visualization"),
                ),
            ),
        }
    }

    /// The plotting service that the configuration names, or the terminal
    /// if it names none. Fails with `UnknownServiceHandler` if the name is
    /// unknown.
    pub fn get_plotting_visualization_handler(&self) -> (r: Result<PlottingHandler, Error>)
        ensures
            match service_for(self@.services, ServiceType::DataPlotting) {
                None => r == Ok::<PlottingHandler, Error>(PlottingHandler::Terminal),
                Some(config) => match plotting_handler_named(config.handler) {
                    Some(handler) => r == Ok::<PlottingHandler, Error>(handler),
                    None => r matches Err(Error::UnknownServiceHandler(message)) && message@
                        == "no plotting visualization handler exists for: "@ + config.handler,
                },
            },
    {
        match self.service(ServiceType::DataPlotting) {
            Some(config) => new_plotting_visualization_handler(config),
            None => Ok(PlottingHandler::Terminal),
        }
    }
}

} // verus!
