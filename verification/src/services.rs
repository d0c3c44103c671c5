//! The services that the application can be configured to use: which
//! handlers exist, and the settings of those whose settings are plain
//! text and integers.

use crate::config::{
    integer_setting, text_setting, ServiceConfig, ServiceConfigView,
};
use crate::error::Error;
use crate::gps::Location;
use vstd::prelude::*;
use vstd::string::*;

verus! {

/// A text setting with its default: the default if the parameter is
/// absent, the message if its value is no text.
pub open spec fn text_or(config: ServiceConfigView, key: Seq<char>, default: Seq<char>) -> Result<
    Seq<char>,
    Seq<char>,
> {
    match text_setting(config, key) {
        None => Ok(default),
        Some(reading) => reading,
    }
}

/// An unsigned 32 bit setting with its default: the default if the
/// parameter is absent, the low 32 bits of the integer if it is one, the
/// message if it is none.
pub open spec fn u32_or(config: ServiceConfigView, key: Seq<char>, default: u32) -> Result<
    u32,
    Seq<char>,
> {
    match integer_setting(config, key) {
        None => Ok(default),
        Some(Ok(number)) => Ok(number as u32),
        Some(Err(message)) => Err(message),
    }
}

/// A size setting with its default: the default if the parameter is
/// absent, the integer cut to the width of a size if it is one, the
/// message if it is none.
pub open spec fn usize_or(config: ServiceConfigView, key: Seq<char>, default: usize) -> Result<
    usize,
    Seq<char>,
> {
    match integer_setting(config, key) {
        None => Ok(default),
        Some(Ok(number)) => Ok(number as usize),
        Some(Err(message)) => Err(message),
    }
}

fn read_text(config: &ServiceConfig, key: &str, default: String) -> (r: Result<String, Error>)
    ensures
        match text_or(config@, key@, default@) {
            Ok(text) => r matches Ok(found) && found@ == text,
            Err(message) => r matches Err(Error::InvalidConfigurationValue(found)) && found@
                == message,
        },
{
    match config.get_parameter_as_string(key) {
        None => Ok(default),
        Some(reading) => reading,
    }
}

fn read_u32(config: &ServiceConfig, key: &str, default: u32) -> (r: Result<u32, Error>)
    ensures
        match u32_or(config@, key@, default) {
            Ok(number) => r matches Ok(found) && found == number,
            Err(message) => r matches Err(Error::InvalidConfigurationValue(found)) && found@
                == message,
        },
{
    match config.get_parameter_as_i64(key) {
        None => Ok(default),
        Some(Ok(number)) => Ok(#[verifier::truncate] (number as u32)),
        Some(Err(error)) => Err(error),
    }
}

fn read_usize(config: &ServiceConfig, key: &str, default: usize) -> (r: Result<usize, Error>)
    ensures
        match usize_or(config@, key@, default) {
            Ok(number) => r matches Ok(found) && found == number,
            Err(message) => r matches Err(Error::InvalidConfigurationValue(found)) && found@
                == message,
        },
{
    match config.get_parameter_as_i64(key) {
        None => Ok(default),
        Some(Ok(number)) => Ok(#[verifier::truncate] (number as usize)),
        Some(Err(error)) => Err(error),
    }
}

/// Connection settings of the MapQuest open elevation service.
#[derive(Clone, Debug)]
pub struct MapquestElevationApi {
    base_url: &'static str,
    api_version: &'static str,
    api_key: String,
    batch_size: usize,
}

/// Mathematical model of a `MapquestElevationApi`.
pub struct MapquestView {
    pub base_url: Seq<char>,
    pub api_version: Seq<char>,
    pub api_key: Seq<char>,
    pub batch_size: usize,
}

/// The settings of the public MapQuest service with the given key and
/// batch size.
pub open spec fn mapquest_with(api_key: Seq<char>, batch_size: usize) -> MapquestView {
    MapquestView {
        base_url: "http://open.mapquestapi.com"@,
        api_version: "v1"@,
        api_key,
        batch_size,
    }
}

/// The settings that a configuration gives: `api_key` as text, by default
/// empty, and `batch_size` as an integer, by default 512. The message of
/// the first of the two, in this order, that has the wrong type.
pub open spec fn mapquest_from(config: ServiceConfigView) -> Result<MapquestView, Seq<char>> {
    match text_or(config, "api_key"@, Seq::empty()) {
        Err(message) => Err(message),
        Ok(api_key) => match usize_or(config, "batch_size"@, 512) {
            Err(message) => Err(message),
            Ok(batch_size) => Ok(mapquest_with(api_key, batch_size)),
        },
    }
}

impl View for MapquestElevationApi {
    type V = MapquestView;

    closed spec fn view(&self) -> MapquestView {
        MapquestView {
            base_url: self.base_url@,
            api_version: self.api_version@,
            api_key: self.api_key@,
            batch_size: self.batch_size,
        }
    }
}

impl Default for MapquestElevationApi {
    fn default() -> (r: Self)
        ensures
            r@ == mapquest_with(Seq::empty(), 512),
    {
        MapquestElevationApi {
            base_url: "http://open.mapquestapi.com",
            api_version: "v1",
            api_key: String::new(),
            batch_size: 512,
        }
    }
}

impl MapquestElevationApi {
    /// The public service with the given key and batches of 512 points.
    pub fn new(api_key: String) -> (r: Self)
        ensures
            r@ == mapquest_with(api_key@, 512),
    {
        MapquestElevationApi {
            base_url: "http://open.mapquestapi.com",
            api_version: "v1",
            api_key,
            batch_size: 512,
        }
    }

    /// Reads the settings from a configuration; see `mapquest_from`.
    pub fn from_config(config: &ServiceConfig) -> (r: Result<Self, Error>)
        ensures
            match mapquest_from(config@) {
                Ok(settings) => r matches Ok(found) && found@ == settings,
                Err(message) => r matches Err(Error::InvalidConfigurationValue(found)) && found@
                    == message,
            },
    {
        let api_key = match read_text(config, "api_key", String::new()) {
            Ok(text) => text,
            Err(error) => {
                return Err(error);
            },
        };
        let batch_size = match read_usize(config, "batch_size", 512) {
            Ok(number) => number,
            Err(error) => {
                return Err(error);
            },
        };
        Ok(
            MapquestElevationApi {
                base_url: "http://open.mapquestapi.com",
                api_version: "v1",
                api_key,
                batch_size,
            },
        )
    }

    /// The key sent with every request.
    pub fn api_key(&self) -> (r: &str)
        ensures
            r@ == self@.api_key,
    {
        self.api_key.as_str()
    }

    /// The address of the service.
    pub fn base_url(&self) -> (r: &'static str)
        ensures
            r@ == self@.base_url,
    {
        self.base_url
    }

    /// The version of the service's interface.
    pub fn api_version(&self) -> (r: &'static str)
        ensures
            r@ == self@.api_version,
    {
        self.api_version
    }

    /// The largest number of points sent in one request.
    pub fn batch_size(&self) -> (r: usize)
        ensures
            r == self@.batch_size,
    {
        self.batch_size
    }
}

/// Whether a status code inside a MapQuest answer reports success. The
/// service uses 0; 200 is taken as success as well.
pub open spec fn mapquest_succeeded(statuscode: u16) -> bool {
    statuscode == 0 || statuscode == 200
}

/// The character sequences of a list of strings.
pub open spec fn string_views(lines: Seq<String>) -> Seq<Seq<char>> {
    Seq::new(lines.len(), |i: int| lines[i]@)
}

/// Judges the status that a MapQuest answer carries in its body: success
/// for the codes 0 and 200, else a `RequestError` with the code and the
/// answer's messages, one per line.
pub fn mapquest_status(statuscode: u16, messages: &Vec<String>) -> (r: Result<(), Error>)
    ensures
        mapquest_succeeded(statuscode) ==> r is Ok,
        !mapquest_succeeded(statuscode) ==> (r matches Err(Error::RequestError(code, text))
            && code == statuscode && text@ == crate::text::joined(
            string_views(messages@),
            "\n"@,
        )),
{
    if statuscode == 0 || statuscode == 200 {
        return Ok(());
    }
    let mut lines: Vec<&str> = Vec::new();
    let mut i: usize = 0;
    while i < messages.len()
        invariant
            0 <= i <= messages.len(),
            lines@.len() == i,
            forall|k: int| 0 <= k < i ==> (#[trigger] lines@[k])@ == messages@[k]@,
        decreases messages.len() - i,
    {
        lines.push(messages[i].as_str());
        i = i + 1;
    }
    assert(crate::text::str_views(lines@) =~= string_views(messages@));
    let mut text = String::new();
    crate::text::push_joined(&mut text, &lines, "\n");
    assert(text@ =~= crate::text::joined(string_views(messages@), "\n"@));
    Err(Error::RequestError(statuscode, text))
}

/// Connection settings of an OpenMapTiles server that draws routes.
#[derive(Debug)]
pub struct OpenMapTiles {
    base_url: String,
    style: String,
    image_width: u32,
    image_height: u32,
    image_format: String,
    stroke_color: String,
    stroke_width: u32,
}

/// Mathematical model of an `OpenMapTiles`.
pub struct OpenMapTilesView {
    pub base_url: Seq<char>,
    pub style: Seq<char>,
    pub image_width: u32,
    pub image_height: u32,
    pub image_format: Seq<char>,
    pub stroke_color: Seq<char>,
    pub stroke_width: u32,
}

/// The settings of a server on this machine: an image of 1800 by 1200
/// pixels in PNG format, the route drawn in red, three pixels wide.
pub open spec fn open_map_tiles_default() -> OpenMapTilesView {
    OpenMapTilesView {
        base_url: "http://localhost:8080"@,
        style: "osm-bright"@,
        image_width: 1800,
        image_height: 1200,
        image_format: "png"@,
        stroke_color: "red"@,
        stroke_width: 3,
    }
}

/// The message of the first setting, in the order of the fields, whose
/// parameter has the wrong type.
pub open spec fn open_map_tiles_failure(config: ServiceConfigView) -> Option<Seq<char>> {
    let default = open_map_tiles_default();
    if text_or(config, "base_url"@, default.base_url) is Err {
        Some(text_or(config, "base_url"@, default.base_url)->Err_0)
    } else if text_or(config, "style"@, default.style) is Err {
        Some(text_or(config, "style"@, default.style)->Err_0)
    } else if u32_or(config, "image_width"@, default.image_width) is Err {
        Some(u32_or(config, "image_width"@, default.image_width)->Err_0)
    } else if u32_or(config, "image_height"@, default.image_height) is Err {
        Some(u32_or(config, "image_height"@, default.image_height)->Err_0)
    } else if text_or(config, "image_format"@, default.image_format) is Err {
        Some(text_or(config, "image_format"@, default.image_format)->Err_0)
    } else if text_or(config, "stroke_color"@, default.stroke_color) is Err {
        Some(text_or(config, "stroke_color"@, default.stroke_color)->Err_0)
    } else if u32_or(config, "stroke_width"@, default.stroke_width) is Err {
        Some(u32_or(config, "stroke_width"@, default.stroke_width)->Err_0)
    } else {
        None
    }
}

/// The settings that a configuration gives when every parameter has the
/// right type: each setting from the parameter of its name, or its default.
pub open spec fn open_map_tiles_settings(config: ServiceConfigView) -> OpenMapTilesView {
    let default = open_map_tiles_default();
    OpenMapTilesView {
        base_url: text_or(config, "base_url"@, default.base_url)->Ok_0,
        style: text_or(config, "style"@, default.style)->Ok_0,
        image_width: u32_or(config, "image_width"@, default.image_width)->Ok_0,
        image_height: u32_or(config, "image_height"@, default.image_height)->Ok_0,
        image_format: text_or(config, "image_format"@, default.image_format)->Ok_0,
        stroke_color: text_or(config, "stroke_color"@, default.stroke_color)->Ok_0,
        stroke_width: u32_or(config, "stroke_width"@, default.stroke_width)->Ok_0,
    }
}

impl View for OpenMapTiles {
    type V = OpenMapTilesView;

    closed spec fn view(&self) -> OpenMapTilesView {
        OpenMapTilesView {
            base_url: self.base_url@,
            style: self.style@,
            image_width: self.image_width,
            image_height: self.image_height,
            image_format: self.image_format@,
            stroke_color: self.stroke_color@,
            stroke_width: self.stroke_width,
        }
    }
}

impl Default for OpenMapTiles {
    fn default() -> (r: Self)
        ensures
            r@ == open_map_tiles_default(),
    {
        OpenMapTiles {
            base_url: String::from_str("http://localhost:8080"),
            style: String::from_str("osm-bright"),
            image_width: 1800,
            image_height: 1200,
            image_format: String::from_str("png"),
            stroke_color: String::from_str("red"),
            stroke_width: 3,
        }
    }
}

impl OpenMapTiles {
    /// The default settings for the server at `base_url` and the map style
    /// `style`.
    pub fn new(base_url: String, style: String) -> (r: Self)
        ensures
            r@ == (OpenMapTilesView {
                base_url: base_url@,
                style: style@,
                ..open_map_tiles_default()
            }),
    {
        OpenMapTiles {
            base_url,
            style,
            image_width: 1800,
            image_height: 1200,
            image_format: String::from_str("png"),
            stroke_color: String::from_str("red"),
            stroke_width: 3,
        }
    }

    /// Reads the settings from a configuration. Each setting comes from the
    /// parameter of its name or keeps its default; parameters of other names
    /// are passed over. Fails with the message of the first setting, in the
    /// order of the fields, whose parameter has the wrong type.
    pub fn from_config(config: &ServiceConfig) -> (r: Result<Self, Error>)
        ensures
            match open_map_tiles_failure(config@) {
                None => r matches Ok(found) && found@ == open_map_tiles_settings(config@),
                Some(message) => r matches Err(Error::InvalidConfigurationValue(found))
                    && found@ == message,
            },
    {
        let base_url = match read_text(config, "base_url", String::from_str("http://localhost:8080")) {
            Ok(text) => text,
            Err(error) => {
                return Err(error);
            },
        };
        let style = match read_text(config, "style", String::from_str("osm-bright")) {
            Ok(text) => text,
            Err(error) => {
                return Err(error);
            },
        };
        let image_width = match read_u32(config, "image_width", 1800) {
            Ok(number) => number,
            Err(error) => {
                return Err(error);
            },
        };
        let image_height = match read_u32(config, "image_height", 1200) {
            Ok(number) => number,
            Err(error) => {
                return Err(error);
            },
        };
        let image_format = match read_text(config, "image_format", String::from_str("png")) {
            Ok(text) => text,
            Err(error) => {
                return Err(error);
            },
        };
        let stroke_color = match read_text(config, "stroke_color", String::from_str("red")) {
            Ok(text) => text,
            Err(error) => {
                return Err(error);
            },
        };
        let stroke_width = match read_u32(config, "stroke_width", 3) {
            Ok(number) => number,
            Err(error) => {
                return Err(error);
            },
        };
        Ok(
            OpenMapTiles {
                base_url,
                style,
                image_width,
                image_height,
                image_format,
                stroke_color,
                stroke_width,
            },
        )
    }

    /// The address of the server.
    pub fn base_url(&self) -> (r: &str)
        ensures
            r@ == self@.base_url,
    {
        self.base_url.as_str()
    }

    /// The map style.
    pub fn style(&self) -> (r: &str)
        ensures
            r@ == self@.style,
    {
        self.style.as_str()
    }

    /// The image format, as a file extension.
    pub fn image_format(&self) -> (r: &str)
        ensures
            r@ == self@.image_format,
    {
        self.image_format.as_str()
    }

    /// Width of the image in pixels.
    pub fn image_width(&self) -> (r: u32)
        ensures
            r == self@.image_width,
    {
        self.image_width
    }

    /// Sets the width of the image and nothing else.
    pub fn set_image_width(&mut self, width: u32)
        ensures
            final(self)@ == (OpenMapTilesView { image_width: width, ..old(self)@ }),
    {
        self.image_width = width;
    }

    /// Height of the image in pixels.
    pub fn image_height(&self) -> (r: u32)
        ensures
            r == self@.image_height,
    {
        self.image_height
    }

    /// Sets the height of the image and nothing else.
    pub fn set_image_height(&mut self, height: u32)
        ensures
            final(self)@ == (OpenMapTilesView { image_height: height, ..old(self)@ }),
    {
        self.image_height = height;
    }

    /// Colour of the route.
    pub fn stroke_color(&self) -> (r: &str)
        ensures
            r@ == self@.stroke_color,
    {
        self.stroke_color.as_str()
    }

    /// Sets the colour of the route and nothing else.
    pub fn set_stroke_color(&mut self, color: String)
        ensures
            final(self)@ == (OpenMapTilesView { stroke_color: color@, ..old(self)@ }),
    {
        self.stroke_color = color;
    }

    /// Width of the route in pixels.
    pub fn stroke_width(&self) -> (r: u32)
        ensures
            r == self@.stroke_width,
    {
        self.stroke_width
    }

    /// Sets the width of the route and nothing else.
    pub fn set_stroke_width(&mut self, width: u32)
        ensures
            final(self)@ == (OpenMapTilesView { stroke_width: width, ..old(self)@ }),
    {
        self.stroke_width = width;
    }
}

/// Plots on the terminal. It has no settings.
#[derive(Clone, Copy, Debug, PartialEq, Eq, Structural)]
pub struct TerminalPlotter {}

impl Default for TerminalPlotter {
    fn default() -> (r: Self)
        ensures
            r == (TerminalPlotter {  }),
    {
        TerminalPlotter {  }
    }
}

impl TerminalPlotter {
    /// Accepts any configuration: there is nothing to read.
    pub fn from_config(config: &ServiceConfig) -> (r: Result<Self, Error>)
        ensures
            r == Ok::<Self, Error>(TerminalPlotter {  }),
    {
        Ok(TerminalPlotter {  })
    }
}

/// The elevation providers that exist.
#[derive(Clone, Copy, Debug, PartialEq, Eq, Structural)]
pub enum ElevationHandler {
    /// Under the name `opentopodata`.
    OpenTopoData,
    /// Under the name `mapquest`.
    Mapquest,
}

/// The route drawing services that exist.
#[derive(Clone, Copy, Debug, PartialEq, Eq, Structural)]
pub enum RouteHandler {
    /// Under the name `mapbox`.
    MapBox,
    /// Under the name `openmaptiles`.
    OpenMapTiles,
}

/// The plotting services that exist.
#[derive(Clone, Copy, Debug, PartialEq, Eq, Structural)]
pub enum PlottingHandler {
    /// Under the name `ratatui`.
    Terminal,
}

/// The elevation provider that goes by a name.
pub open spec fn elevation_handler_named(name: Seq<char>) -> Option<ElevationHandler> {
    if name == "opentopodata"@ {
        Some(ElevationHandler::OpenTopoData)
    } else if name == "mapquest"@ {
        Some(ElevationHandler::Mapquest)
    } else {
        None
    }
}

/// The route drawing service that goes by a name.
pub open spec fn route_handler_named(name: Seq<char>) -> Option<RouteHandler> {
    if name == "mapbox"@ {
        Some(RouteHandler::MapBox)
    } else if name == "openmaptiles"@ {
        Some(RouteHandler::OpenMapTiles)
    } else {
        None
    }
}

/// The plotting service that goes by a name.
pub open spec fn plotting_handler_named(name: Seq<char>) -> Option<PlottingHandler> {
    if name == "ratatui"@ {
        Some(PlottingHandler::Terminal)
    } else {
        None
    }
}

fn unknown_handler(prefix: &str, name: &str) -> (r: Error)
    ensures
        r matches Error::UnknownServiceHandler(message) && message@ == prefix@ + name@,
{
    let mut message = String::from_str(prefix);
    message.append(name);
    Error::UnknownServiceHandler(message)
}

/// Resolves the handler name of an elevation configuration. An unknown
/// name gives `UnknownServiceHandler` with a message that ends in the name.
pub fn new_elevation_handler(config: &ServiceConfig) -> (r: Result<ElevationHandler, Error>)
    ensures
        match elevation_handler_named(config@.handler) {
            Some(handler) => r == Ok::<ElevationHandler, Error>(handler),
            None => r matches Err(Error::UnknownServiceHandler(message)) && message@
                == "no elevation handler exists for: "@ + config@.handler,
        },
{
    let name = config.handler();
    if name.eq("opentopodata") {
        Ok(ElevationHandler::OpenTopoData)
    } else if name.eq("mapquest") {
        Ok(ElevationHandler::Mapquest)
    } else {
        Err(unknown_handler("no elevation handler exists for: ", name))
    }
}

/// Resolves the handler name of a route drawing configuration. An unknown
/// name gives `UnknownServiceHandler` with a message that ends in the name.
pub fn new_route_visualization_handler(config: &ServiceConfig) -> (r: Result<RouteHandler, Error>)
    ensures
        match route_handler_named(config@.handler) {
            Some(handler) => r == Ok::<RouteHandler, Error>(handler),
            None => r matches Err(Error::UnknownServiceHandler(message)) && message@
                == "no route visualization handler exists for: "@ + config@.handler,
        },
{
    let name = config.handler();
    if name.eq("mapbox") {
        Ok(RouteHandler::MapBox)
    } else if name.eq("openmaptiles") {
        Ok(RouteHandler::OpenMapTiles)
    } else {
        Err(unknown_handler("no route visualization handler exists for: ", name))
    }
}

/// Resolves the handler name of a plotting configuration. An unknown name
/// gives `UnknownServiceHandler` with a message that ends in the name.
pub fn new_plotting_visualization_handler(config: &ServiceConfig) -> (r: Result<
    PlottingHandler,
    Error,
>)
    ensures
        match plotting_handler_named(config@.handler) {
            Some(handler) => r == Ok::<PlottingHandler, Error>(handler),
            None => r matches Err(Error::UnknownServiceHandler(message)) && message@
                == "no plotting visualization handler exists for: "@ + config@.handler,
        },
{
    let name = config.handler();
    if name.eq("ratatui") {
        Ok(PlottingHandler::Terminal)
    } else {
        Err(unknown_handler("no plotting visualization handler exists for: ", name))
    }
}

/// A labelled point on a route image, such as a mile marker.
#[derive(Clone, Debug, PartialEq, Eq)]
pub struct Marker {
    location: Location,
    label: String,
}

/// Mathematical model of a `Marker`.
pub struct MarkerView {
    pub location: Location,
    pub label: Seq<char>,
}

impl View for Marker {
    type V = MarkerView;

    closed spec fn view(&self) -> MarkerView {
        MarkerView { location: self.location, label: self.label@ }
    }
}

impl Marker {
    /// A marker at `location` with the text `label`.
    pub fn new(location: Location, label: String) -> (r: Self)
        ensures
            r@ == (MarkerView { location, label: label@ }),
    {
        Marker { location, label }
    }

    /// Latitude in degrees, in units of 10^-5 degree.
    pub fn latitude(&self) -> (r: i32)
        ensures
            r == self@.location.spec_latitude(),
    {
        self.location.latitude()
    }

    /// Longitude in degrees, in units of 10^-5 degree.
    pub fn longitude(&self) -> (r: i32)
        ensures
            r == self@.location.spec_longitude(),
    {
        self.location.longitude()
    }

    /// The place of the marker.
    pub fn location(&self) -> (r: Location)
        ensures
            r == self@.location,
    {
        self.location
    }

    /// The text of the marker.
    pub fn label(&self) -> (r: &str)
        ensures
            r@ == self@.label,
    {
        self.label.as_str()
    }
}

} // verus!
