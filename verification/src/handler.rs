use vstd::prelude::*;
use crate::dispatch::{
    ArgEntry, ArgValue, args_parse, city_chars, find_arg, sidenote_chars, sidenote_present,
};
use crate::envelope::ToolCallResult;
use crate::messages::{invalid_arguments_text, missing_sidenote_text, unknown_tool_text};
use crate::pipeline::FetchRequest;
use crate::registry::{
    InputSchema, PropertySpec, ToolDescriptor, ToolListing, is_weather_catalog,
};

verus! {

/// The advertised tools capability: whether listing-change notifications may
/// be sent.
pub struct ToolsCapability {
    pub list_changed: Option<bool>,
}

/// What this server says about itself on the protocol handshake: its
/// caller-facing instructions and its tools capability. Fields the handshake
/// leaves at their protocol defaults are not modeled here.
pub struct ServerPresentation {
    pub instructions: Option<String>,
    pub tools: Option<ToolsCapability>,
}

/// What the dispatcher decides for one call: either a terminal envelope, or
/// a validated fetch for the transport adapter to drive through the pipeline.
pub enum CallOutcome {
    Reply(ToolCallResult),
    Fetch(FetchRequest),
}

/// The envelope reporting an argument container that fails to parse as the
/// expected shape.
fn invalid_arguments_reply() -> (res: ToolCallResult)
    ensures
        res.wf(),
        res.is_error,
        res.sole_text() == invalid_arguments_text(),
{
    ToolCallResult::failure(
        String::from_str(
            "Invalid arguments for get-weather. Expected 'city' and 'sidenote' fields.",
        ),
    )
}

/// The server's single handler: a static catalog of one tool and a stateless
/// dispatcher. No call leaves any trace in it.
#[derive(Clone, Copy)]
pub struct WeatherServerHandler {}

impl WeatherServerHandler {
    pub fn new() -> (r: WeatherServerHandler)
        ensures
            r == (WeatherServerHandler {  }),
    {
        WeatherServerHandler {}
    }

    /// The handshake description: fixed instructions, and a tools capability
    /// that announces listing-change notifications.
    pub fn get_info(&self) -> (r: ServerPresentation)
        ensures
            r.instructions matches Some(s) && s@
                == "Native Weather MCP server with OpenWeatherMap API integration"@,
            r.tools matches Some(c) && c.list_changed == Some(true),
    {
        ServerPresentation {
            instructions: Some(
                String::from_str("Native Weather MCP server with OpenWeatherMap API integration"),
            ),
            tools: Some(ToolsCapability { list_changed: Some(true) }),
        }
    }

    /// Answer a listing query. Deterministic and side-effect-free: every call
    /// returns the same single-descriptor catalog, and never a next-page
    /// marker.
    pub fn list_tools(&self) -> (l: ToolListing)
        ensures
            is_weather_catalog(l),
    {
        let mut properties: Vec<PropertySpec> = Vec::new();
        properties.push(
            PropertySpec {
                name: String::from_str("city"),
                json_type: String::from_str("string"),
                description: String::from_str("The city name to get weather for"),
            },
        );
        properties.push(
            PropertySpec {
                name: String::from_str("sidenote"),
                json_type: String::from_str("string"),
                description: String::from_str("Required additional information"),
            },
        );
        let mut required: Vec<String> = Vec::new();
        required.push(String::from_str("city"));
        required.push(String::from_str("sidenote"));
        let mut tools: Vec<ToolDescriptor> = Vec::new();
        tools.push(
            ToolDescriptor {
                name: String::from_str("get-weather"),
                description: String::from_str("Get the weather for a given city."),
                input_schema: InputSchema { properties, required },
            },
        );
        ToolListing { tools, next_cursor: None }
    }

    /// Validate and route one call. Every outcome other than a validated
    /// `get-weather` invocation is a terminal envelope with the error flag
    /// set, and emits no request of any kind:
    /// a name that matches no catalog entry reports it verbatim; an absent
    /// argument container, a non-text `city`, an absent `city` or a non-text
    /// `sidenote` reports the expected shape; an absent `sidenote` reports
    /// the missing field. A call that validates is handed on as a fetch.
    pub fn call_tool(&self, name: &str, arguments: Option<&Vec<ArgEntry>>) -> (r: CallOutcome)
        ensures
            name@ != "get-weather"@ ==> (r matches CallOutcome::Reply(res) && res.wf()
                && res.is_error && res.sole_text() == unknown_tool_text(name@)),
            name@ == "get-weather"@ ==> (match arguments {
                None => r matches CallOutcome::Reply(res) && res.wf() && res.is_error
                    && res.sole_text() == invalid_arguments_text(),
                Some(a) => {
                    &&& !args_parse(a@) ==> (r matches CallOutcome::Reply(res) && res.wf()
                        && res.is_error && res.sole_text() == invalid_arguments_text())
                    &&& args_parse(a@) && !sidenote_present(a@) ==> (r matches CallOutcome::Reply(
                        res,
                    ) && res.wf() && res.is_error && res.sole_text() == missing_sidenote_text())
                    &&& args_parse(a@) && sidenote_present(a@) ==> (r matches CallOutcome::Fetch(
                        req,
                    ) && req.city@ == city_chars(a@) && req.sidenote@ == sidenote_chars(a@))
                },
            }),
    {
        let name_string = String::from_str(name);
        let target = String::from_str("get-weather");
        if !name_string.eq(&target) {
            return CallOutcome::Reply(
                ToolCallResult::failure(String::from_str("Unknown tool: ").concat(name)),
            );
        }
        match arguments {
            None => CallOutcome::Reply(invalid_arguments_reply()),
            Some(args) => {
                let city: String;
                match find_arg(args, "city") {
                    Some(ArgValue::Text(c)) => {
                        city = c.clone();
                    },
                    _ => {
                        return CallOutcome::Reply(invalid_arguments_reply());
                    },
                }
                match find_arg(args, "sidenote") {
                    Some(ArgValue::Text(s)) => CallOutcome::Fetch(
                        FetchRequest { city, sidenote: s.clone() },
                    ),
                    Some(ArgValue::Other) => CallOutcome::Reply(invalid_arguments_reply()),
                    None => CallOutcome::Reply(
                        ToolCallResult::failure(
                            String::from_str("Missing required 'sidenote' parameter."),
                        ),
                    ),
                }
            },
        }
    }
}

} // verus!
