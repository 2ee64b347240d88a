//! What a tool hands back, and the envelopes in which a tool is described to a model.
use vstd::prelude::*;

use crate::catalog::Tool;
use crate::json::{entries_view, jstr, member, Json, JsonV};
use crate::text::owned;

verus! {

/// The model of a tool's result.
pub struct ToolResultV {
    pub success: bool,
    pub data: Option<JsonV>,
    pub error: Option<Seq<char>>,
}

/// The outcome of running a tool: success with data, or failure with a message (and,
/// for some tools, the service's reply as data).
pub struct ToolResult {
    pub success: bool,
    pub data: Option<Json>,
    pub error: Option<String>,
}

/// The model of an optional string.
pub open spec fn opt_str_view(o: Option<String>) -> Option<Seq<char>> {
    match o {
        Some(s) => Some(s@),
        None => None,
    }
}

/// The model of an optional value.
pub open spec fn opt_json_view(o: Option<Json>) -> Option<JsonV> {
    match o {
        Some(j) => Some(j@),
        None => None,
    }
}

impl View for ToolResult {
    type V = ToolResultV;

    open spec fn view(&self) -> ToolResultV {
        ToolResultV {
            success: self.success,
            data: opt_json_view(self.data),
            error: opt_str_view(self.error),
        }
    }
}

/// Success carrying `data`.
pub open spec fn ok_v(data: JsonV) -> ToolResultV {
    ToolResultV { success: true, data: Some(data), error: None }
}

/// Failure with a message.
pub open spec fn fail_v(error: Seq<char>) -> ToolResultV {
    ToolResultV { success: false, data: None, error: Some(error) }
}

/// Failure with a message and data.
pub open spec fn fail_with_data_v(error: Seq<char>, data: JsonV) -> ToolResultV {
    ToolResultV { success: false, data: Some(data), error: Some(error) }
}

impl ToolResult {
    /// Success carrying `data`.
    pub fn ok(data: Json) -> (r: ToolResult)
        ensures
            r@ == ok_v(data@),
    {
        ToolResult { success: true, data: Some(data), error: None }
    }

    /// Failure with the message `error`.
    pub fn fail(error: String) -> (r: ToolResult)
        ensures
            r@ == fail_v(error@),
    {
        ToolResult { success: false, data: None, error: Some(error) }
    }

    /// Failure with the message `error` and `data`.
    pub fn fail_with_data(error: String, data: Json) -> (r: ToolResult)
        ensures
            r@ == fail_with_data_v(error@, data@),
    {
        ToolResult { success: false, data: Some(data), error: Some(error) }
    }

    /// Failure with a fixed message.
    pub fn fail_str(error: &str) -> (r: ToolResult)
        ensures
            r@ == fail_v(error@),
    {
        ToolResult::fail(owned(error))
    }

    /// A copy of this result.
    pub fn copy(&self) -> (r: ToolResult)
        ensures
            r@ == self@,
    {
        let data = match &self.data {
            Some(d) => Some(d.deep_clone()),
            None => None,
        };
        let error = match &self.error {
            Some(e) => Some(e.clone()),
            None => None,
        };
        ToolResult { success: self.success, data, error }
    }
}

/// The envelope in which OpenAI's API takes a tool:
/// `{"type": "function", "function": {"name", "description", "parameters"}}`.
pub open spec fn openai_tool_v(name: Seq<char>, description: Seq<char>, schema: JsonV) -> JsonV {
    JsonV::Object(
        seq![
            ("type"@, jstr("function"@)),
            ("function"@, function_schema_v(name, description, schema)),
        ],
    )
}

/// The envelope in which Anthropic's API takes a tool:
/// `{"name", "description", "input_schema"}`.
pub open spec fn anthropic_tool_v(name: Seq<char>, description: Seq<char>, schema: JsonV) -> JsonV {
    JsonV::Object(
        seq![
            ("name"@, jstr(name)),
            ("description"@, jstr(description)),
            ("input_schema"@, schema),
        ],
    )
}

/// A plain function schema: `{"name", "description", "parameters"}`.
pub open spec fn function_schema_v(name: Seq<char>, description: Seq<char>, schema: JsonV) -> JsonV {
    JsonV::Object(
        seq![
            ("name"@, jstr(name)),
            ("description"@, jstr(description)),
            ("parameters"@, schema),
        ],
    )
}

/// A tool described for OpenAI's API.
pub fn openai_tool(name: &str, description: &str, schema: Json) -> (r: Json)
    ensures
        r@ == openai_tool_v(name@, description@, schema@),
{
    let inner = function_schema(name, description, schema);
    let v = vec![member("type", Json::text("function")), member("function", inner)];
    let r = Json::Object(v);
    assert(entries_view(v@) =~= openai_tool_v(name@, description@, schema@).object().unwrap());
    r
}

/// A tool described for Anthropic's API.
pub fn anthropic_tool(name: &str, description: &str, schema: Json) -> (r: Json)
    ensures
        r@ == anthropic_tool_v(name@, description@, schema@),
{
    let v = vec![
        member("name", Json::text(name)),
        member("description", Json::text(description)),
        member("input_schema", schema),
    ];
    let r = Json::Object(v);
    assert(entries_view(v@) =~= anthropic_tool_v(name@, description@, schema@).object().unwrap());
    r
}

/// A tool described as a plain function schema.
pub fn function_schema(name: &str, description: &str, schema: Json) -> (r: Json)
    ensures
        r@ == function_schema_v(name@, description@, schema@),
{
    let v = vec![
        member("name", Json::text(name)),
        member("description", Json::text(description)),
        member("parameters", schema),
    ];
    let r = Json::Object(v);
    assert(entries_view(v@) =~= function_schema_v(name@, description@, schema@).object().unwrap());
    r
}

/// The API formats in which a tool can be described.
#[derive(Clone, Copy, PartialEq, Eq, Structural)]
pub enum Envelope {
    OpenAi,
    Anthropic,
    Function,
}

/// A tool described in the given format.
pub open spec fn envelope_v(format: Envelope, name: Seq<char>, description: Seq<char>, schema: JsonV) -> JsonV {
    match format {
        Envelope::OpenAi => openai_tool_v(name, description, schema),
        Envelope::Anthropic => anthropic_tool_v(name, description, schema),
        Envelope::Function => function_schema_v(name, description, schema),
    }
}

impl Tool {
    /// This tool described for OpenAI's API, with the JSON schema of its arguments.
    pub fn to_openai_tool(&self, schema: Json) -> (r: Json)
        ensures
            r@ == openai_tool_v(self.name_v(), self.description_v(), schema@),
    {
        openai_tool(self.name(), self.description(), schema)
    }

    /// This tool described for Anthropic's API, with the JSON schema of its arguments.
    pub fn to_anthropic_tool(&self, schema: Json) -> (r: Json)
        ensures
            r@ == anthropic_tool_v(self.name_v(), self.description_v(), schema@),
    {
        anthropic_tool(self.name(), self.description(), schema)
    }

    /// This tool described as a plain function schema.
    pub fn to_function_schema(&self, schema: Json) -> (r: Json)
        ensures
            r@ == function_schema_v(self.name_v(), self.description_v(), schema@),
    {
        function_schema(self.name(), self.description(), schema)
    }

    /// This tool described in the given format.
    pub fn describe(&self, format: Envelope, schema: Json) -> (r: Json)
        ensures
            r@ == envelope_v(format, self.name_v(), self.description_v(), schema@),
    {
        match format {
            Envelope::OpenAi => self.to_openai_tool(schema),
            Envelope::Anthropic => self.to_anthropic_tool(schema),
            Envelope::Function => self.to_function_schema(schema),
        }
    }
}

/// Each tool described in the given format with its schema (`schemas[i]` for `tools[i]`).
pub fn describe_tools(tools: &Vec<Tool>, format: Envelope, schemas: Vec<Json>) -> (r: Vec<Json>)
    requires
        schemas.len() == tools.len(),
    ensures
        r@.len() == tools@.len(),
        forall|i: int| 0 <= i < r@.len() ==> #[trigger] r@[i]@ == envelope_v(
            format,
            tools@[i].name_v(),
            tools@[i].description_v(),
            schemas@[i]@,
        ),
{
    let ghost all = schemas@;
    let mut schemas = schemas;
    let mut out: Vec<Json> = Vec::new();
    let mut i: usize = 0;
    while i < tools.len()
        invariant
            0 <= i <= tools.len(),
            all.len() == tools@.len(),
            schemas@ == all.subrange(i as int, all.len() as int),
            out@.len() == i,
            forall|j: int| 0 <= j < i ==> #[trigger] out@[j]@ == envelope_v(
                format,
                tools@[j].name_v(),
                tools@[j].description_v(),
                all[j]@,
            ),
        decreases tools.len() - i,
    {
        let s = schemas.remove(0);
        out.push(tools[i].describe(format, s));
        i = i + 1;
    }
    out
}

} // verus!

