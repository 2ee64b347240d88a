//! Tools through which a language model controls the devices of a SmartThings home.
//!
//! A `SmartThingsToolkit` offers the tools (`catalog`), describes them in the envelopes
//! of the OpenAI and Anthropic APIs (`tool`), and runs a call of one (`run`): it plans the
//! requests to the SmartThings REST API (`client`), and turns the replies into the
//! tool's result. The program that embeds the library reads the JSON arguments, sends the
//! requests and hands back the replies.
//!
//! `explorer` holds the logic of a command-line survey of the API's endpoints.
pub mod catalog;
pub mod client;
pub mod command_laws;
pub mod common_tools;
pub mod device_laws;
pub mod explorer;
pub mod extended_devices;
pub mod json;
pub mod laws;
pub mod my_devices;
pub mod plan;
pub mod reading_laws;
pub mod run;
pub mod schemas;
pub mod text;
pub mod tool;

use vstd::prelude::*;

use crate::catalog::{
    common_tools, common_tools_v, extended_device_tools_v, get_extended_device_tools,
    get_my_device_tools, my_device_tools_v, Tool, ToolInput,
};
use crate::client::SmartThingsClient;
use crate::json::Json;
use crate::run::{arguments_call, Invocation, ToolRun};
use crate::tool::{anthropic_tool_v, describe_tools, function_schema_v, openai_tool_v, Envelope};

verus! {

/// The tools offered: the common ones, those for a typical home, and where asked for,
/// those for less common devices.
pub open spec fn tools_v(include_extended: bool) -> Seq<Tool> {
    common_tools_v() + my_device_tools_v() + if include_extended {
        extended_device_tools_v()
    } else {
        Seq::empty()
    }
}

/// The first tool of `tools` named `name`.
pub open spec fn find_named(tools: Seq<Tool>, name: Seq<char>) -> Option<Tool>
    decreases tools.len(),
{
    if tools.len() == 0 {
        None
    } else if tools[0].name_v() == name {
        Some(tools[0])
    } else {
        find_named(tools.drop_first(), name)
    }
}

/// The tools of SmartThings for a language model.
pub struct SmartThingsToolkit {
    client: SmartThingsClient,
    include_extended: bool,
}

impl SmartThingsToolkit {
    /// Whether the tools for less common devices are offered.
    pub closed spec fn extended(&self) -> bool {
        self.include_extended
    }

    /// The client's token.
    pub closed spec fn token_v(&self) -> Seq<char> {
        self.client.token_v()
    }

    /// A toolkit that authorises itself with `token`.
    pub fn new(token: String, include_extended: bool) -> (r: SmartThingsToolkit)
        ensures
            r.extended() == include_extended,
            r.token_v() == token@,
    {
        SmartThingsToolkit { client: SmartThingsClient::new(token), include_extended }
    }

    /// The client through which the tools send their requests.
    pub fn client(&self) -> (r: &SmartThingsClient)
        ensures
            r.token_v() == self.token_v(),
    {
        &self.client
    }

    /// The tools offered, in order.
    pub fn get_tools(&self) -> (r: Vec<Tool>)
        ensures
            r@ == tools_v(self.extended()),
    {
        let mut tools = common_tools();
        let mut mine = get_my_device_tools();
        tools.append(&mut mine);
        if self.include_extended {
            let mut ext = get_extended_device_tools();
            tools.append(&mut ext);
        }
        assert(tools@ =~= tools_v(self.extended()));
        tools
    }

    /// The names of the tools offered, in order.
    pub fn list_tool_names(&self) -> (r: Vec<&'static str>)
        ensures
            r@.len() == tools_v(self.extended()).len(),
            forall|i: int| 0 <= i < r@.len() ==> #[trigger] r@[i]@ == tools_v(self.extended())[i].name_v(),
    {
        let tools = self.get_tools();
        let mut names: Vec<&'static str> = Vec::new();
        let mut i: usize = 0;
        while i < tools.len()
            invariant
                0 <= i <= tools.len(),
                names@.len() == i,
                forall|j: int| 0 <= j < i ==> #[trigger] names@[j]@ == tools@[j].name_v(),
            decreases tools.len() - i,
        {
            names.push(tools[i].name());
            i = i + 1;
        }
        names
    }

    /// The first tool offered under `name`.
    pub fn find_tool(&self, name: &str) -> (r: Option<Tool>)
        ensures
            r == find_named(tools_v(self.extended()), name@),
    {
        let tools = self.get_tools();
        let ghost all = tools@;
        let mut i: usize = 0;
        assert(all.subrange(0, all.len() as int) =~= all);
        while i < tools.len()
            invariant
                0 <= i <= tools.len(),
                all == tools@,
                all == tools_v(self.extended()),
                find_named(all, name@) == find_named(all.subrange(i as int, all.len() as int), name@),
            decreases tools.len() - i,
        {
            assert(all.subrange(i as int, all.len() as int).drop_first() =~= all.subrange(i + 1, all.len() as int));
            assert(all.subrange(i as int, all.len() as int)[0] == all[i as int]);
            if crate::text::str_eq(tools[i].name(), name) {
                return Some(tools[i]);
            }
            i = i + 1;
        }
        None
    }

    /// A run of the call of `tool_name` with the arguments read for it (arguments of the
    /// tool of that name): answered at once with `Unknown tool: <name>` where no tool is
    /// offered under that name.
    pub fn execute(&self, tool_name: &str, parsed: Result<ToolInput, String>) -> (r: ToolRun)
        requires
            match parsed {
                Ok(i) => find_named(tools_v(self.extended()), tool_name@) == Some(i.tool_v()),
                Err(_) => true,
            },
        ensures
            r.wf(),
            r.replies_v() == Seq::<crate::client::ResponseV>::empty(),
            r.call_v() == if find_named(tools_v(self.extended()), tool_name@) is None {
                Invocation::UnknownTool(tool_name@)
            } else {
                arguments_call(parsed)
            },
    {
        match self.find_tool(tool_name) {
            None => ToolRun::unknown_tool(tool_name),
            Some(_) => ToolRun::start(&self.client, parsed),
        }
    }

    /// The tools offered, described for OpenAI's API; `schemas[i]` is the JSON schema of
    /// the arguments of the `i`th tool.
    pub fn to_openai_tools(&self, schemas: Vec<Json>) -> (r: Vec<Json>)
        requires
            schemas.len() == tools_v(self.extended()).len(),
        ensures
            r@.len() == schemas@.len(),
            forall|i: int| 0 <= i < r@.len() ==> #[trigger] r@[i]@ == openai_tool_v(
                tools_v(self.extended())[i].name_v(),
                tools_v(self.extended())[i].description_v(),
                schemas@[i]@,
            ),
    {
        describe_tools(&self.get_tools(), Envelope::OpenAi, schemas)
    }

    /// The tools offered, described for Anthropic's API; `schemas[i]` is the JSON schema
    /// of the arguments of the `i`th tool.
    pub fn to_anthropic_tools(&self, schemas: Vec<Json>) -> (r: Vec<Json>)
        requires
            schemas.len() == tools_v(self.extended()).len(),
        ensures
            r@.len() == schemas@.len(),
            forall|i: int| 0 <= i < r@.len() ==> #[trigger] r@[i]@ == anthropic_tool_v(
                tools_v(self.extended())[i].name_v(),
                tools_v(self.extended())[i].description_v(),
                schemas@[i]@,
            ),
    {
        describe_tools(&self.get_tools(), Envelope::Anthropic, schemas)
    }

    /// The tools offered, described as plain function schemas; `schemas[i]` is the JSON
    /// schema of the arguments of the `i`th tool.
    pub fn to_function_schemas(&self, schemas: Vec<Json>) -> (r: Vec<Json>)
        requires
            schemas.len() == tools_v(self.extended()).len(),
        ensures
            r@.len() == schemas@.len(),
            forall|i: int| 0 <= i < r@.len() ==> #[trigger] r@[i]@ == function_schema_v(
                tools_v(self.extended())[i].name_v(),
                tools_v(self.extended())[i].description_v(),
                schemas@[i]@,
            ),
    {
        describe_tools(&self.get_tools(), Envelope::Function, schemas)
    }
}

} // verus!
