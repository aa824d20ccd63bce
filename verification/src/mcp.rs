//! Tools of connected servers, in the shape of the program's own tools.

use crate::json::json_tree;
use crate::text::strip_prefix;
use serde_json::Value;
use vstd::prelude::*;
use vstd::string::*;

verus! {

/// What a tool came to.
#[derive(Debug)]
pub struct ToolResult {
    pub content: String,
    pub is_error: bool,
}

/// What a server answered to a call: its text, and whether it calls that an error.
#[derive(Debug)]
pub struct Reply {
    pub text: String,
    pub is_error: bool,
}

/// A tool of a connected server. Its name is that of the server, an underscore, and the name that
/// the server has for it.
#[derive(Debug)]
pub struct McpToolWrapper {
    pub tool_name: String,
    pub tool_description: String,
    pub tool_input_schema: Value,
    pub server_name: String,
}

/// The name that `server` has for the tool `name`: what follows the server's name and an
/// underscore, or all of it where it does not begin so.
pub open spec fn bare_name(name: Seq<char>, server: Seq<char>) -> Seq<char> {
    let prefix = server + "_"@;
    if prefix.is_prefix_of(name) {
        name.skip(prefix.len() as int)
    } else {
        name
    }
}

/// What a call of the tool `name` of `server` came to: the server's answer, or the reason why
/// there is none.
pub open spec fn call_came_to(
    name: Seq<char>,
    server: Seq<char>,
    outcome: Result<Reply, String>,
) -> (Seq<char>, bool) {
    match outcome {
        Ok(reply) => (reply.text@, reply.is_error),
        Err(reason) => (
            "MCP tool '"@ + bare_name(name, server) + "' failed: "@ + reason@,
            true,
        ),
    }
}

impl McpToolWrapper {
    /// The name of the tool.
    pub fn name(&self) -> (name: &str)
        ensures
            name@ == self.tool_name@,
    {
        self.tool_name.as_str()
    }

    /// What the tool does.
    pub fn description(&self) -> (description: &str)
        ensures
            description@ == self.tool_description@,
    {
        self.tool_description.as_str()
    }

    /// The shape of the tool's input.
    pub fn input_schema(&self) -> (schema: Value)
        ensures
            json_tree(schema) == json_tree(self.tool_input_schema),
    {
        self.tool_input_schema.clone()
    }

    /// The name that the server has for the tool.
    pub fn bare_tool_name(&self) -> (bare: String)
        ensures
            bare@ == bare_name(self.tool_name@, self.server_name@),
    {
        let prefix: String = self.server_name.clone().concat("_");
        match strip_prefix(self.tool_name.as_str(), prefix.as_str()) {
            Some(rest) => rest,
            None => self.tool_name.clone(),
        }
    }

    /// The arguments to call the tool with: none where the input is `null`.
    pub fn call_arguments(&self, input: Value) -> (arguments: Option<Value>)
        ensures
            arguments == if json_tree(input) is Null {
                None
            } else {
                Some(input)
            },
    {
        if input.is_null() {
            None
        } else {
            Some(input)
        }
    }

    /// What to call at the server's end: the tool by its full name, which tells the manager of
    /// servers whose it is, with the arguments that the input gives.
    pub fn call_request(&self, input: Value) -> (request: (String, Option<Value>))
        ensures
            request.0@ == self.tool_name@,
            request.1 == if json_tree(input) is Null {
                None
            } else {
                Some(input)
            },
    {
        (self.tool_name.clone(), self.call_arguments(input))
    }

    /// What a call of the tool came to.
    pub fn call_result(&self, outcome: Result<Reply, String>) -> (result: ToolResult)
        ensures
            (result.content@, result.is_error) == call_came_to(
                self.tool_name@,
                self.server_name@,
                outcome,
            ),
    {
        match outcome {
            Ok(reply) => ToolResult { content: reply.text, is_error: reply.is_error },
            Err(reason) => {
                let bare: String = self.bare_tool_name();
                ToolResult {
                    content: "MCP tool '".to_string().concat(bare.as_str()).concat(
                        "' failed: ",
                    ).concat(reason.as_str()),
                    is_error: true,
                }
            },
        }
    }
}

/// A manager of servers is worth keeping only if some server is connected.
pub fn usable_manager<T>(manager: T, connected_servers: usize) -> (usable: Option<T>)
    ensures
        usable == if connected_servers > 0 {
            Some(manager)
        } else {
            None
        },
{
    if connected_servers > 0 {
        Some(manager)
    } else {
        None
    }
}

/// All tools, in order: those built in, the one that runs agents, and those of servers.
pub fn all_tools<T>(built_in: Vec<T>, agent: T, of_servers: Vec<T>) -> (tools: Vec<T>)
    ensures
        tools@ == built_in@.push(agent) + of_servers@,
{
    let mut tools: Vec<T> = built_in;
    let mut of_servers: Vec<T> = of_servers;
    tools.push(agent);
    tools.append(&mut of_servers);
    tools
}

/// A name that a server's tool was given gives back the name that the server has for it, whatever
/// that name holds; a name that does not begin with the server's stays as it is.
pub proof fn bare_names_undo_the_prefix(server: Seq<char>, tool: Seq<char>, other: Seq<char>)
    ensures
        bare_name(server + "_"@ + tool, server) == tool,
        !(server + "_"@).is_prefix_of(other) ==> bare_name(other, server) == other,
{
    let prefix = server + "_"@;
    let name = prefix + tool;
    assert(name.subrange(0, prefix.len() as int) =~= prefix);
    assert(name.skip(prefix.len() as int) =~= tool);
}

/// A call that could not be made is an error, and so is an answer that the server calls one;
/// nothing else is.
pub proof fn failed_calls_are_errors(
    name: Seq<char>,
    server: Seq<char>,
    outcome: Result<Reply, String>,
)
    ensures
        call_came_to(name, server, outcome).1 <==> (outcome is Err || outcome->Ok_0.is_error),
{
}

/// A server's answer is passed on character for character, with its own mark of error; a call
/// that could not be made is told with the name that the server has for the tool and the whole
/// reason.
pub proof fn calls_are_told_whole(server: Seq<char>, tool: Seq<char>, reply: Reply, reason: String)
    ensures
        call_came_to(server + "_"@ + tool, server, Ok(reply)) == (reply.text@, reply.is_error),
        call_came_to(server + "_"@ + tool, server, Err(reason)) == (
            "MCP tool '"@ + tool + "' failed: "@ + reason@,
            true,
        ),
{
    bare_names_undo_the_prefix(server, tool, tool);
}

/// Where the name does not begin with the server's, a call is told under the whole name.
pub proof fn calls_under_other_names_are_told_whole(
    name: Seq<char>,
    server: Seq<char>,
    reply: Reply,
    reason: String,
)
    requires
        forall|tool: Seq<char>| name != #[trigger] (server + "_"@).add(tool),
    ensures
        call_came_to(name, server, Ok(reply)) == (reply.text@, reply.is_error),
        call_came_to(name, server, Err(reason)) == (
            "MCP tool '"@ + name + "' failed: "@ + reason@,
            true,
        ),
{
    let prefix = server + "_"@;
    if prefix.is_prefix_of(name) {
        let tool = name.skip(prefix.len() as int);
        assert(name =~= prefix.add(tool));
    }
}

} // verus!
