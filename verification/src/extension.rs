//! The plugin as its host sees it: the two remembered paths, the searches
//! that fill them, the launch commands and the configuration descriptor.

use vstd::prelude::*;
use crate::locate::{spec_cache, spec_step, step, Action, Event, Stage, Step};
use crate::release::Tool;

verus! {

/// How the host is to launch a tool.
#[derive(Debug, PartialEq, Eq)]
pub struct Command {
    /// Path of the executable.
    pub command: String,
    /// Its arguments.
    pub args: Vec<String>,
    /// Variables added to the environment it inherits.
    pub env: Vec<(String, String)>,
}

impl Command {
    /// Whether this is the launch of `tool` from `path`: the tool's one
    /// argument, and nothing added to the environment.
    pub open spec fn launches(self, tool: Tool, path: Seq<char>) -> bool {
        &&& self.command@ == path
        &&& self.args@.len() == 1
        &&& self.args@[0]@ == tool.spec_launch_argument()
        &&& self.env@.len() == 0
    }
}

/// What the host shows a user who sets the context server up.
#[derive(Debug, PartialEq, Eq)]
pub struct ContextServerConfiguration {
    /// How to install the server.
    pub installation_instructions: String,
    /// Schema of the settings.
    pub settings_schema: String,
    /// Settings to start from.
    pub default_settings: String,
}

/// The plugin's state: for each tool, the path of the executable that the
/// last installation left.
#[derive(Debug, PartialEq, Eq)]
pub struct TerraformExtension {
    pub cached_mcp_binary_path: Option<String>,
    pub cached_ls_binary_path: Option<String>,
}

/// The launch of `tool` from the outcome of its search: the command on a
/// path, the search's error as it is otherwise.
pub fn launch_command(tool: Tool, located: Result<String, String>) -> (r: Result<Command, String>)
    ensures
        match located {
            Ok(path) => r is Ok && r->Ok_0.launches(tool, path@),
            Err(reason) => r == Err::<Command, String>(reason),
        },
{
    match located {
        Ok(path) => {
            let mut args: Vec<String> = Vec::new();
            args.push(String::from_str(tool.launch_argument()));
            Ok(Command { command: path, args, env: Vec::new() })
        },
        Err(reason) => Err(reason),
    }
}

impl TerraformExtension {
    /// Path remembered for the context server.
    pub open spec fn spec_mcp_cache(self) -> Option<Seq<char>> {
        spec_cache(self.cached_mcp_binary_path)
    }

    /// Path remembered for the language server.
    pub open spec fn spec_ls_cache(self) -> Option<Seq<char>> {
        spec_cache(self.cached_ls_binary_path)
    }

    /// A plugin that remembers nothing.
    pub fn new() -> (r: Self)
        ensures
            r.cached_mcp_binary_path is None,
            r.cached_ls_binary_path is None,
    {
        TerraformExtension { cached_mcp_binary_path: None, cached_ls_binary_path: None }
    }

    /// One decision in the search for the context server's executable. The
    /// path remembered for the language server is left alone.
    pub fn context_server_binary_path(&mut self, stage: Stage, event: Event) -> (r: (
        Stage,
        Action,
    ))
        ensures
            (Step { stage: r.0@, action: r.1@, cache: final(self).spec_mcp_cache() }) == spec_step(
                Tool::ContextServer,
                old(self).spec_mcp_cache(),
                stage@,
                event,
            ),
            final(self).cached_ls_binary_path == old(self).cached_ls_binary_path,
    {
        step(Tool::ContextServer, &mut self.cached_mcp_binary_path, stage, event)
    }

    /// One decision in the search for the language server's executable. The
    /// path remembered for the context server is left alone.
    pub fn language_server_binary_path(&mut self, stage: Stage, event: Event) -> (r: (
        Stage,
        Action,
    ))
        ensures
            (Step { stage: r.0@, action: r.1@, cache: final(self).spec_ls_cache() }) == spec_step(
                Tool::LanguageServer,
                old(self).spec_ls_cache(),
                stage@,
                event,
            ),
            final(self).cached_mcp_binary_path == old(self).cached_mcp_binary_path,
    {
        step(Tool::LanguageServer, &mut self.cached_ls_binary_path, stage, event)
    }

    /// The context server's launch, from the outcome of its search: the path
    /// with the argument `stdio`.
    pub fn context_server_command(located: Result<String, String>) -> (r: Result<Command, String>)
        ensures
            match located {
                Ok(path) => r is Ok && r->Ok_0.launches(Tool::ContextServer, path@),
                Err(reason) => r == Err::<Command, String>(reason),
            },
    {
        launch_command(Tool::ContextServer, located)
    }

    /// The language server's launch, from the outcome of its search: the path
    /// with the argument `serve`.
    pub fn language_server_command(located: Result<String, String>) -> (r: Result<Command, String>)
        ensures
            match located {
                Ok(path) => r is Ok && r->Ok_0.launches(Tool::LanguageServer, path@),
                Err(reason) => r == Err::<Command, String>(reason),
            },
    {
        launch_command(Tool::LanguageServer, located)
    }

    /// The context server's configuration descriptor, from the two bundled
    /// texts and the rendering of the settings schema. The texts and the
    /// schema are passed on as they are; a schema that could not be rendered
    /// is the error.
    pub fn context_server_configuration(
        installation_instructions: String,
        default_settings: String,
        settings_schema: Result<String, String>,
    ) -> (r: Result<Option<ContextServerConfiguration>, String>)
        ensures
            match settings_schema {
                Ok(schema) => r == Ok::<Option<ContextServerConfiguration>, String>(
                    Some(
                        ContextServerConfiguration {
                            installation_instructions,
                            settings_schema: schema,
                            default_settings,
                        },
                    ),
                ),
                Err(reason) => r == Err::<Option<ContextServerConfiguration>, String>(reason),
            },
    {
        match settings_schema {
            Ok(schema) => Ok(
                Some(
                    ContextServerConfiguration {
                        installation_instructions,
                        settings_schema: schema,
                        default_settings,
                    },
                ),
            ),
            Err(reason) => Err(reason),
        }
    }
}

} // verus!
