//! Names derived from a tool and one of its release tags: the version that
//! the release server files it under, the archive's address, the directory it
//! is unpacked into and the path of the executable inside.

use vstd::prelude::*;
use crate::platform::{Architecture, Os};

verus! {

/// One of the two executables the plugin provides.
#[derive(Clone, Copy, Debug, PartialEq, Eq, Structural)]
pub enum Tool {
    LanguageServer,
    ContextServer,
}

impl Tool {
    /// Name of the tool: of its executable, and of its project on the
    /// release server.
    pub open spec fn spec_name(self) -> Seq<char> {
        match self {
            Tool::LanguageServer => "terraform-ls"@,
            Tool::ContextServer => "terraform-mcp-server"@,
        }
    }

    /// Name of the tool: of its executable, and of its project on the
    /// release server.
    pub fn name(&self) -> (r: &'static str)
        ensures
            r@ == self.spec_name(),
    {
        match self {
            Tool::LanguageServer => "terraform-ls",
            Tool::ContextServer => "terraform-mcp-server",
        }
    }

    /// Key of the tool's project in the release index.
    pub open spec fn spec_repository(self) -> Seq<char> {
        match self {
            Tool::LanguageServer => "hashicorp/terraform-ls"@,
            Tool::ContextServer => "hashicorp/terraform-mcp-server"@,
        }
    }

    /// Key of the tool's project in the release index.
    pub fn repository(&self) -> (r: &'static str)
        ensures
            r@ == self.spec_repository(),
    {
        match self {
            Tool::LanguageServer => "hashicorp/terraform-ls",
            Tool::ContextServer => "hashicorp/terraform-mcp-server",
        }
    }

    /// The single argument the tool is launched with.
    pub open spec fn spec_launch_argument(self) -> Seq<char> {
        match self {
            Tool::LanguageServer => "serve"@,
            Tool::ContextServer => "stdio"@,
        }
    }

    /// The single argument the tool is launched with.
    pub fn launch_argument(&self) -> (r: &'static str)
        ensures
            r@ == self.spec_launch_argument(),
    {
        match self {
            Tool::LanguageServer => "serve",
            Tool::ContextServer => "stdio",
        }
    }

    /// Whether an executable found on the project's search path is used in
    /// place of an installed one.
    pub open spec fn spec_searches_path(self) -> bool {
        self == Tool::LanguageServer
    }

    /// Whether an executable found on the project's search path is used in
    /// place of an installed one.
    pub fn searches_path(&self) -> (r: bool)
        ensures
            r == self.spec_searches_path(),
    {
        match self {
            Tool::LanguageServer => true,
            Tool::ContextServer => false,
        }
    }

    /// Whether the host is told of the installation's progress.
    pub open spec fn spec_reports_status(self) -> bool {
        self == Tool::LanguageServer
    }

    /// Whether the host is told of the installation's progress.
    pub fn reports_status(&self) -> (r: bool)
        ensures
            r == self.spec_reports_status(),
    {
        match self {
            Tool::LanguageServer => true,
            Tool::ContextServer => false,
        }
    }
}

/// A release tag without its leading `v`, if it has one. Only one `v` is
/// taken off.
pub open spec fn spec_strip_version_prefix(tag: Seq<char>) -> Seq<char> {
    if tag.len() > 0 && tag[0] == 'v' {
        tag.subrange(1, tag.len() as int)
    } else {
        tag
    }
}

/// The version that a release tag stands for: the tag without its leading
/// `v`, if it has one.
pub fn strip_version_prefix(tag: &str) -> (version: String)
    ensures
        version@ == spec_strip_version_prefix(tag@),
{
    let n: usize = tag.unicode_len();
    if n > 0 && tag.get_char(0) == 'v' {
        String::from_str(tag.substring_char(1, n))
    } else {
        String::from_str(tag)
    }
}

/// Address of the archive of `tool` at release `tag` for one platform.
pub open spec fn spec_download_url(tool: Tool, tag: Seq<char>, os: Os, arch: Architecture) -> Seq<
    char,
> {
    "https://releases.hashicorp.com/"@ + tool.spec_name() + "/"@ + spec_strip_version_prefix(tag)
        + "/"@ + tool.spec_name() + "_"@ + spec_strip_version_prefix(tag) + "_"@
        + os.spec_token() + "_"@ + arch.spec_token() + ".zip"@
}

/// What every archive address ends in for one platform.
pub open spec fn spec_platform_suffix(os: Os, arch: Architecture) -> Seq<char> {
    "_"@ + os.spec_token() + "_"@ + arch.spec_token() + ".zip"@
}

/// Address of the archive of `tool` at release `tag` for one platform.
pub fn download_url(tool: Tool, tag: &str, os: Os, arch: Architecture) -> (url: String)
    ensures
        url@ == spec_download_url(tool, tag@, os, arch),
{
    let version = strip_version_prefix(tag);
    let mut url = String::from_str("https://releases.hashicorp.com/");
    url.append(tool.name());
    url.append("/");
    url.append(version.as_str());
    url.append("/");
    url.append(tool.name());
    url.append("_");
    url.append(version.as_str());
    url.append("_");
    url.append(os.token());
    url.append("_");
    url.append(arch.token());
    url.append(".zip");
    url
}

/// Directory, below the working directory, that release `tag` of `tool` is
/// unpacked into. The tag is used as it is, with its prefix.
pub open spec fn spec_version_dir(tool: Tool, tag: Seq<char>) -> Seq<char> {
    tool.spec_name() + "-"@ + tag
}

/// Directory, below the working directory, that release `tag` of `tool` is
/// unpacked into.
pub fn version_dir(tool: Tool, tag: &str) -> (dir: String)
    ensures
        dir@ == spec_version_dir(tool, tag@),
{
    let mut dir = String::from_str(tool.name());
    dir.append("-");
    dir.append(tag);
    dir
}

/// Path of the executable of release `tag` of `tool`.
pub open spec fn spec_binary_path(tool: Tool, tag: Seq<char>) -> Seq<char> {
    spec_version_dir(tool, tag) + "/"@ + tool.spec_name()
}

/// Path of the executable of release `tag` of `tool`.
pub fn binary_path(tool: Tool, tag: &str) -> (path: String)
    ensures
        path@ == spec_binary_path(tool, tag@),
{
    let mut path = version_dir(tool, tag);
    path.append("/");
    path.append(tool.name());
    path
}

/// A tag with a leading `v` and the same tag without it stand for the same
/// version.
pub proof fn lemma_strip_removes_one_prefix(version: Seq<char>)
    ensures
        spec_strip_version_prefix(seq!['v'] + version) == version,
        version.len() == 0 || version[0] != 'v' ==> spec_strip_version_prefix(version) == version,
{
    let tagged = seq!['v'] + version;
    assert(tagged.subrange(1, tagged.len() as int) =~= version);
}

/// Tags that differ only in a leading `v` give the same archive address.
pub proof fn lemma_download_url_ignores_prefix(
    tool: Tool,
    version: Seq<char>,
    os: Os,
    arch: Architecture,
)
    requires
        version.len() == 0 || version[0] != 'v',
    ensures
        spec_download_url(tool, seq!['v'] + version, os, arch) == spec_download_url(
            tool,
            version,
            os,
            arch,
        ),
{
    lemma_strip_removes_one_prefix(version);
}

/// The archive address ends in the tokens of the platform it is asked for:
/// an underscore, the system's token, an underscore, the architecture's token
/// and `.zip`.
pub proof fn lemma_download_url_names_platform(
    tool: Tool,
    tag: Seq<char>,
    os: Os,
    arch: Architecture,
)
    ensures
        ({
            let url = spec_download_url(tool, tag, os, arch);
            let suffix = spec_platform_suffix(os, arch);
            &&& suffix.len() <= url.len()
            &&& url.subrange(url.len() - suffix.len(), url.len() as int) == suffix
        }),
{
    let url = spec_download_url(tool, tag, os, arch);
    let suffix = spec_platform_suffix(os, arch);
    let head = "https://releases.hashicorp.com/"@ + tool.spec_name() + "/"@
        + spec_strip_version_prefix(tag) + "/"@ + tool.spec_name() + "_"@
        + spec_strip_version_prefix(tag);
    assert(url =~= head + suffix);
    assert((head + suffix).subrange(url.len() - suffix.len(), url.len() as int) =~= suffix);
}

/// A tool's project in the release index is the project of its name in the
/// organisation `hashicorp`.
pub proof fn lemma_repository_names_tool(tool: Tool)
    ensures
        tool.spec_repository() == "hashicorp/"@ + tool.spec_name(),
{
    reveal_strlit("hashicorp/");
    reveal_strlit("terraform-ls");
    reveal_strlit("terraform-mcp-server");
    reveal_strlit("hashicorp/terraform-ls");
    reveal_strlit("hashicorp/terraform-mcp-server");
    assert(tool.spec_repository() =~= "hashicorp/"@ + tool.spec_name());
}

} // verus!
