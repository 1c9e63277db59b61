//! Operating systems and processor architectures, and the tokens by which the
//! release server names them in archive file names.

use vstd::prelude::*;

verus! {

/// Operating system the plugin runs on.
#[derive(Clone, Copy, Debug, PartialEq, Eq, Structural)]
pub enum Os {
    Mac,
    Linux,
    Windows,
}

/// Processor architecture the plugin runs on.
#[derive(Clone, Copy, Debug, PartialEq, Eq, Structural)]
pub enum Architecture {
    Aarch64,
    X86,
    X8664,
}

impl Os {
    /// Token of this operating system in an archive's file name.
    pub open spec fn spec_token(self) -> Seq<char> {
        match self {
            Os::Mac => "darwin"@,
            Os::Linux => "linux"@,
            Os::Windows => "windows"@,
        }
    }

    /// Token of this operating system in an archive's file name.
    pub fn token(&self) -> (r: &'static str)
        ensures
            r@ == self.spec_token(),
    {
        match self {
            Os::Mac => "darwin",
            Os::Linux => "linux",
            Os::Windows => "windows",
        }
    }
}

impl Architecture {
    /// Token of this architecture in an archive's file name.
    pub open spec fn spec_token(self) -> Seq<char> {
        match self {
            Architecture::Aarch64 => "arm64"@,
            Architecture::X86 => "386"@,
            Architecture::X8664 => "amd64"@,
        }
    }

    /// Token of this architecture in an archive's file name.
    pub fn token(&self) -> (r: &'static str)
        ensures
            r@ == self.spec_token(),
    {
        match self {
            Architecture::Aarch64 => "arm64",
            Architecture::X86 => "386",
            Architecture::X8664 => "amd64",
        }
    }
}

/// Different operating systems have different tokens, so an archive name
/// identifies the system it was built for.
pub proof fn lemma_os_tokens_distinct(a: Os, b: Os)
    requires
        a.spec_token() == b.spec_token(),
    ensures
        a == b,
{
    reveal_strlit("darwin");
    reveal_strlit("linux");
    reveal_strlit("windows");
    assert("darwin"@.len() == 6 && "linux"@.len() == 5 && "windows"@.len() == 7);
}

/// Different architectures have different tokens.
pub proof fn lemma_architecture_tokens_distinct(a: Architecture, b: Architecture)
    requires
        a.spec_token() == b.spec_token(),
    ensures
        a == b,
{
    reveal_strlit("arm64");
    reveal_strlit("386");
    reveal_strlit("amd64");
    assert("386"@.len() == 3 && "arm64"@.len() == 5);
    assert("arm64"@[1] == 'r' && "amd64"@[1] == 'm');
}

} // verus!
