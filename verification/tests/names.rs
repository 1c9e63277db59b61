use terraform::platform::{Architecture, Os};
use terraform::release::{binary_path, download_url, strip_version_prefix, version_dir, Tool};

#[test]
fn os_tokens() {
    assert_eq!(Os::Mac.token(), "darwin");
    assert_eq!(Os::Linux.token(), "linux");
    assert_eq!(Os::Windows.token(), "windows");
}

#[test]
fn architecture_tokens() {
    assert_eq!(Architecture::Aarch64.token(), "arm64");
    assert_eq!(Architecture::X86.token(), "386");
    assert_eq!(Architecture::X8664.token(), "amd64");
}

#[test]
fn tool_names() {
    assert_eq!(Tool::LanguageServer.name(), "terraform-ls");
    assert_eq!(Tool::ContextServer.name(), "terraform-mcp-server");
    assert_eq!(Tool::LanguageServer.repository(), "hashicorp/terraform-ls");
    assert_eq!(Tool::ContextServer.repository(), "hashicorp/terraform-mcp-server");
    assert_eq!(Tool::LanguageServer.launch_argument(), "serve");
    assert_eq!(Tool::ContextServer.launch_argument(), "stdio");
}

#[test]
fn only_the_language_server_searches_the_path_and_reports() {
    assert!(Tool::LanguageServer.searches_path());
    assert!(!Tool::ContextServer.searches_path());
    assert!(Tool::LanguageServer.reports_status());
    assert!(!Tool::ContextServer.reports_status());
}

#[test]
fn strip_removes_leading_v() {
    assert_eq!(strip_version_prefix("v1.2.3"), "1.2.3");
}

#[test]
fn strip_leaves_plain_version() {
    assert_eq!(strip_version_prefix("1.2.3"), "1.2.3");
}

#[test]
fn strip_takes_one_prefix_only() {
    assert_eq!(strip_version_prefix("vv1.0"), "v1.0");
    assert_eq!(strip_version_prefix("v"), "");
    assert_eq!(strip_version_prefix(""), "");
    assert_eq!(strip_version_prefix("V1.0"), "V1.0");
    assert_eq!(strip_version_prefix("1.0v"), "1.0v");
}

#[test]
fn strip_handles_wide_characters() {
    assert_eq!(strip_version_prefix("vé1"), "é1");
    assert_eq!(strip_version_prefix("év1"), "év1");
}

#[test]
fn download_url_language_server() {
    assert_eq!(
        download_url(Tool::LanguageServer, "v0.36.4", Os::Mac, Architecture::Aarch64),
        "https://releases.hashicorp.com/terraform-ls/0.36.4/terraform-ls_0.36.4_darwin_arm64.zip"
    );
}

#[test]
fn download_url_context_server() {
    assert_eq!(
        download_url(Tool::ContextServer, "0.2.1", Os::Linux, Architecture::X8664),
        "https://releases.hashicorp.com/terraform-mcp-server/0.2.1/terraform-mcp-server_0.2.1_linux_amd64.zip"
    );
}

#[test]
fn download_url_same_with_and_without_prefix() {
    assert_eq!(
        download_url(Tool::LanguageServer, "v1.2.3", Os::Windows, Architecture::X86),
        download_url(Tool::LanguageServer, "1.2.3", Os::Windows, Architecture::X86)
    );
}

#[test]
fn download_url_names_every_platform() {
    let systems = [(Os::Mac, "darwin"), (Os::Linux, "linux"), (Os::Windows, "windows")];
    let machines = [
        (Architecture::Aarch64, "arm64"),
        (Architecture::X86, "386"),
        (Architecture::X8664, "amd64"),
    ];
    for (os, os_token) in systems {
        for (arch, arch_token) in machines {
            let url = download_url(Tool::LanguageServer, "v1.2.3", os, arch);
            assert_eq!(
                url,
                format!(
                    "https://releases.hashicorp.com/terraform-ls/1.2.3/terraform-ls_1.2.3_{}_{}.zip",
                    os_token, arch_token
                )
            );
            let url = download_url(Tool::ContextServer, "v1.2.3", os, arch);
            assert!(url.ends_with(&format!("_{}_{}.zip", os_token, arch_token)));
        }
    }
}

#[test]
fn version_dir_keeps_the_tag_as_it_is() {
    assert_eq!(version_dir(Tool::LanguageServer, "v0.36.4"), "terraform-ls-v0.36.4");
    assert_eq!(version_dir(Tool::ContextServer, "0.2.1"), "terraform-mcp-server-0.2.1");
}

#[test]
fn binary_path_is_inside_version_dir() {
    assert_eq!(
        binary_path(Tool::LanguageServer, "v0.36.4"),
        "terraform-ls-v0.36.4/terraform-ls"
    );
    assert_eq!(
        binary_path(Tool::ContextServer, "0.2.1"),
        "terraform-mcp-server-0.2.1/terraform-mcp-server"
    );
}
