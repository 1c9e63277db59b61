use terraform::extension::{launch_command, Command, ContextServerConfiguration, TerraformExtension};
use terraform::release::Tool;

#[test]
fn language_server_is_launched_with_serve() {
    let command = TerraformExtension::language_server_command(Ok("/usr/bin/terraform-ls".to_string()));
    assert_eq!(
        command,
        Ok(Command {
            command: "/usr/bin/terraform-ls".to_string(),
            args: vec!["serve".to_string()],
            env: vec![],
        })
    );
}

#[test]
fn context_server_is_launched_with_stdio() {
    let command = TerraformExtension::context_server_command(Ok(
        "terraform-mcp-server-0.2.1/terraform-mcp-server".to_string(),
    ));
    assert_eq!(
        command,
        Ok(Command {
            command: "terraform-mcp-server-0.2.1/terraform-mcp-server".to_string(),
            args: vec!["stdio".to_string()],
            env: vec![],
        })
    );
}

#[test]
fn failed_search_gives_no_command() {
    assert_eq!(
        TerraformExtension::language_server_command(Err("no releases found".to_string())),
        Err("no releases found".to_string())
    );
    assert_eq!(
        TerraformExtension::context_server_command(Err("failed to download file: x".to_string())),
        Err("failed to download file: x".to_string())
    );
    assert_eq!(
        launch_command(Tool::ContextServer, Err("e".to_string())),
        Err("e".to_string())
    );
}

#[test]
fn configuration_passes_texts_on() {
    let configuration = TerraformExtension::context_server_configuration(
        "# Install\n".to_string(),
        "{\n  // nothing\n}\n".to_string(),
        Ok("{}".to_string()),
    );
    assert_eq!(
        configuration,
        Ok(Some(ContextServerConfiguration {
            installation_instructions: "# Install\n".to_string(),
            settings_schema: "{}".to_string(),
            default_settings: "{\n  // nothing\n}\n".to_string(),
        }))
    );
}

#[test]
fn configuration_fails_with_schema_error() {
    let configuration = TerraformExtension::context_server_configuration(
        "a".to_string(),
        "b".to_string(),
        Err("key must be a string".to_string()),
    );
    assert_eq!(configuration, Err("key must be a string".to_string()));
}
