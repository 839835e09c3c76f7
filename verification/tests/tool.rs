use cvd2img::error::Error;
use cvd2img::tool::{check_tool, tool_environment, ExitOutcome, Launch, Location, Tool};

#[test]
fn tools_live_under_bin() {
    assert_eq!(Tool::Simg2img.name(), "simg2img");
    assert_eq!(Tool::Mkenvimage.name(), "mkenvimage_slim");
    assert_eq!(Tool::Avbtool.name(), "avbtool");
    assert_eq!(Tool::Simg2img.program(), Location::Component("bin/simg2img"));
    assert_eq!(Tool::Mkenvimage.program(), Location::Component("bin/mkenvimage_slim"));
    assert_eq!(Tool::Avbtool.program(), Location::Component("bin/avbtool"));
}

#[test]
fn tools_run_with_three_variables() {
    assert_eq!(tool_environment(), vec!["HOME", "ANDROID_TZDATA_ROOT", "ANDROID_ROOT"]);
}

#[test]
fn successful_run_passes() {
    let outcome = ExitOutcome {
        success: true,
        exit_code: Some(0),
        stdout: b"done".to_vec(),
        stderr: Vec::new(),
    };
    assert_eq!(check_tool(Tool::Avbtool, Launch::Exited(outcome)), Ok(()));
}

#[test]
fn missing_tool_is_reported_as_such() {
    assert_eq!(
        check_tool(Tool::Simg2img, Launch::NotFound),
        Err(Error::ToolNotFound { tool: Tool::Simg2img })
    );
}

#[test]
fn failed_run_is_reported_with_code_and_output() {
    let outcome = ExitOutcome {
        success: false,
        exit_code: Some(3),
        stdout: b"out".to_vec(),
        stderr: b"bad key".to_vec(),
    };
    assert_eq!(
        check_tool(Tool::Avbtool, Launch::Exited(outcome)),
        Err(Error::ToolFailed {
            tool: Tool::Avbtool,
            exit_code: Some(3),
            stdout: b"out".to_vec(),
            stderr: b"bad key".to_vec(),
        })
    );
}

#[test]
fn run_ended_from_outside_is_a_failure_without_code() {
    let outcome =
        ExitOutcome { success: false, exit_code: None, stdout: Vec::new(), stderr: Vec::new() };
    assert_eq!(
        check_tool(Tool::Mkenvimage, Launch::Exited(outcome)),
        Err(Error::ToolFailed {
            tool: Tool::Mkenvimage,
            exit_code: None,
            stdout: Vec::new(),
            stderr: Vec::new(),
        })
    );
}
