use mcp_gateway::launch::{
    engine_launch_plan, first_line_trimmed, litellm_launch_plan,
};

#[test]
fn engine_plan_prefers_uv() {
    let plan = engine_launch_plan(Some("/usr/bin/uv".to_string()), None, None).unwrap();
    assert_eq!(plan.program, "/usr/bin/uv");
    assert_eq!(
        plan.args,
        vec!["run", "uvicorn", "src.main:app", "--host", "127.0.0.1", "--port", "8001"]
    );
}

#[test]
fn engine_plan_falls_back_to_python() {
    let plan =
        engine_launch_plan(None, Some("/usr/bin/python3".to_string()), None).unwrap();
    assert_eq!(plan.program, "/usr/bin/python3");
    assert_eq!(
        plan.args,
        vec!["-m", "uvicorn", "src.main:app", "--host", "127.0.0.1", "--port", "8001"]
    );
    let plan = engine_launch_plan(None, None, Some("/usr/bin/python".to_string())).unwrap();
    assert_eq!(plan.program, "/usr/bin/python");
}

#[test]
fn engine_plan_without_any_launcher_errors() {
    let err = engine_launch_plan(None, None, None).unwrap_err();
    assert_eq!(err, "Neither uv nor python found on PATH");
}

#[test]
fn litellm_plan_prefers_uv() {
    let plan = litellm_launch_plan(Some("uv".to_string()), None, None).unwrap();
    assert_eq!(plan.program, "uv");
    assert_eq!(
        plan.args,
        vec!["run", "litellm", "--config", "litellm_config.yaml", "--port", "4000"]
    );
}

#[test]
fn litellm_plan_python_fallback_and_error() {
    let plan = litellm_launch_plan(None, Some("python3".to_string()), None).unwrap();
    assert_eq!(
        plan.args,
        vec!["-m", "litellm", "--config", "litellm_config.yaml", "--port", "4000"]
    );
    let err = litellm_launch_plan(None, None, None).unwrap_err();
    assert_eq!(err, "Neither uv nor python found on PATH");
}

#[test]
fn lookup_output_keeps_first_line_trimmed() {
    assert_eq!(first_line_trimmed(&b"/usr/bin/uv\n".to_vec()), b"/usr/bin/uv".to_vec());
    assert_eq!(
        first_line_trimmed(&b"/usr/bin/uv\r\n/opt/uv\n".to_vec()),
        b"/usr/bin/uv".to_vec()
    );
    assert_eq!(first_line_trimmed(&b"  padded path \n".to_vec()), b"padded path".to_vec());
    assert_eq!(first_line_trimmed(&b"".to_vec()), Vec::<u8>::new());
    assert_eq!(first_line_trimmed(&b"\n/second\n".to_vec()), Vec::<u8>::new());
}
