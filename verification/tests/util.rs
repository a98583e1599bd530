use miy::types::{Bool, Shader};
use miy::util::{compile_outcome, ShaderError};

#[test]
fn compile_outcome_hands_the_shader_on() {
    let shader = Shader::from_raw(17);
    let r = compile_outcome(shader, Bool::True, String::new());
    assert_eq!(r.unwrap(), shader);
}

#[test]
fn compile_outcome_reports_the_info_log() {
    let shader = Shader::from_raw(17);
    let r = compile_outcome(shader, Bool::False, "syntax error".to_string());
    let e = r.unwrap_err();
    assert!(matches!(e, ShaderError::FailedToCompile(ref log) if log == "syntax error"));
}
