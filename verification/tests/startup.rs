use raytrace::error::RenderError;
use raytrace::startup::{build_outcome, loaded_source};

#[test]
fn source_that_was_read_is_passed_on() {
    let text = String::from("void main() {}");
    assert_eq!(
        loaded_source(String::from("src/kernels/intersect.glsl"), Some(text.clone())),
        Ok(text)
    );
    assert_eq!(loaded_source(String::from("empty.glsl"), Some(String::new())), Ok(String::new()));
}

#[test]
fn missing_source_is_an_io_error_with_the_path() {
    assert_eq!(
        loaded_source(String::from("src/shaders/basic_vert.glsl"), None),
        Err(RenderError::Io { path: String::from("src/shaders/basic_vert.glsl") })
    );
}

#[test]
fn clean_build_hands_out_the_program() {
    assert_eq!(build_outcome(Ok(7u32)), Ok(7u32));
    assert_eq!(build_outcome(Ok(String::from("kernel"))), Ok(String::from("kernel")));
}

#[test]
fn rejected_build_is_a_compile_error_with_the_diagnostic() {
    let diagnostic = String::from("0:3(1): error: syntax error, unexpected '}'");
    assert_eq!(
        build_outcome::<u32>(Err(diagnostic.clone())),
        Err(RenderError::Compile { diagnostic })
    );
}
