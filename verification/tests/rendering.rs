use z3model::render::render_model_text;
use z3model::render::RenderError;

#[test]
fn null_reply_is_a_formatting_failure() {
    assert_eq!(render_model_text(None), Err(RenderError));
}

#[test]
fn well_formed_text_is_rendered_exactly() {
    let reply = Some(b"x -> 3\ny -> false\n".to_vec());
    assert_eq!(render_model_text(reply), Ok("x -> 3\ny -> false\n".to_string()));
}

#[test]
fn empty_text_renders_as_the_empty_string() {
    assert_eq!(render_model_text(Some(Vec::new())), Ok(String::new()));
}

#[test]
fn bytes_that_are_not_text_are_a_formatting_failure() {
    // 0xFF can begin no well-formed UTF-8 sequence.
    assert_eq!(render_model_text(Some(vec![0xFF, 0xFE, 0x20])), Err(RenderError));
}
