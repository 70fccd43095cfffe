use yadt::capture::{capture_stream, LineCapture};
use yadt::errors::{PipelineError, Stage};

fn lines(v: &[&str]) -> Vec<String> {
    v.iter().map(|s| s.to_string()).collect()
}

#[test]
fn captures_last_line_of_stream() {
    let (echoes, result) = capture_stream(lines(&["a", "b", "c"]), Stage::LayeredBuild);
    assert_eq!(echoes, lines(&[">>> a", ">>> b", ">>> c"]));
    assert_eq!(result, Ok("c".to_string()));
}

#[test]
fn captures_single_line_stream() {
    let (echoes, result) = capture_stream(lines(&["only"]), Stage::Acquisition);
    assert_eq!(echoes, lines(&[">>> only"]));
    assert_eq!(result, Ok("only".to_string()));
}

#[test]
fn forwards_lines_in_order() {
    let mut cap = LineCapture::new();
    assert_eq!(cap.push_line("step 1".to_string()), ">>> step 1");
    assert_eq!(cap.push_line("step 2".to_string()), ">>> step 2");
    assert_eq!(cap.push_line("step 3".to_string()), ">>> step 3");
    assert_eq!(cap.finish(Stage::Acquisition), Ok("step 3".to_string()));
}

#[test]
fn empty_stream_fails_with_empty_output_error() {
    let (echoes, result) = capture_stream(Vec::new(), Stage::Acquisition);
    assert!(echoes.is_empty());
    assert_eq!(
        result,
        Err(PipelineError::BuildOutputEmpty(Stage::Acquisition))
    );
}

#[test]
fn fresh_capture_fails_as_empty() {
    let cap = LineCapture::new();
    assert_eq!(
        cap.finish(Stage::LayeredBuild),
        Err(PipelineError::BuildOutputEmpty(Stage::LayeredBuild))
    );
}

fn capture_of(v: &[&str]) -> LineCapture {
    let mut cap = LineCapture::new();
    for line in v {
        cap.push_line(line.to_string());
    }
    cap
}

#[test]
fn acquisition_skips_trailing_empty_lines() {
    let cap = capture_of(&["step 1", "sha256:abc", "", ""]);
    assert_eq!(
        cap.finish_non_empty(Stage::Acquisition),
        Ok("sha256:abc".to_string())
    );
}

#[test]
fn acquisition_takes_last_line_when_non_empty() {
    let cap = capture_of(&["", "step 1", "sha256:abc"]);
    assert_eq!(
        cap.finish_non_empty(Stage::Acquisition),
        Ok("sha256:abc".to_string())
    );
    assert_eq!(cap.finish(Stage::Acquisition), Ok("sha256:abc".to_string()));
}

#[test]
fn acquisition_fails_on_only_empty_lines() {
    let cap = capture_of(&["", "", ""]);
    assert_eq!(
        cap.finish_non_empty(Stage::Acquisition),
        Err(PipelineError::BuildOutputEmpty(Stage::Acquisition))
    );
}

#[test]
fn acquisition_fails_on_zero_lines() {
    let cap = LineCapture::new();
    assert_eq!(
        cap.finish_non_empty(Stage::Acquisition),
        Err(PipelineError::BuildOutputEmpty(Stage::Acquisition))
    );
}

#[test]
fn error_messages_name_the_stage() {
    assert_eq!(
        PipelineError::BuildOutputEmpty(Stage::LayeredBuild).message(),
        "layered build: build produced no output lines, no image identifier captured"
    );
    assert_eq!(
        PipelineError::PathResolution(Stage::Launch).message(),
        "interactive launch: path could not be resolved to an absolute path"
    );
    assert_eq!(
        PipelineError::BuildProcess(Stage::Acquisition).message(),
        "image acquisition: build subprocess could not be spawned or its handles taken"
    );
    assert_eq!(
        PipelineError::LineDecode(Stage::LayeredBuild).message(),
        "layered build: a line of subprocess output was not valid text"
    );
    assert_eq!(
        PipelineError::ConfigParse.message(),
        "config load: malformed configuration file"
    );
}
