use gl_struct::glenum::GLError;
use gl_struct::program::{self, compile_outcome, link_outcome, validation_outcome, DrawMode, ShaderType};

#[test]
fn stage_and_mode_values_match_registry() {
    assert_eq!(program::VERTEX_SHADER, gl::VERTEX_SHADER);
    assert_eq!(program::TESS_CONTROL_SHADER, gl::TESS_CONTROL_SHADER);
    assert_eq!(program::TESS_EVALUATION_SHADER, gl::TESS_EVALUATION_SHADER);
    assert_eq!(program::GEOMETRY_SHADER, gl::GEOMETRY_SHADER);
    assert_eq!(program::FRAGMENT_SHADER, gl::FRAGMENT_SHADER);
    assert_eq!(program::COMPUTE_SHADER, gl::COMPUTE_SHADER);
    assert_eq!(program::POINTS, gl::POINTS);
    assert_eq!(program::LINES, gl::LINES);
    assert_eq!(program::LINE_STRIP, gl::LINE_STRIP);
    assert_eq!(program::LINE_LOOP, gl::LINE_LOOP);
    assert_eq!(program::LINES_ADJACENCY, gl::LINES_ADJACENCY);
    assert_eq!(program::LINE_STRIP_ADJACENCY, gl::LINE_STRIP_ADJACENCY);
    assert_eq!(program::TRIANGLES, gl::TRIANGLES);
    assert_eq!(program::TRIANGLE_STRIP, gl::TRIANGLE_STRIP);
    assert_eq!(program::TRIANGLE_FAN, gl::TRIANGLE_FAN);
    assert_eq!(program::TRIANGLES_ADJACENCY, gl::TRIANGLES_ADJACENCY);
    assert_eq!(program::TRIANGLE_STRIP_ADJACENCY, gl::TRIANGLE_STRIP_ADJACENCY);
}

#[test]
fn stage_and_mode_roundtrip() {
    for t in [ShaderType::Vertex, ShaderType::TessControl, ShaderType::TessEval, ShaderType::Geometry,
        ShaderType::Fragment, ShaderType::Compute]
    {
        assert_eq!(ShaderType::try_from_glenum(t.glenum()), Ok(t));
    }
    assert_eq!(
        ShaderType::try_from_glenum(gl::POINTS),
        Err(GLError::InvalidEnum(gl::POINTS, "ShaderType".to_string()))
    );
    assert_eq!(DrawMode::try_from_glenum(gl::TRIANGLE_FAN), Ok(DrawMode::TriangleFan));
    assert!(DrawMode::try_from_glenum(0x7777).is_err());
}

#[test]
fn vertex_counts_per_mode() {
    assert!(DrawMode::Points.valid_array_size(0));
    assert!(DrawMode::Points.valid_array_size(7));
    assert!(DrawMode::Lines.valid_array_size(4));
    assert!(!DrawMode::Lines.valid_array_size(5));
    assert!(DrawMode::LinesAdjacency.valid_array_size(8));
    assert!(!DrawMode::LinesAdjacency.valid_array_size(6));
    assert!(DrawMode::LineStripAdjacency.valid_array_size(3));
    assert!(!DrawMode::LineStripAdjacency.valid_array_size(2));
    assert!(DrawMode::Triangles.valid_array_size(9));
    assert!(!DrawMode::Triangles.valid_array_size(10));
    assert!(DrawMode::TrianglesAdjacency.valid_array_size(12));
    assert!(!DrawMode::TrianglesAdjacency.valid_array_size(9));
    assert!(DrawMode::TriangleStripAdjacency.valid_array_size(6));
    assert!(!DrawMode::TriangleStripAdjacency.valid_array_size(4));
    assert!(!DrawMode::TriangleStripAdjacency.valid_array_size(7));
    assert!(DrawMode::LineStrip.valid_array_size(2));
    assert!(!DrawMode::TriangleFan.valid_array_size(1));
    assert!(DrawMode::LineLoop.valid_array_size(2));
    assert!(DrawMode::TriangleStrip.valid_array_size(3));
}

#[test]
fn link_validate_and_compile_outcomes() {
    assert_eq!(link_outcome(3, 1, String::new()), Ok(()));
    assert_eq!(link_outcome(3, 0, "bad".to_string()), Err(GLError::ProgramLinking(3, "bad".to_string())));
    assert_eq!(validation_outcome(4, 1, String::new()), Ok(()));
    assert_eq!(
        validation_outcome(4, 0, "no".to_string()),
        Err(GLError::ProgramValidation(4, "no".to_string()))
    );
    assert_eq!(compile_outcome(5, ShaderType::Fragment, 1, String::new()), Ok(()));
    assert_eq!(
        compile_outcome(5, ShaderType::Fragment, 0, "x".to_string()),
        Err(GLError::ShaderCompilation(5, ShaderType::Fragment, "x".to_string()))
    );
}
