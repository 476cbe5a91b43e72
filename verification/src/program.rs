//! Shader stages and primitive kinds, and which vertex counts make whole primitives.

use vstd::prelude::*;
use crate::glenum::{GLError, GLenum, GLint, GLuint};

verus! {

pub const VERTEX_SHADER: GLenum = 0x8B31;
pub const TESS_CONTROL_SHADER: GLenum = 0x8E88;
pub const TESS_EVALUATION_SHADER: GLenum = 0x8E87;
pub const GEOMETRY_SHADER: GLenum = 0x8DD9;
pub const FRAGMENT_SHADER: GLenum = 0x8B30;
pub const COMPUTE_SHADER: GLenum = 0x91B9;
pub const POINTS: GLenum = 0x0000;
pub const LINES: GLenum = 0x0001;
pub const LINE_STRIP: GLenum = 0x0003;
pub const LINE_LOOP: GLenum = 0x0002;
pub const LINES_ADJACENCY: GLenum = 0x000A;
pub const LINE_STRIP_ADJACENCY: GLenum = 0x000B;
pub const TRIANGLES: GLenum = 0x0004;
pub const TRIANGLE_STRIP: GLenum = 0x0005;
pub const TRIANGLE_FAN: GLenum = 0x0006;
pub const TRIANGLES_ADJACENCY: GLenum = 0x000C;
pub const TRIANGLE_STRIP_ADJACENCY: GLenum = 0x000D;

/// The stages of a shader program.
#[allow(non_camel_case_types)]
#[derive(Clone, Copy, PartialEq, Eq, Structural, Hash, Debug)]
pub enum ShaderType {
    Vertex,
    TessControl,
    TessEval,
    Geometry,
    Fragment,
    Compute,
}

impl ShaderType {
    /// The `GLenum` value naming each variant.
    pub open spec fn spec_glenum(self) -> GLenum {
        match self {
            ShaderType::Vertex => VERTEX_SHADER,
            ShaderType::TessControl => TESS_CONTROL_SHADER,
            ShaderType::TessEval => TESS_EVALUATION_SHADER,
            ShaderType::Geometry => GEOMETRY_SHADER,
            ShaderType::Fragment => FRAGMENT_SHADER,
            ShaderType::Compute => COMPUTE_SHADER,
        }
    }

    /// The variant named by a `GLenum` value, if any.
    pub open spec fn spec_from_glenum(e: GLenum) -> Option<ShaderType> {
        if e == VERTEX_SHADER {
            Some(ShaderType::Vertex)
        } else if e == TESS_CONTROL_SHADER {
            Some(ShaderType::TessControl)
        } else if e == TESS_EVALUATION_SHADER {
            Some(ShaderType::TessEval)
        } else if e == GEOMETRY_SHADER {
            Some(ShaderType::Geometry)
        } else if e == FRAGMENT_SHADER {
            Some(ShaderType::Fragment)
        } else if e == COMPUTE_SHADER {
            Some(ShaderType::Compute)
        } else {
            None
        }
    }

    /// The `GLenum` naming this value.
    pub fn glenum(self) -> (e: GLenum)
        ensures
            e == self.spec_glenum(),
    {
        match self {
            ShaderType::Vertex => VERTEX_SHADER,
            ShaderType::TessControl => TESS_CONTROL_SHADER,
            ShaderType::TessEval => TESS_EVALUATION_SHADER,
            ShaderType::Geometry => GEOMETRY_SHADER,
            ShaderType::Fragment => FRAGMENT_SHADER,
            ShaderType::Compute => COMPUTE_SHADER,
        }
    }

    /// The value named by `e`, or `GLError::InvalidEnum(e, "ShaderType")` when `e` names none.
    pub fn try_from_glenum(e: GLenum) -> (r: Result<ShaderType, GLError>)
        ensures
            match ShaderType::spec_from_glenum(e) {
                Some(t) => r == Ok::<Self, GLError>(t),
                None => r matches Err(GLError::InvalidEnum(v, s)) && v == e && s@ == "ShaderType"@,
            },
    {
        if e == VERTEX_SHADER {
            Ok(ShaderType::Vertex)
        } else if e == TESS_CONTROL_SHADER {
            Ok(ShaderType::TessControl)
        } else if e == TESS_EVALUATION_SHADER {
            Ok(ShaderType::TessEval)
        } else if e == GEOMETRY_SHADER {
            Ok(ShaderType::Geometry)
        } else if e == FRAGMENT_SHADER {
            Ok(ShaderType::Fragment)
        } else if e == COMPUTE_SHADER {
            Ok(ShaderType::Compute)
        } else {
            Err(GLError::InvalidEnum(e, "ShaderType".to_owned()))
        }
    }

    /// Reading a value back from its `GLenum` gives the value, and only the
    /// `GLenum` of a value reads back as that value.
    pub proof fn lemma_glenum_roundtrip(t: ShaderType, e: GLenum)
        ensures
            ShaderType::spec_from_glenum(t.spec_glenum()) == Some(t),
            ShaderType::spec_from_glenum(e) == Some(t) ==> t.spec_glenum() == e,
    {
    }
}

/// The kinds of primitives that vertices are assembled into.
#[allow(non_camel_case_types)]
#[derive(Clone, Copy, PartialEq, Eq, Structural, Hash, Debug)]
pub enum DrawMode {
    Points,
    Lines,
    LineStrip,
    LineLoop,
    LinesAdjacency,
    LineStripAdjacency,
    Triangles,
    TriangleStrip,
    TriangleFan,
    TrianglesAdjacency,
    TriangleStripAdjacency,
}

impl DrawMode {
    /// The `GLenum` value naming each variant.
    pub open spec fn spec_glenum(self) -> GLenum {
        match self {
            DrawMode::Points => POINTS,
            DrawMode::Lines => LINES,
            DrawMode::LineStrip => LINE_STRIP,
            DrawMode::LineLoop => LINE_LOOP,
            DrawMode::LinesAdjacency => LINES_ADJACENCY,
            DrawMode::LineStripAdjacency => LINE_STRIP_ADJACENCY,
            DrawMode::Triangles => TRIANGLES,
            DrawMode::TriangleStrip => TRIANGLE_STRIP,
            DrawMode::TriangleFan => TRIANGLE_FAN,
            DrawMode::TrianglesAdjacency => TRIANGLES_ADJACENCY,
            DrawMode::TriangleStripAdjacency => TRIANGLE_STRIP_ADJACENCY,
        }
    }

    /// The variant named by a `GLenum` value, if any.
    pub open spec fn spec_from_glenum(e: GLenum) -> Option<DrawMode> {
        if e == POINTS {
            Some(DrawMode::Points)
        } else if e == LINES {
            Some(DrawMode::Lines)
        } else if e == LINE_STRIP {
            Some(DrawMode::LineStrip)
        } else if e == LINE_LOOP {
            Some(DrawMode::LineLoop)
        } else if e == LINES_ADJACENCY {
            Some(DrawMode::LinesAdjacency)
        } else if e == LINE_STRIP_ADJACENCY {
            Some(DrawMode::LineStripAdjacency)
        } else if e == TRIANGLES {
            Some(DrawMode::Triangles)
        } else if e == TRIANGLE_STRIP {
            Some(DrawMode::TriangleStrip)
        } else if e == TRIANGLE_FAN {
            Some(DrawMode::TriangleFan)
        } else if e == TRIANGLES_ADJACENCY {
            Some(DrawMode::TrianglesAdjacency)
        } else if e == TRIANGLE_STRIP_ADJACENCY {
            Some(DrawMode::TriangleStripAdjacency)
        } else {
            None
        }
    }

    /// The `GLenum` naming this value.
    pub fn glenum(self) -> (e: GLenum)
        ensures
            e == self.spec_glenum(),
    {
        match self {
            DrawMode::Points => POINTS,
            DrawMode::Lines => LINES,
            DrawMode::LineStrip => LINE_STRIP,
            DrawMode::LineLoop => LINE_LOOP,
            DrawMode::LinesAdjacency => LINES_ADJACENCY,
            DrawMode::LineStripAdjacency => LINE_STRIP_ADJACENCY,
            DrawMode::Triangles => TRIANGLES,
            DrawMode::TriangleStrip => TRIANGLE_STRIP,
            DrawMode::TriangleFan => TRIANGLE_FAN,
            DrawMode::TrianglesAdjacency => TRIANGLES_ADJACENCY,
            DrawMode::TriangleStripAdjacency => TRIANGLE_STRIP_ADJACENCY,
        }
    }

    /// The value named by `e`, or `GLError::InvalidEnum(e, "DrawMode")` when `e` names none.
    pub fn try_from_glenum(e: GLenum) -> (r: Result<DrawMode, GLError>)
        ensures
            match DrawMode::spec_from_glenum(e) {
                Some(t) => r == Ok::<Self, GLError>(t),
                None => r matches Err(GLError::InvalidEnum(v, s)) && v == e && s@ == "DrawMode"@,
            },
    {
        if e == POINTS {
            Ok(DrawMode::Points)
        } else if e == LINES {
            Ok(DrawMode::Lines)
        } else if e == LINE_STRIP {
            Ok(DrawMode::LineStrip)
        } else if e == LINE_LOOP {
            Ok(DrawMode::LineLoop)
        } else if e == LINES_ADJACENCY {
            Ok(DrawMode::LinesAdjacency)
        } else if e == LINE_STRIP_ADJACENCY {
            Ok(DrawMode::LineStripAdjacency)
        } else if e == TRIANGLES {
            Ok(DrawMode::Triangles)
        } else if e == TRIANGLE_STRIP {
            Ok(DrawMode::TriangleStrip)
        } else if e == TRIANGLE_FAN {
            Ok(DrawMode::TriangleFan)
        } else if e == TRIANGLES_ADJACENCY {
            Ok(DrawMode::TrianglesAdjacency)
        } else if e == TRIANGLE_STRIP_ADJACENCY {
            Ok(DrawMode::TriangleStripAdjacency)
        } else {
            Err(GLError::InvalidEnum(e, "DrawMode".to_owned()))
        }
    }

    /// Reading a value back from its `GLenum` gives the value, and only the
    /// `GLenum` of a value reads back as that value.
    pub proof fn lemma_glenum_roundtrip(t: DrawMode, e: GLenum)
        ensures
            DrawMode::spec_from_glenum(t.spec_glenum()) == Some(t),
            DrawMode::spec_from_glenum(e) == Some(t) ==> t.spec_glenum() == e,
    {
    }
}

/// Whether `count` vertices make whole primitives of kind `mode`.
pub open spec fn spec_valid_array_size(mode: DrawMode, count: usize) -> bool {
    match mode {
        DrawMode::Points => true,
        DrawMode::Lines => count % 2 == 0,
        DrawMode::LinesAdjacency => count % 4 == 0,
        DrawMode::LineStripAdjacency => count > 2,
        DrawMode::Triangles => count % 3 == 0,
        DrawMode::TrianglesAdjacency => count % 6 == 0,
        DrawMode::TriangleStripAdjacency => count > 4 && count % 2 == 0,
        _ => count > 1,
    }
}

impl DrawMode {
    /// Whether `s` vertices make whole primitives of this kind: pairs for lines, groups of
    /// four for lines with adjacency, triples for triangles, groups of six for triangles
    /// with adjacency, and enough vertices for one primitive of the strips, loops and fans.
    pub fn valid_array_size(self, s: usize) -> (r: bool)
        ensures
            r == spec_valid_array_size(self, s),
    {
        proof {
            assert((s & 1 == 0) == (s % 2 == 0)) by (bit_vector);
            assert((s & 3 == 0) == (s % 4 == 0)) by (bit_vector);
        }
        match self {
            DrawMode::Points => true,
            DrawMode::Lines => (s & 1) == 0,
            DrawMode::LinesAdjacency => (s & 3) == 0,
            DrawMode::LineStripAdjacency => s > 2,
            DrawMode::Triangles => (s % 3) == 0,
            DrawMode::TrianglesAdjacency => (s % 6) == 0,
            DrawMode::TriangleStripAdjacency => s > 4 && (s & 1) == 0,
            _ => s > 1,
        }
    }
}

/// Whether `count` vertices are a whole number of groups of `per` vertices.
pub open spec fn whole_groups(count: usize, per: int) -> bool {
    exists|k: int| 0 <= k && count == #[trigger] (k * per)
}

proof fn lemma_whole_groups(count: usize, per: int)
    requires
        per > 0,
    ensures
        whole_groups(count, per) <==> (count as int) % per == 0,
{
    if (count as int) % per == 0 {
        vstd::arithmetic::div_mod::lemma_fundamental_div_mod(count as int, per);
        let k = count as int / per;
        vstd::arithmetic::div_mod::lemma_div_pos_is_pos(count as int, per);
        assert(count == k * per) by (nonlinear_arith)
            requires count == per * (count as int / per) + (count as int) % per, (count as int) % per == 0, k == count as int / per;
    }
    if whole_groups(count, per) {
        let k = choose|k: int| 0 <= k && count == #[trigger] (k * per);
        vstd::arithmetic::div_mod::lemma_mod_multiples_basic(k, per);
    }
}

/// Which vertex counts draw whole primitives: any number of points; pairs for lines, groups
/// of four for lines with adjacency, triples for triangles and groups of six for triangles
/// with adjacency; at least three vertices for a line strip with adjacency, an even number
/// of at least six for a triangle strip with adjacency, and at least two for the other
/// strips, loops and fans.
pub proof fn lemma_valid_array_size_whole_primitives(s: usize)
    ensures
        spec_valid_array_size(DrawMode::Points, s),
        spec_valid_array_size(DrawMode::Lines, s) <==> whole_groups(s, 2),
        spec_valid_array_size(DrawMode::LinesAdjacency, s) <==> whole_groups(s, 4),
        spec_valid_array_size(DrawMode::Triangles, s) <==> whole_groups(s, 3),
        spec_valid_array_size(DrawMode::TrianglesAdjacency, s) <==> whole_groups(s, 6),
        spec_valid_array_size(DrawMode::LineStripAdjacency, s) <==> s >= 3,
        spec_valid_array_size(DrawMode::TriangleStripAdjacency, s) <==> s >= 6 && whole_groups(s, 2),
        spec_valid_array_size(DrawMode::LineStrip, s) <==> s >= 2,
        spec_valid_array_size(DrawMode::LineLoop, s) <==> s >= 2,
        spec_valid_array_size(DrawMode::TriangleStrip, s) <==> s >= 2,
        spec_valid_array_size(DrawMode::TriangleFan, s) <==> s >= 2,
{
    lemma_whole_groups(s, 2);
    lemma_whole_groups(s, 3);
    lemma_whole_groups(s, 4);
    lemma_whole_groups(s, 6);
}

/// The outcome of linking program `id`, from the link status the context reports (zero for
/// failure) and the program's info log: the log in a `ProgramLinking` error on failure.
pub fn link_outcome(id: GLuint, status: GLint, log: String) -> (r: Result<(), GLError>)
    ensures
        status != 0 ==> r is Ok,
        status == 0 ==> r == Err::<(), GLError>(GLError::ProgramLinking(id, log)),
{
    if status == 0 {
        Err(GLError::ProgramLinking(id, log))
    } else {
        Ok(())
    }
}

/// The outcome of validating program `id`, from the validation status the context reports
/// (zero for failure) and the program's info log: the log in a `ProgramValidation` error on
/// failure.
pub fn validation_outcome(id: GLuint, status: GLint, log: String) -> (r: Result<(), GLError>)
    ensures
        status != 0 ==> r is Ok,
        status == 0 ==> r == Err::<(), GLError>(GLError::ProgramValidation(id, log)),
{
    if status == 0 {
        Err(GLError::ProgramValidation(id, log))
    } else {
        Ok(())
    }
}

/// The outcome of compiling shader `id` of stage `ty`, from the compile status the context
/// reports (zero for failure) and the shader's info log: the log in a `ShaderCompilation`
/// error on failure.
pub fn compile_outcome(id: GLuint, ty: ShaderType, status: GLint, log: String) -> (r: Result<(), GLError>)
    ensures
        status != 0 ==> r is Ok,
        status == 0 ==> r == Err::<(), GLError>(GLError::ShaderCompilation(id, ty, log)),
{
    if status == 0 {
        Err(GLError::ShaderCompilation(id, ty, log))
    } else {
        Ok(())
    }
}

} // verus!
