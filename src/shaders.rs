//! The GLSL programs that draw GUI geometry, one pair per target dialect.
use vstd::prelude::*;
use vstd::string::StringSliceAdditionalSpecFns;

verus! {

/// The shading-language dialect that the GPU context accepts.
#[derive(Copy, Clone, Debug, PartialEq, Eq, Structural)]
pub enum Shaders {
    /// OpenGL 4.0 and later.
    GlSl400,
    /// OpenGL 3.0 and later.
    GlSl130,
    /// OpenGL 2.0 and later.
    GlSl110,
    /// OpenGL ES 3.0 and later.
    GlSlEs300,
    /// OpenGL ES 2.0 and later.
    GlSlEs100,
}

pub const GLSL_400_VERT: &'static str = "#version 400\n\nuniform mat4 matrix;\n\nin vec2 pos;\nin vec2 uv;\nin vec4 col;\n\nout vec2 f_uv;\nout vec4 f_color;\n\nvoid main() {\n  f_uv = uv;\n  f_color = col;\n  gl_Position = matrix * vec4(pos.xy, 0, 1);\n}\n";

pub const GLSL_400_FRAG: &'static str = "#version 400\n\nuniform sampler2D tex;\n\nin vec2 f_uv;\nin vec4 f_color;\n\nout vec4 Target0;\n\nvoid main() {\n  Target0 = f_color * texture(tex, f_uv.st);\n}\n";

pub const GLSL_130_VERT: &'static str = "#version 130\n\nuniform mat4 matrix;\n\nin vec2 pos;\nin vec2 uv;\nin vec4 col;\n\nout vec2 f_uv;\nout vec4 f_color;\n\nvoid main() {\n  f_uv = uv;\n  f_color = col;\n  gl_Position = matrix * vec4(pos.xy, 0, 1);\n}\n";

pub const GLSL_130_FRAG: &'static str = "#version 130\n\nuniform sampler2D tex;\n\nin vec2 f_uv;\nin vec4 f_color;\n\nout vec4 Target0;\n\nvoid main() {\n  Target0 = f_color * texture(tex, f_uv.st);\n}\n";

pub const GLSL_110_VERT: &'static str = "#version 110\n\nuniform mat4 matrix;\n\nattribute vec2 pos;\nattribute vec2 uv;\nattribute vec4 col;\n\nvarying vec2 f_uv;\nvarying vec4 f_color;\n\nvoid main() {\n  f_uv = uv;\n  f_color = col;\n  gl_Position = matrix * vec4(pos.xy, 0, 1);\n}\n";

pub const GLSL_110_FRAG: &'static str = "#version 110\n\nuniform sampler2D tex;\n\nvarying vec2 f_uv;\nvarying vec4 f_color;\n\nvoid main() {\n  gl_FragColor = f_color * texture2D(tex, f_uv.st);\n}\n";

pub const GLSL_ES_300_VERT: &'static str = "#version 300 es\n\nprecision mediump float;\n\nuniform mat4 matrix;\n\nin vec2 pos;\nin vec2 uv;\nin vec4 col;\n\nout vec2 f_uv;\nout vec4 f_color;\n\nvoid main() {\n  f_uv = uv;\n  f_color = col;\n  gl_Position = matrix * vec4(pos.xy, 0, 1);\n}\n";

pub const GLSL_ES_300_FRAG: &'static str = "#version 300 es\n\nprecision mediump float;\n\nuniform sampler2D tex;\n\nin vec2 f_uv;\nin vec4 f_color;\n\nout vec4 Target0;\n\nvoid main() {\n  Target0 = f_color * texture(tex, f_uv.st);\n}\n";

pub const GLSL_ES_100_VERT: &'static str = "#version 100\n\nprecision mediump float;\n\nuniform mat4 matrix;\n\nattribute vec2 pos;\nattribute vec2 uv;\nattribute vec4 col;\n\nvarying vec2 f_uv;\nvarying vec4 f_color;\n\nvoid main() {\n  f_uv = uv;\n  f_color = col;\n  gl_Position = matrix * vec4(pos.xy, 0, 1);\n}\n";

pub const GLSL_ES_100_FRAG: &'static str = "#version 100\n\nprecision mediump float;\n\nuniform sampler2D tex;\n\nvarying vec2 f_uv;\nvarying vec4 f_color;\n\nvoid main() {\n  gl_FragColor = f_color * texture2D(tex, f_uv.st);\n}\n";

/// The vertex shader source of a dialect.
pub open spec fn vertex_source(shaders: Shaders) -> &'static str {
    match shaders {
        Shaders::GlSl400 => GLSL_400_VERT,
        Shaders::GlSl130 => GLSL_130_VERT,
        Shaders::GlSl110 => GLSL_110_VERT,
        Shaders::GlSlEs300 => GLSL_ES_300_VERT,
        Shaders::GlSlEs100 => GLSL_ES_100_VERT,
    }
}

/// The fragment shader source of a dialect.
pub open spec fn fragment_source(shaders: Shaders) -> &'static str {
    match shaders {
        Shaders::GlSl400 => GLSL_400_FRAG,
        Shaders::GlSl130 => GLSL_130_FRAG,
        Shaders::GlSl110 => GLSL_110_FRAG,
        Shaders::GlSlEs300 => GLSL_ES_300_FRAG,
        Shaders::GlSlEs100 => GLSL_ES_100_FRAG,
    }
}

impl Shaders {
    /// The vertex and fragment shader sources of this dialect.
    pub fn get_program_code(self) -> (r: (&'static [u8], &'static [u8]))
        ensures
            r.0@ == vertex_source(self).spec_bytes(),
            r.1@ == fragment_source(self).spec_bytes(),
    {
        match self {
            Shaders::GlSl400 => (GLSL_400_VERT.as_bytes(), GLSL_400_FRAG.as_bytes()),
            Shaders::GlSl130 => (GLSL_130_VERT.as_bytes(), GLSL_130_FRAG.as_bytes()),
            Shaders::GlSl110 => (GLSL_110_VERT.as_bytes(), GLSL_110_FRAG.as_bytes()),
            Shaders::GlSlEs300 => (GLSL_ES_300_VERT.as_bytes(), GLSL_ES_300_FRAG.as_bytes()),
            Shaders::GlSlEs100 => (GLSL_ES_100_VERT.as_bytes(), GLSL_ES_100_FRAG.as_bytes()),
        }
    }
}

} // verus!
