use vstd::prelude::*;

use crate::kind::FragmentBody;
use crate::kind::ProgramKind;

verus! {

/// Source a uniform value is read from at draw time.
///
/// The interpreter is handed a perceptual color (hue, lightness, chroma,
/// alpha fields), a resolved RGBA fallback color, a previous resolved RGBA
/// fallback color, and a layout width; each variant names the scalar or the
/// slice of those inputs that one uniform upload carries.
#[derive(Clone, Copy, Debug, PartialEq, Eq, Structural)]
pub enum UniformValue {
    /// The layout width argument, one scalar, uploaded as `width`.
    WidthInput,
    /// The color's hue field, one scalar, uploaded as `hue`.
    ColorHue,
    /// The color's lightness field, one scalar, uploaded as `lightness`.
    ColorLightness,
    /// The color's chroma field, one scalar, uploaded as `chroma`.
    ColorChroma,
    /// The first three components of the fallback color, uploaded as `color`.
    FallbackRgb,
    /// All four components of the fallback color, uploaded as `color`.
    FallbackRgba,
    /// All four components of the previous fallback color, uploaded as
    /// `color`.
    PreviousFallbackRgba,
}

impl UniformValue {
    /// GLSL uniform name the value is uploaded under.
    pub open spec fn spec_name(self) -> Seq<char> {
        match self {
            UniformValue::WidthInput => "width"@,
            UniformValue::ColorHue => "hue"@,
            UniformValue::ColorLightness => "lightness"@,
            UniformValue::ColorChroma => "chroma"@,
            UniformValue::FallbackRgb => "color"@,
            UniformValue::FallbackRgba => "color"@,
            UniformValue::PreviousFallbackRgba => "color"@,
        }
    }

    /// GLSL uniform name the value is uploaded under.
    pub fn name(&self) -> (r: &'static str)
        ensures
            r@ == self.spec_name(),
    {
        match self {
            UniformValue::WidthInput => "width",
            UniformValue::ColorHue => "hue",
            UniformValue::ColorLightness => "lightness",
            UniformValue::ColorChroma => "chroma",
            UniformValue::FallbackRgb => "color",
            UniformValue::FallbackRgba => "color",
            UniformValue::PreviousFallbackRgba => "color",
        }
    }

    /// How many float components the upload carries.
    pub open spec fn spec_component_count(self) -> u32 {
        match self {
            UniformValue::WidthInput => 1,
            UniformValue::ColorHue => 1,
            UniformValue::ColorLightness => 1,
            UniformValue::ColorChroma => 1,
            UniformValue::FallbackRgb => 3,
            UniformValue::FallbackRgba => 4,
            UniformValue::PreviousFallbackRgba => 4,
        }
    }

    /// How many float components the upload carries.
    pub fn component_count(&self) -> (r: u32)
        ensures
            r == self.spec_component_count(),
    {
        match self {
            UniformValue::WidthInput => 1,
            UniformValue::ColorHue => 1,
            UniformValue::ColorLightness => 1,
            UniformValue::ColorChroma => 1,
            UniformValue::FallbackRgb => 3,
            UniformValue::FallbackRgba => 4,
            UniformValue::PreviousFallbackRgba => 4,
        }
    }
}

/// Primitive topology of the quad draw.
#[derive(Clone, Copy, Debug, PartialEq, Eq, Structural)]
pub enum Topology {
    /// A strip of triangles; four vertices make a full-screen quad.
    TriangleStrip,
}

/// One step of the per-frame draw pass, in order.
#[derive(Clone, Copy, Debug, PartialEq, Eq, Structural)]
pub enum PaintCommand {
    /// Activate the kind's compiled program.
    UseProgram,
    /// Upload one uniform value.
    SetUniform(UniformValue),
    /// Bind the quad's vertex-array handle.
    BindVertexArray,
    /// Issue the draw: `count` vertices starting at `first`.
    Draw { topology: Topology, first: u32, count: u32 },
}

/// Shader stage of a program's vertex + fragment pair.
#[derive(Clone, Copy, Debug, PartialEq, Eq, Structural)]
pub enum ShaderStage {
    Vertex,
    Fragment,
}

/// Source text a shader stage is compiled from. The interpreter owns the
/// actual GLSL assets; these are compiled-in constants, never runtime
/// configuration.
#[derive(Clone, Copy, Debug, PartialEq, Eq, Structural)]
pub enum SourceText {
    /// The shared vertex shader whose hardcoded positions span a full-screen
    /// quad; identical across all kinds.
    QuadVertex,
    /// The shared function library concatenated with one kind-specific
    /// fragment body.
    FragmentWithLibrary(FragmentBody),
}

/// One step of program construction, in order.
///
/// A `CompileShader` step stands for creating the stage object, handing it
/// its source, compiling, and checking the compile status; `LinkProgram`
/// likewise checks the link status. A failed status check is fatal to the
/// process, with the compiler or linker log as the diagnostic: shader text
/// is a compiled-in constant, so a failure is a build defect, never a
/// runtime condition to recover from.
#[derive(Clone, Copy, Debug, PartialEq, Eq, Structural)]
pub enum SetupCommand {
    /// Allocate the GPU program object.
    CreateProgram,
    /// Compile one stage from the given source; fatal on failure.
    CompileShader { stage: ShaderStage, source: SourceText },
    /// Attach a compiled stage to the program.
    AttachShader { stage: ShaderStage },
    /// Link the attached stages; fatal on failure.
    LinkProgram,
    /// Detach a stage from the linked program.
    DetachShader { stage: ShaderStage },
    /// Delete a stage object; it is not needed after the link.
    DeleteShader { stage: ShaderStage },
    /// Allocate the empty vertex-array object for the quad draw. No vertex
    /// buffer is populated: the vertex data lives in the shared vertex
    /// shader.
    CreateVertexArray,
}

/// One step of teardown.
#[derive(Clone, Copy, Debug, PartialEq, Eq, Structural)]
pub enum TeardownCommand {
    /// Release the GPU program handle.
    DeleteProgram,
    /// Release the quad's vertex-array handle.
    DeleteVertexArray,
}

impl ProgramKind {
    /// Kind-specific uniform writes beyond `width`: the dispatch table that
    /// is this component's entire algorithm.
    pub open spec fn spec_kind_uniform_writes(self) -> Seq<UniformValue> {
        match self {
            ProgramKind::Picker => seq![UniformValue::ColorHue],
            ProgramKind::Picker2 => seq![UniformValue::ColorLightness],
            ProgramKind::Hue => seq![],
            ProgramKind::Lightness => seq![UniformValue::ColorHue, UniformValue::ColorChroma],
            ProgramKind::Chroma => seq![UniformValue::ColorHue, UniformValue::ColorLightness],
            ProgramKind::Alpha => seq![UniformValue::FallbackRgb],
            ProgramKind::FinalPrevious => seq![UniformValue::PreviousFallbackRgba],
            ProgramKind::Final => seq![UniformValue::FallbackRgba],
        }
    }

    /// Uniform writes of one draw pass, in order: `width` unconditionally
    /// first for every kind, then the kind-specific subset.
    pub open spec fn spec_uniform_writes(self) -> Seq<UniformValue> {
        seq![UniformValue::WidthInput] + self.spec_kind_uniform_writes()
    }

    /// Compute the uniform writes of one draw pass, in upload order.
    pub fn uniform_writes(&self) -> (r: Vec<UniformValue>)
        ensures
            r@ == self.spec_uniform_writes(),
    {
        let mut v: Vec<UniformValue> = Vec::new();
        v.push(UniformValue::WidthInput);
        match self {
            ProgramKind::Picker => {
                v.push(UniformValue::ColorHue);
            },
            ProgramKind::Picker2 => {
                v.push(UniformValue::ColorLightness);
            },
            ProgramKind::Hue => {},
            ProgramKind::Lightness => {
                v.push(UniformValue::ColorHue);
                v.push(UniformValue::ColorChroma);
            },
            ProgramKind::Chroma => {
                v.push(UniformValue::ColorHue);
                v.push(UniformValue::ColorLightness);
            },
            ProgramKind::Alpha => {
                v.push(UniformValue::FallbackRgb);
            },
            ProgramKind::FinalPrevious => {
                v.push(UniformValue::PreviousFallbackRgba);
            },
            ProgramKind::Final => {
                v.push(UniformValue::FallbackRgba);
            },
        }
        proof {
            assert(v@ =~= self.spec_uniform_writes());
        }
        v
    }

    /// The full draw pass: activate the program, upload the uniforms, bind
    /// the quad, and issue one four-vertex triangle-strip draw.
    pub open spec fn spec_paint_commands(self) -> Seq<PaintCommand> {
        seq![PaintCommand::UseProgram]
            + self.spec_uniform_writes().map_values(|u: UniformValue| PaintCommand::SetUniform(u))
            + seq![
                PaintCommand::BindVertexArray,
                PaintCommand::Draw { topology: Topology::TriangleStrip, first: 0, count: 4 },
            ]
    }

    /// Compute the full draw pass for this kind, in execution order.
    pub fn paint_commands(&self) -> (r: Vec<PaintCommand>)
        ensures
            r@ == self.spec_paint_commands(),
    {
        let mut v: Vec<PaintCommand> = Vec::new();
        v.push(PaintCommand::UseProgram);
        let writes = self.uniform_writes();
        let mut i: usize = 0;
        while i < writes.len()
            invariant
                i <= writes@.len(),
                writes@ == self.spec_uniform_writes(),
                v@ =~= seq![PaintCommand::UseProgram] + writes@.subrange(0, i as int)
                    .map_values(|u: UniformValue| PaintCommand::SetUniform(u)),
            decreases writes@.len() - i,
        {
            v.push(PaintCommand::SetUniform(writes[i]));
            i += 1;
            proof {
                assert(writes@.subrange(0, i as int)
                    .map_values(|u: UniformValue| PaintCommand::SetUniform(u)) =~= writes@
                    .subrange(0, i as int - 1)
                    .map_values(|u: UniformValue| PaintCommand::SetUniform(u))
                    .push(PaintCommand::SetUniform(writes@[i as int - 1])));
            }
        }
        v.push(PaintCommand::BindVertexArray);
        v.push(PaintCommand::Draw { topology: Topology::TriangleStrip, first: 0, count: 4 });
        proof {
            assert(writes@.subrange(0, writes@.len() as int) =~= writes@);
            assert(v@ =~= self.spec_paint_commands());
        }
        v
    }

    /// Construction of this kind's program: allocate, compile the shared
    /// vertex shader and the kind's fragment source, attach, link, release
    /// the intermediate stage objects, and allocate the quad's vertex array.
    pub open spec fn spec_setup_commands(self) -> Seq<SetupCommand> {
        seq![
            SetupCommand::CreateProgram,
            SetupCommand::CompileShader {
                stage: ShaderStage::Vertex,
                source: SourceText::QuadVertex,
            },
            SetupCommand::AttachShader { stage: ShaderStage::Vertex },
            SetupCommand::CompileShader {
                stage: ShaderStage::Fragment,
                source: SourceText::FragmentWithLibrary(self.spec_fragment_body()),
            },
            SetupCommand::AttachShader { stage: ShaderStage::Fragment },
            SetupCommand::LinkProgram,
            SetupCommand::DetachShader { stage: ShaderStage::Vertex },
            SetupCommand::DeleteShader { stage: ShaderStage::Vertex },
            SetupCommand::DetachShader { stage: ShaderStage::Fragment },
            SetupCommand::DeleteShader { stage: ShaderStage::Fragment },
            SetupCommand::CreateVertexArray,
        ]
    }

    /// Compute the construction steps for this kind's program, in execution
    /// order.
    pub fn setup_commands(&self) -> (r: Vec<SetupCommand>)
        ensures
            r@ == self.spec_setup_commands(),
    {
        let body = self.fragment_body();
        let mut v: Vec<SetupCommand> = Vec::new();
        v.push(SetupCommand::CreateProgram);
        v.push(SetupCommand::CompileShader {
            stage: ShaderStage::Vertex,
            source: SourceText::QuadVertex,
        });
        v.push(SetupCommand::AttachShader { stage: ShaderStage::Vertex });
        v.push(SetupCommand::CompileShader {
            stage: ShaderStage::Fragment,
            source: SourceText::FragmentWithLibrary(body),
        });
        v.push(SetupCommand::AttachShader { stage: ShaderStage::Fragment });
        v.push(SetupCommand::LinkProgram);
        v.push(SetupCommand::DetachShader { stage: ShaderStage::Vertex });
        v.push(SetupCommand::DeleteShader { stage: ShaderStage::Vertex });
        v.push(SetupCommand::DetachShader { stage: ShaderStage::Fragment });
        v.push(SetupCommand::DeleteShader { stage: ShaderStage::Fragment });
        v.push(SetupCommand::CreateVertexArray);
        proof {
            assert(v@ =~= self.spec_setup_commands());
        }
        v
    }
}

/// Teardown, in execution order: release the program handle, then the
/// vertex-array handle.
pub open spec fn spec_destroy_commands() -> Seq<TeardownCommand> {
    seq![TeardownCommand::DeleteProgram, TeardownCommand::DeleteVertexArray]
}

/// Compute the teardown steps, in execution order. The owner must run them
/// before discarding the program: no implicit cleanup occurs, and a program
/// whose teardown never ran leaks its GPU handles.
pub fn destroy_commands() -> (r: Vec<TeardownCommand>)
    ensures
        r@ == spec_destroy_commands(),
{
    let mut v: Vec<TeardownCommand> = Vec::new();
    v.push(TeardownCommand::DeleteProgram);
    v.push(TeardownCommand::DeleteVertexArray);
    proof {
        assert(v@ =~= spec_destroy_commands());
    }
    v
}

} // verus!
