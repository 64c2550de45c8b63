use vstd::prelude::*;

use crate::kind::ProgramKind;
use crate::plan::spec_destroy_commands;
use crate::plan::PaintCommand;
use crate::plan::SetupCommand;
use crate::plan::ShaderStage;
use crate::plan::TeardownCommand;
use crate::plan::Topology;
use crate::plan::UniformValue;

verus! {

/// Uniform names written during one draw pass, in upload order.
pub open spec fn spec_uniform_names(k: ProgramKind) -> Seq<Seq<char>> {
    k.spec_uniform_writes().map_values(|u: UniformValue| u.spec_name())
}

/// How many draw steps a paint pass contains.
pub open spec fn spec_draw_count(s: Seq<PaintCommand>) -> nat
    decreases s.len(),
{
    if s.len() == 0 {
        0
    } else {
        (if s[0] is Draw {
            1nat
        } else {
            0nat
        }) + spec_draw_count(s.drop_first())
    }
}

/// How many times one teardown step occurs.
pub open spec fn spec_teardown_count(s: Seq<TeardownCommand>, c: TeardownCommand) -> nat
    decreases s.len(),
{
    if s.len() == 0 {
        0
    } else {
        (if s[0] == c {
            1nat
        } else {
            0nat
        }) + spec_teardown_count(s.drop_first(), c)
    }
}

/// How many program allocations a setup sequence contains.
pub open spec fn spec_program_alloc_count(s: Seq<SetupCommand>) -> nat
    decreases s.len(),
{
    if s.len() == 0 {
        0
    } else {
        (if s[0] is CreateProgram {
            1nat
        } else {
            0nat
        }) + spec_program_alloc_count(s.drop_first())
    }
}

/// How many vertex-array allocations a setup sequence contains.
pub open spec fn spec_vertex_array_alloc_count(s: Seq<SetupCommand>) -> nat
    decreases s.len(),
{
    if s.len() == 0 {
        0
    } else {
        (if s[0] is CreateVertexArray {
            1nat
        } else {
            0nat
        }) + spec_vertex_array_alloc_count(s.drop_first())
    }
}

/// How many compilations of one stage a setup sequence contains.
pub open spec fn spec_stage_compile_count(s: Seq<SetupCommand>, st: ShaderStage) -> nat
    decreases s.len(),
{
    if s.len() == 0 {
        0
    } else {
        (if s[0] matches SetupCommand::CompileShader { stage, .. } && stage == st {
            1nat
        } else {
            0nat
        }) + spec_stage_compile_count(s.drop_first(), st)
    }
}

/// How many deletions of one stage's shader object a setup sequence
/// contains.
pub open spec fn spec_stage_delete_count(s: Seq<SetupCommand>, st: ShaderStage) -> nat
    decreases s.len(),
{
    if s.len() == 0 {
        0
    } else {
        (if s[0] matches SetupCommand::DeleteShader { stage } && stage == st {
            1nat
        } else {
            0nat
        }) + spec_stage_delete_count(s.drop_first(), st)
    }
}

/// Every kind's draw pass writes exactly the uniform names of the dispatch
/// table, in upload order: `width` first for all kinds, then `hue` for
/// Picker; `lightness` for Picker2; nothing for Hue; `hue`, `chroma` for
/// Lightness; `hue`, `lightness` for Chroma; and `color` for Alpha, Final
/// and FinalPrevious.
pub proof fn lemma_paint_uniform_names(k: ProgramKind)
    ensures
        k is Picker ==> spec_uniform_names(k) =~= seq!["width"@, "hue"@],
        k is Picker2 ==> spec_uniform_names(k) =~= seq!["width"@, "lightness"@],
        k is Hue ==> spec_uniform_names(k) =~= seq!["width"@],
        k is Lightness ==> spec_uniform_names(k) =~= seq!["width"@, "hue"@, "chroma"@],
        k is Chroma ==> spec_uniform_names(k) =~= seq!["width"@, "hue"@, "lightness"@],
        k is Alpha ==> spec_uniform_names(k) =~= seq!["width"@, "color"@],
        k is FinalPrevious ==> spec_uniform_names(k) =~= seq!["width"@, "color"@],
        k is Final ==> spec_uniform_names(k) =~= seq!["width"@, "color"@],
{
}

/// Every kind's draw pass issues exactly one draw, it is the final step,
/// and it requests four vertices as a triangle strip starting at vertex
/// zero: one full-screen-quad rasterization pass per invocation.
pub proof fn lemma_paint_single_draw(k: ProgramKind)
    ensures
        spec_draw_count(k.spec_paint_commands()) == 1,
        k.spec_paint_commands().last() == (PaintCommand::Draw {
            topology: Topology::TriangleStrip,
            first: 0,
            count: 4,
        }),
{
    reveal_with_fuel(spec_draw_count, 8);
    match k {
        ProgramKind::Picker => {
            assert(k.spec_paint_commands() =~= seq![
                PaintCommand::UseProgram,
                PaintCommand::SetUniform(UniformValue::WidthInput),
                PaintCommand::SetUniform(UniformValue::ColorHue),
                PaintCommand::BindVertexArray,
                PaintCommand::Draw { topology: Topology::TriangleStrip, first: 0, count: 4 },
            ]);
        },
        ProgramKind::Picker2 => {
            assert(k.spec_paint_commands() =~= seq![
                PaintCommand::UseProgram,
                PaintCommand::SetUniform(UniformValue::WidthInput),
                PaintCommand::SetUniform(UniformValue::ColorLightness),
                PaintCommand::BindVertexArray,
                PaintCommand::Draw { topology: Topology::TriangleStrip, first: 0, count: 4 },
            ]);
        },
        ProgramKind::Hue => {
            assert(k.spec_paint_commands() =~= seq![
                PaintCommand::UseProgram,
                PaintCommand::SetUniform(UniformValue::WidthInput),
                PaintCommand::BindVertexArray,
                PaintCommand::Draw { topology: Topology::TriangleStrip, first: 0, count: 4 },
            ]);
        },
        ProgramKind::Lightness => {
            assert(k.spec_paint_commands() =~= seq![
                PaintCommand::UseProgram,
                PaintCommand::SetUniform(UniformValue::WidthInput),
                PaintCommand::SetUniform(UniformValue::ColorHue),
                PaintCommand::SetUniform(UniformValue::ColorChroma),
                PaintCommand::BindVertexArray,
                PaintCommand::Draw { topology: Topology::TriangleStrip, first: 0, count: 4 },
            ]);
        },
        ProgramKind::Chroma => {
            assert(k.spec_paint_commands() =~= seq![
                PaintCommand::UseProgram,
                PaintCommand::SetUniform(UniformValue::WidthInput),
                PaintCommand::SetUniform(UniformValue::ColorHue),
                PaintCommand::SetUniform(UniformValue::ColorLightness),
                PaintCommand::BindVertexArray,
                PaintCommand::Draw { topology: Topology::TriangleStrip, first: 0, count: 4 },
            ]);
        },
        ProgramKind::Alpha => {
            assert(k.spec_paint_commands() =~= seq![
                PaintCommand::UseProgram,
                PaintCommand::SetUniform(UniformValue::WidthInput),
                PaintCommand::SetUniform(UniformValue::FallbackRgb),
                PaintCommand::BindVertexArray,
                PaintCommand::Draw { topology: Topology::TriangleStrip, first: 0, count: 4 },
            ]);
        },
        ProgramKind::FinalPrevious => {
            assert(k.spec_paint_commands() =~= seq![
                PaintCommand::UseProgram,
                PaintCommand::SetUniform(UniformValue::WidthInput),
                PaintCommand::SetUniform(UniformValue::PreviousFallbackRgba),
                PaintCommand::BindVertexArray,
                PaintCommand::Draw { topology: Topology::TriangleStrip, first: 0, count: 4 },
            ]);
        },
        ProgramKind::Final => {
            assert(k.spec_paint_commands() =~= seq![
                PaintCommand::UseProgram,
                PaintCommand::SetUniform(UniformValue::WidthInput),
                PaintCommand::SetUniform(UniformValue::FallbackRgba),
                PaintCommand::BindVertexArray,
                PaintCommand::Draw { topology: Topology::TriangleStrip, first: 0, count: 4 },
            ]);
        },
    }
}

/// Teardown releases each of the two GPU handles exactly once — one
/// program delete and one vertex-array delete — and does nothing else: no
/// external reference survives a destroyed program.
pub proof fn lemma_destroy_releases_each_handle_once()
    ensures
        spec_teardown_count(spec_destroy_commands(), TeardownCommand::DeleteProgram) == 1,
        spec_teardown_count(spec_destroy_commands(), TeardownCommand::DeleteVertexArray) == 1,
        spec_destroy_commands().len() == 2,
{
    reveal_with_fuel(spec_teardown_count, 4);
}

/// Construction of any kind's program allocates exactly one GPU program
/// and exactly one vertex array, and compiles exactly one shader per stage.
pub proof fn lemma_setup_allocations(k: ProgramKind)
    ensures
        spec_program_alloc_count(k.spec_setup_commands()) == 1,
        spec_vertex_array_alloc_count(k.spec_setup_commands()) == 1,
        spec_stage_compile_count(k.spec_setup_commands(), ShaderStage::Vertex) == 1,
        spec_stage_compile_count(k.spec_setup_commands(), ShaderStage::Fragment) == 1,
{
    reveal_with_fuel(spec_program_alloc_count, 13);
    reveal_with_fuel(spec_vertex_array_alloc_count, 13);
    reveal_with_fuel(spec_stage_compile_count, 13);
}

/// Each shader stage compiled during construction is deleted again, after
/// the link: the intermediate stage objects do not outlive setup.
pub proof fn lemma_setup_releases_stages(k: ProgramKind)
    ensures
        spec_stage_delete_count(k.spec_setup_commands(), ShaderStage::Vertex) == 1,
        spec_stage_delete_count(k.spec_setup_commands(), ShaderStage::Fragment) == 1,
        forall|i: int, j: int|
            0 <= i < k.spec_setup_commands().len() && 0 <= j < k.spec_setup_commands().len()
                && k.spec_setup_commands()[i] is LinkProgram
                && k.spec_setup_commands()[j] is DeleteShader ==> i < j,
{
    reveal_with_fuel(spec_stage_delete_count, 13);
}

/// Final and FinalPrevious are built from the same fragment body — they
/// differ only in which fallback color they upload — and any other two
/// distinct kinds are built from distinct bodies.
pub proof fn lemma_fragment_body_sharing(a: ProgramKind, b: ProgramKind)
    ensures
        a.spec_fragment_body() == b.spec_fragment_body() <==> (a == b || ((a is Final
            || a is FinalPrevious) && (b is Final || b is FinalPrevious))),
{
}

/// The kind listing is complete and free of repeats: eight kinds, each
/// occurring exactly once.
pub proof fn lemma_all_kinds_complete()
    ensures
        ProgramKind::spec_all().len() == 8,
        forall|k: ProgramKind| ProgramKind::spec_all().contains(k),
        forall|i: int, j: int|
            0 <= i < 8 && 0 <= j < 8 && i != j ==> ProgramKind::spec_all()[i]
                != ProgramKind::spec_all()[j],
{
    assert forall|k: ProgramKind| ProgramKind::spec_all().contains(k) by {
        match k {
            ProgramKind::Picker => assert(ProgramKind::spec_all()[0] == k),
            ProgramKind::Picker2 => assert(ProgramKind::spec_all()[1] == k),
            ProgramKind::Hue => assert(ProgramKind::spec_all()[2] == k),
            ProgramKind::Lightness => assert(ProgramKind::spec_all()[3] == k),
            ProgramKind::Chroma => assert(ProgramKind::spec_all()[4] == k),
            ProgramKind::Alpha => assert(ProgramKind::spec_all()[5] == k),
            ProgramKind::FinalPrevious => assert(ProgramKind::spec_all()[6] == k),
            ProgramKind::Final => assert(ProgramKind::spec_all()[7] == k),
        }
    }
}

} // verus!
