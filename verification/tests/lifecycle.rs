use gl_programs::destroy_commands;
use gl_programs::ProgramKind;
use gl_programs::SetupCommand;
use gl_programs::ShaderStage;
use gl_programs::SourceText;
use gl_programs::TeardownCommand;

#[test]
fn setup_builds_the_kinds_fragment_source() {
    for kind in ProgramKind::all() {
        let commands = kind.setup_commands();
        let fragment_sources: Vec<SourceText> = commands
            .iter()
            .filter_map(|c| match c {
                SetupCommand::CompileShader {
                    stage: ShaderStage::Fragment,
                    source,
                } => Some(*source),
                _ => None,
            })
            .collect();
        assert_eq!(
            fragment_sources,
            vec![SourceText::FragmentWithLibrary(kind.fragment_body())]
        );
    }
}

#[test]
fn setup_compiles_the_shared_vertex_shader() {
    for kind in ProgramKind::all() {
        let commands = kind.setup_commands();
        let vertex_sources: Vec<SourceText> = commands
            .iter()
            .filter_map(|c| match c {
                SetupCommand::CompileShader {
                    stage: ShaderStage::Vertex,
                    source,
                } => Some(*source),
                _ => None,
            })
            .collect();
        assert_eq!(vertex_sources, vec![SourceText::QuadVertex]);
    }
}

#[test]
fn setup_allocates_one_program_and_one_vertex_array() {
    for kind in ProgramKind::all() {
        let commands = kind.setup_commands();
        let programs = commands
            .iter()
            .filter(|c| matches!(c, SetupCommand::CreateProgram))
            .count();
        let vertex_arrays = commands
            .iter()
            .filter(|c| matches!(c, SetupCommand::CreateVertexArray))
            .count();
        assert_eq!(programs, 1);
        assert_eq!(vertex_arrays, 1);
    }
}

#[test]
fn setup_deletes_each_stage_after_the_link() {
    for kind in ProgramKind::all() {
        let commands = kind.setup_commands();
        let link_at = commands
            .iter()
            .position(|c| matches!(c, SetupCommand::LinkProgram))
            .unwrap();
        for stage in [ShaderStage::Vertex, ShaderStage::Fragment] {
            let deletes: Vec<usize> = commands
                .iter()
                .enumerate()
                .filter_map(|(i, c)| match c {
                    SetupCommand::DeleteShader { stage: s } if *s == stage => Some(i),
                    _ => None,
                })
                .collect();
            assert_eq!(deletes.len(), 1);
            assert!(deletes[0] > link_at);
        }
    }
}

#[test]
fn destroy_releases_each_handle_exactly_once() {
    let commands = destroy_commands();
    assert_eq!(
        commands,
        vec![
            TeardownCommand::DeleteProgram,
            TeardownCommand::DeleteVertexArray,
        ]
    );
    let programs = commands
        .iter()
        .filter(|c| matches!(c, TeardownCommand::DeleteProgram))
        .count();
    let vertex_arrays = commands
        .iter()
        .filter(|c| matches!(c, TeardownCommand::DeleteVertexArray))
        .count();
    assert_eq!(programs, 1);
    assert_eq!(vertex_arrays, 1);
}
