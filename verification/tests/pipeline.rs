use araymarch::pipeline::{
    ceil_div, compile_outcome, cursor_state, dispatch_extents, link_outcome, FramePipeline,
    GpuCommand, StartupError,
};

#[test]
fn cursor_follows_focus() {
    assert_eq!(cursor_state(true), (true, false));
    assert_eq!(cursor_state(false), (false, true));
}

#[test]
fn ceil_div_exact_values() {
    assert_eq!(ceil_div(1920, 16), 120);
    assert_eq!(ceil_div(1080, 16), 68);
    assert_eq!(ceil_div(1, 16), 1);
    assert_eq!(ceil_div(15, 16), 1);
    assert_eq!(ceil_div(16, 16), 1);
    assert_eq!(ceil_div(17, 16), 2);
    assert_eq!(ceil_div(32, 16), 2);
    assert_eq!(ceil_div(33, 16), 3);
    assert_eq!(ceil_div(0, 16), 0);
}

#[test]
fn ceil_div_largest_size() {
    let size = u32::MAX - 15;
    let groups = ceil_div(size, 16);
    assert_eq!(groups, 268435455);
    assert!(16 * groups as u64 >= size as u64);
    assert!(16 * (groups as u64 - 1) < size as u64);
}

#[test]
fn dispatch_extents_cover_minimally() {
    assert_eq!(dispatch_extents(1920, 1080), (120, 68, 1));
    assert_eq!(dispatch_extents(1, 1), (1, 1, 1));
    assert_eq!(dispatch_extents(1920, 1), (120, 1, 1));
    assert_eq!(dispatch_extents(17, 1081), (2, 68, 1));

    let (gx, gy, gz) = dispatch_extents(1366, 768);
    assert!(16 * gx >= 1366 && 16 * (gx - 1) < 1366);
    assert!(16 * gy >= 768 && 16 * (gy - 1) < 768);
    assert_eq!(gz, 1);
}

#[test]
fn compile_outcome_keeps_handle_or_diagnostic() {
    assert_eq!(compile_outcome(true, 7, String::from("ignored")), Ok(7));
    let failed = compile_outcome(false, 7, String::from("0:1: syntax error"));
    assert_eq!(
        failed,
        Err(StartupError::Compile(String::from("0:1: syntax error")))
    );
}

#[test]
fn link_outcome_keeps_diagnostic() {
    assert_eq!(link_outcome(true, String::from("ignored")), Ok(()));
    let failed = link_outcome(false, String::from("undefined entry point"));
    assert_eq!(
        failed,
        Err(StartupError::Link(String::from("undefined entry point")))
    );
}

#[test]
fn startup_succeeds_with_both_programs() {
    let pipeline = FramePipeline::startup(Ok(7), Ok(9), 3).unwrap();
    assert_eq!(pipeline.compute_program, 7);
    assert_eq!(pipeline.quad_program, 9);
    assert_eq!(pipeline.quad_vao, 3);
    assert!(pipeline.needs_target());
}

// A malformed compute shader aborts startup: no pipeline exists, so the tick
// loop never begins, and the driver's diagnostic is surfaced verbatim.
#[test]
fn startup_failure_surfaces_compute_diagnostic() {
    let compute = compile_outcome(false, 7, String::from("0:3: 'vec9' : undeclared identifier"));
    let outcome = FramePipeline::startup(compute, Ok(9), 3);
    match outcome {
        Ok(_) => panic!("startup accepted a failed compute program"),
        Err(error) => {
            assert!(!error.diagnostic().is_empty());
            assert_eq!(error.diagnostic().as_str(), "0:3: 'vec9' : undeclared identifier");
            assert_eq!(
                error,
                StartupError::Compile(String::from("0:3: 'vec9' : undeclared identifier"))
            );
        }
    }
}

#[test]
fn startup_failure_surfaces_quad_diagnostic() {
    let quad = link_outcome(false, String::from("vertex and fragment stages disagree"));
    let outcome = FramePipeline::startup(Ok(7), quad.map(|_| 9), 3);
    match outcome {
        Ok(_) => panic!("startup accepted a failed quad program"),
        Err(error) => {
            assert_eq!(error.diagnostic().as_str(), "vertex and fragment stages disagree");
            assert_eq!(
                error,
                StartupError::Link(String::from("vertex and fragment stages disagree"))
            );
        }
    }
}

#[test]
fn target_is_created_once_at_surface_size() {
    let mut pipeline = FramePipeline::startup(Ok(7), Ok(9), 3).unwrap();
    assert!(pipeline.needs_target());
    pipeline.install_target(5, 800, 600);
    assert!(!pipeline.needs_target());
    let target = pipeline.target.unwrap();
    assert_eq!((target.texture, target.width, target.height), (5, 800, 600));
}

#[test]
fn tick_commands_follow_the_plan() {
    let mut pipeline = FramePipeline::startup(Ok(7), Ok(9), 3).unwrap();
    pipeline.install_target(5, 1920, 1080);
    let commands = pipeline.tick_commands();
    assert_eq!(
        commands,
        vec![
            GpuCommand::UseProgram(7),
            GpuCommand::UploadTransform(0),
            GpuCommand::BindWriteImage(0, 5),
            GpuCommand::DispatchCompute(120, 68, 1),
            GpuCommand::ShaderImageBarrier,
            GpuCommand::BindWriteImage(0, 0),
            GpuCommand::UseProgram(0),
            GpuCommand::UseProgram(9),
            GpuCommand::BindVertexArray(3),
            GpuCommand::BindSampledTexture(0, 5),
            GpuCommand::DrawTriangleStrip(4),
            GpuCommand::BindSampledTexture(0, 0),
            GpuCommand::BindVertexArray(0),
            GpuCommand::UseProgram(0),
            GpuCommand::Present,
        ]
    );
}

// The barrier stands strictly between the dispatch that writes the target and
// the draw that samples it, and the present comes last.
#[test]
fn barrier_stands_between_dispatch_and_draw() {
    let mut pipeline = FramePipeline::startup(Ok(7), Ok(9), 3).unwrap();
    pipeline.install_target(5, 1366, 768);
    let commands = pipeline.tick_commands();

    let dispatch = commands
        .iter()
        .position(|c| matches!(c, GpuCommand::DispatchCompute(..)))
        .unwrap();
    let barrier = commands
        .iter()
        .position(|c| matches!(c, GpuCommand::ShaderImageBarrier))
        .unwrap();
    let draw = commands
        .iter()
        .position(|c| matches!(c, GpuCommand::DrawTriangleStrip(..)))
        .unwrap();
    assert!(dispatch < barrier && barrier < draw);
    assert_eq!(commands.last(), Some(&GpuCommand::Present));
}

// The plan is sized to the target's fixed dimensions, captured when the
// target was created, not to whatever the surface measures later.
#[test]
fn tick_keeps_the_original_target_size() {
    let mut pipeline = FramePipeline::startup(Ok(7), Ok(9), 3).unwrap();
    pipeline.install_target(5, 800, 600);
    let commands = pipeline.tick_commands();
    assert_eq!(commands[3], GpuCommand::DispatchCompute(50, 38, 1));
}
