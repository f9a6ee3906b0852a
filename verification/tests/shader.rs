use render2d::{
    check_gl, check_gl_drained, make_compile_result, merge_vert_frag, shaders_to_release,
    stage_failure, CompileResult, ComputePipeline, PipelineAction, RenderError, ShaderStage,
    VertFragPipeline,
};

fn ok_unit(shader: u32, log: &str) -> CompileResult {
    CompileResult {
        shader,
        success: true,
        log: log.to_string(),
    }
}

fn failed_unit(shader: u32, log: &str) -> CompileResult {
    CompileResult {
        shader,
        success: false,
        log: log.to_string(),
    }
}

#[test]
fn error_codes_classify_exactly() {
    assert!(check_gl(0).is_ok());
    assert_eq!(check_gl(0x0502).unwrap_err(), RenderError::ApiError(0x0502));
}

#[test]
fn drained_queue_reports_first_offender() {
    assert!(check_gl_drained(&vec![]).is_ok());
    assert!(check_gl_drained(&vec![0, 0, 0]).is_ok());
    assert_eq!(
        check_gl_drained(&vec![0, 7, 9]).unwrap_err(),
        RenderError::ApiError(7)
    );
}

#[test]
fn stage_ids_match_the_driver() {
    assert_eq!(ShaderStage::Vertex.stage_id(), 0x8B31);
    assert_eq!(ShaderStage::Fragment.stage_id(), 0x8B30);
    assert_eq!(ShaderStage::Compute.stage_id(), 0x91B9);
}

#[test]
fn compile_result_reads_the_status_flag() {
    let r = make_compile_result(5, 1, "warn".to_string());
    assert_eq!(r.shader, 5);
    assert!(r.success);
    assert_eq!(r.log, "warn");
    let r = make_compile_result(5, 0, String::new());
    assert!(!r.success);
}

#[test]
fn malformed_fragment_short_circuits_with_its_diagnostic() {
    // A deliberately malformed fragment stage: the pipeline must yield a
    // result, never a fault, with success unset, a null handle, and the
    // stage's diagnostic carried through.
    let (state, action) = VertFragPipeline::start();
    assert!(matches!(action, PipelineAction::Compile(ShaderStage::Vertex)));
    let (state, action) = state.step(ok_unit(3, ""));
    assert!(matches!(action, PipelineAction::Compile(ShaderStage::Fragment)));
    let (state, action) = state.step(failed_unit(4, "0:2: syntax error"));
    assert!(matches!(action, PipelineAction::Stop));
    let result = state.finish();
    assert!(!result.success);
    assert_eq!(result.shader, 0);
    assert_eq!(result.log, "0:2: syntax error");
    assert!(!result.log.is_empty());
}

#[test]
fn failed_vertex_skips_the_fragment_stage() {
    let (state, _) = VertFragPipeline::start();
    let (state, action) = state.step(failed_unit(3, "bad vertex"));
    assert!(matches!(action, PipelineAction::Stop));
    let result = state.finish();
    assert!(!result.success);
    assert_eq!(result.shader, 0);
    assert_eq!(result.log, "bad vertex");
}

#[test]
fn successful_pipeline_links_both_stages_and_merges_logs() {
    let (state, _) = VertFragPipeline::start();
    let (state, _) = state.step(ok_unit(3, "v-warn;"));
    let (state, action) = state.step(ok_unit(4, "f-warn;"));
    match &action {
        PipelineAction::Link { shaders } => assert_eq!(shaders, &vec![3, 4]),
        _ => panic!("expected a link action"),
    }
    let (state, action) = state.step(ok_unit(9, "l-warn"));
    assert!(matches!(action, PipelineAction::Stop));
    let result = state.finish();
    assert!(result.success);
    assert_eq!(result.shader, 9);
    assert_eq!(result.log, "v-warn;f-warn;l-warn");
}

#[test]
fn link_failure_keeps_only_the_link_diagnostic() {
    let (state, _) = VertFragPipeline::start();
    let (state, _) = state.step(ok_unit(3, "v-warn"));
    let (state, _) = state.step(ok_unit(4, "f-warn"));
    let (state, _) = state.step(failed_unit(9, "link failed"));
    let result = state.finish();
    assert!(!result.success);
    assert_eq!(result.shader, 9);
    assert_eq!(result.log, "link failed");
}

#[test]
fn compute_pipeline_hands_the_link_outcome_through() {
    let (state, action) = ComputePipeline::start();
    assert!(matches!(action, PipelineAction::Compile(ShaderStage::Compute)));
    let (state, action) = state.step(ok_unit(6, "warn"));
    match &action {
        PipelineAction::Link { shaders } => assert_eq!(shaders, &vec![6]),
        _ => panic!("expected a link action"),
    }
    let (state, _) = state.step(ok_unit(8, "linked"));
    let result = state.finish();
    assert!(result.success);
    assert_eq!(result.shader, 8);
    assert_eq!(result.log, "linked");
}

#[test]
fn compute_stage_failure_short_circuits() {
    let (state, _) = ComputePipeline::start();
    let (state, action) = state.step(failed_unit(6, "bad compute"));
    assert!(matches!(action, PipelineAction::Stop));
    let result = state.finish();
    assert!(!result.success);
    assert_eq!(result.shader, 0);
    assert_eq!(result.log, "bad compute");
}

#[test]
fn stage_failure_nulls_the_handle() {
    let r = stage_failure(failed_unit(12, "oops"));
    assert_eq!(r.shader, 0);
    assert!(!r.success);
    assert_eq!(r.log, "oops");
}

#[test]
fn merge_keeps_order_vertex_fragment_link() {
    let merged = merge_vert_frag(ok_unit(1, "a"), ok_unit(2, "b"), ok_unit(3, "c"));
    assert_eq!(merged.log, "abc");
    assert_eq!(merged.shader, 3);
    assert!(merged.success);
}

#[test]
fn shader_objects_are_released_on_link_success_only() {
    assert_eq!(shaders_to_release(true, vec![3, 4]), vec![3, 4]);
    assert_eq!(shaders_to_release(false, vec![3, 4]), Vec::<u32>::new());
}
