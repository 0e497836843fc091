use wgsl_cli::error::{exit_status, shader_source, ErrorClass, SetupStep, StartupError};
use wgsl_cli::frame::{IndexFormat, Size};
use wgsl_cli::geometry::Vertex;
use wgsl_cli::plan::{
    select_format, AdapterRequest, BindingPlan, BlendState, BufferBindingType, BufferPlan,
    BufferUsages, ColorTarget, ColorWrites, FrontFace, PipelinePlan, PolygonMode,
    PowerPreference, PresentMode, PrimitiveState, PrimitiveTopology, SetupPlan, ShaderStages,
    SurfaceConfig,
};
use wgsl_cli::setup::{Setup, SetupStage, SETUP_STEPS};

const STEPS: [SetupStep; 9] = [
    SetupStep::CreateSurface,
    SetupStep::RequestAdapter,
    SetupStep::RequestDevice,
    SetupStep::ConfigureSurface,
    SetupStep::CompileShaders,
    SetupStep::UploadGeometry,
    SetupStep::CreateUniformBuffer,
    SetupStep::CreateBindings,
    SetupStep::CreatePipeline,
];

#[test]
fn unreadable_shader_file_is_an_io_error_with_nonzero_status() {
    let source = shader_source(Err(String::from("No such file or directory")));
    assert_eq!(
        source,
        Err(StartupError::ShaderRead { message: String::from("No such file or directory") })
    );
    let error = source.unwrap_err();
    assert_eq!(error.class(), ErrorClass::Io);
    assert_eq!(error.message(), "No such file or directory");
    assert_eq!(exit_status(&Err(error)), 1);
}

#[test]
fn readable_shader_file_is_passed_on() {
    assert_eq!(shader_source(Ok(String::from("@fragment fn fs_main() {}"))), Ok(String::from("@fragment fn fs_main() {}")));
    assert_eq!(shader_source(Ok(String::new())), Ok(String::new()));
}

#[test]
fn clean_run_exits_with_zero() {
    assert_eq!(exit_status(&Ok(())), 0);
    for step in STEPS {
        assert_eq!(exit_status(&Err(step.fail(String::from("x")))), 1);
    }
}

#[test]
fn setup_takes_the_nine_steps_in_order() {
    assert_eq!(SETUP_STEPS, 9);
    let mut setup = Setup::new();
    for (i, step) in STEPS.iter().enumerate() {
        assert_eq!(setup.stage(), SetupStage::Pending(*step));
        assert!(!setup.is_ready());
        let next = setup.step_done();
        if i + 1 < STEPS.len() {
            assert_eq!(next, SetupStage::Pending(STEPS[i + 1]));
            assert_eq!(step.next(), SetupStage::Pending(STEPS[i + 1]));
        } else {
            assert_eq!(next, SetupStage::Ready);
            assert_eq!(step.next(), SetupStage::Ready);
        }
    }
    assert!(setup.is_ready());
    assert_eq!(setup.step_done(), SetupStage::Ready);
    assert_eq!(setup.step_failed(String::from("late")), None);
    assert_eq!(setup.stage(), SetupStage::Ready);
}

#[test]
fn malformed_shader_fails_in_the_compilation_class() {
    let mut setup = Setup::new();
    for _ in 0..4 {
        setup.step_done();
    }
    assert_eq!(setup.stage(), SetupStage::Pending(SetupStep::CompileShaders));
    let error = setup.step_failed(String::from("expected ';', found '}'")).unwrap();
    assert_eq!(
        error,
        StartupError::ShaderCompilation { message: String::from("expected ';', found '}'") }
    );
    assert_eq!(error.class(), ErrorClass::Compilation);
    assert_eq!(error.message(), "expected ';', found '}'");
    assert_eq!(setup.stage(), SetupStage::Failed(ErrorClass::Compilation));
    assert!(!setup.is_ready());
}

#[test]
fn missing_adapter_and_device_fail_in_the_gpu_class() {
    let mut setup = Setup::new();
    setup.step_done();
    let error = setup.step_failed(String::from("no adapter")).unwrap();
    assert_eq!(
        error,
        StartupError::Gpu { step: SetupStep::RequestAdapter, message: String::from("no adapter") }
    );
    assert_eq!(error.class(), ErrorClass::Gpu);
    assert_eq!(setup.stage(), SetupStage::Failed(ErrorClass::Gpu));

    let mut setup = Setup::new();
    setup.step_done();
    setup.step_done();
    let error = setup.step_failed(String::from("device lost")).unwrap();
    assert_eq!(
        error,
        StartupError::Gpu { step: SetupStep::RequestDevice, message: String::from("device lost") }
    );
    assert_eq!(error.class(), ErrorClass::Gpu);
    assert_ne!(error.class(), ErrorClass::Compilation);
}

#[test]
fn only_shader_compilation_fails_in_the_compilation_class() {
    for step in STEPS {
        let error = step.fail(String::from("m"));
        assert_eq!(error.message(), "m");
        if step == SetupStep::CompileShaders {
            assert_eq!(error.class(), ErrorClass::Compilation);
        } else {
            assert_eq!(error.class(), ErrorClass::Gpu);
            assert_eq!(error, StartupError::Gpu { step, message: String::from("m") });
        }
    }
}

#[test]
fn failed_setup_stays_failed() {
    let mut setup = Setup::new();
    setup.step_failed(String::from("no surface"));
    assert_eq!(setup.stage(), SetupStage::Failed(ErrorClass::Gpu));
    assert_eq!(setup.step_done(), SetupStage::Failed(ErrorClass::Gpu));
    assert_eq!(setup.step_failed(String::from("again")), None);
    assert_eq!(setup.stage(), SetupStage::Failed(ErrorClass::Gpu));
}

#[test]
fn first_supported_format_is_selected() {
    assert_eq!(select_format(&[7u32, 3, 9]), 7);
    assert_eq!(select_format(&["bgra8", "rgba8"]), "bgra8");
    assert_eq!(select_format(&[1u8]), 1);
}

#[test]
fn plan_holds_the_viewers_choices() {
    let plan = SetupPlan::new(1000, 700);
    assert_eq!(
        plan.adapter,
        AdapterRequest {
            power_preference: PowerPreference::LowPower,
            force_fallback_adapter: false,
            compatible_with_surface: true,
        }
    );
    assert_eq!(
        plan.surface,
        SurfaceConfig {
            render_attachment_only: true,
            format_index: 0,
            size: Size { width: 1000, height: 700 },
            present_mode: PresentMode::Fifo,
        }
    );
    assert_eq!(
        plan.vertex_buffer,
        BufferPlan {
            size: 32,
            usage: BufferUsages { vertex: true, index: false, uniform: false, copy_dst: false },
            mapped_at_creation: false,
        }
    );
    assert_eq!(
        plan.index_buffer,
        BufferPlan {
            size: 12,
            usage: BufferUsages { vertex: false, index: true, uniform: false, copy_dst: false },
            mapped_at_creation: false,
        }
    );
    assert_eq!(
        plan.uniform_buffer,
        BufferPlan {
            size: 16,
            usage: BufferUsages { vertex: false, index: false, uniform: true, copy_dst: true },
            mapped_at_creation: false,
        }
    );
    assert_eq!(
        plan.binding,
        BindingPlan {
            group: 0,
            binding: 0,
            visibility: ShaderStages { vertex: false, fragment: true, compute: false },
            ty: BufferBindingType::Uniform,
            has_dynamic_offset: false,
            min_binding_size: None,
            count: None,
        }
    );
    assert_eq!(plan.pipeline, PipelinePlan::new());
}

#[test]
fn pipeline_plan_holds_the_viewers_choices() {
    let pipeline = PipelinePlan::new();
    assert_eq!(pipeline.bind_groups, vec![0]);
    assert_eq!(pipeline.push_constant_ranges, 0);
    assert_eq!(pipeline.vertex_entry_point, "vs_main");
    assert_eq!(pipeline.fragment_entry_point, "fs_main");
    assert_eq!(pipeline.vertex_buffer, Vertex::desc());
    assert_eq!(
        pipeline.target,
        ColorTarget {
            blend: Some(BlendState::Replace),
            write_mask: ColorWrites { red: true, green: true, blue: true, alpha: true },
        }
    );
    assert_eq!(
        pipeline.primitive,
        PrimitiveState {
            topology: PrimitiveTopology::TriangleList,
            strip_index_format: None::<IndexFormat>,
            front_face: FrontFace::Ccw,
            cull_mode: None,
            unclipped_depth: false,
            polygon_mode: PolygonMode::Fill,
            conservative: false,
        }
    );
    assert!(!pipeline.depth_stencil);
    assert_eq!(pipeline.sample_count, 1);
    assert_eq!(pipeline.multiview, None);
}
