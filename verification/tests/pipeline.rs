use cgmath::{InnerSpace, Vector3};
use raytrace::config::{Config, Scene};
use raytrace::error::RenderError;
use raytrace::pipeline::{Action, Event, Pipeline, Stage, RECORD_BYTES, SENTINEL_BITS};
use raytrace::raster::{Raster, Record};
use raytrace::rays::{ray_field, Ray};

fn config(width: u32, height: u32) -> Config {
    Config { width, height, min_bounces: 0, max_bounces: 3, samples_per_pixel: 1 }
}

fn scene() -> Scene {
    Scene {
        cam_pos: [0.0f32.to_bits(), 0.0f32.to_bits(), (-1.0f32).to_bits()],
        cam_rot: [1.0f32.to_bits(), 0, 0, 0],
    }
}

/// What a backend writes into the buffer for one ray.
fn encode(ray: &Ray, sentinel: u32) -> [f32; 4] {
    let d = Vector3::new(
        ray.x_num as f32 / ray.x_den as f32,
        ray.y_num as f32 / ray.y_den as f32,
        1.0,
    )
    .normalize();
    [d.x, d.y, d.z, f32::from_bits(sentinel)]
}

/// A kernel that passes the direction through as a colour, moved into
/// `[0, 1]`.
fn identity_kernel(buffer: &[[f32; 4]]) -> Vec<Record> {
    buffer
        .iter()
        .map(|r| Record {
            channels: [
                (r[0] * 0.5 + 0.5).to_bits(),
                (r[1] * 0.5 + 0.5).to_bits(),
                (r[2] * 0.5 + 0.5).to_bits(),
                r[3].to_bits(),
            ],
        })
        .collect()
}

/// Drives a pipeline as a backend that never fails would, and returns the
/// raster it is asked to write.
fn render(pipeline: &mut Pipeline, kernel: fn(&[[f32; 4]]) -> Vec<Record>) -> Raster {
    let (rays, sentinel) = match pipeline.step(Event::Begin { max_buffer_bytes: u64::MAX }) {
        Action::Upload { rays, sentinel, buffer_bytes } => {
            assert_eq!(buffer_bytes, 16 * rays.len() as u64);
            (rays, sentinel)
        },
        other => panic!("expected an upload, got {:?}", other),
    };
    assert_eq!(pipeline.stage(), Stage::RaysGenerated);
    let buffer: Vec<[f32; 4]> = rays.iter().map(|r| encode(r, sentinel)).collect();
    let work_items = match pipeline.step(Event::Uploaded { count: buffer.len() as u64 }) {
        Action::Dispatch { work_items } => work_items,
        other => panic!("expected a dispatch, got {:?}", other),
    };
    assert_eq!(work_items as usize, buffer.len());
    assert_eq!(pipeline.stage(), Stage::BufferUploaded);
    assert!(matches!(pipeline.step(Event::Submitted), Action::AwaitAndMap));
    assert_eq!(pipeline.stage(), Stage::Dispatched);
    let records = kernel(&buffer);
    assert!(matches!(pipeline.step(Event::Mapped { records }), Action::Release));
    assert_eq!(pipeline.stage(), Stage::ResultsMapped);
    let raster = match pipeline.step(Event::Released) {
        Action::Emit { raster } => raster,
        other => panic!("expected a raster, got {:?}", other),
    };
    assert_eq!(pipeline.stage(), Stage::ImageAssembled);
    assert!(matches!(pipeline.step(Event::Written), Action::Finish));
    assert_eq!(pipeline.stage(), Stage::Idle);
    raster
}

fn pipeline_at(stage: Stage, cfg: Config) -> Pipeline {
    let mut p = Pipeline::new(cfg, scene());
    let count = cfg.pixel_count();
    let script = [
        (Stage::RaysGenerated, 0),
        (Stage::BufferUploaded, 1),
        (Stage::Dispatched, 2),
        (Stage::ResultsMapped, 3),
        (Stage::ImageAssembled, 4),
    ];
    for (reached, step) in script {
        if p.stage() == stage {
            break;
        }
        let event = match step {
            0 => Event::Begin { max_buffer_bytes: u64::MAX },
            1 => Event::Uploaded { count },
            2 => Event::Submitted,
            3 => Event::Mapped {
                records: vec![Record { channels: [0, 0, 0, 0] }; count as usize],
            },
            _ => Event::Released,
        };
        p.step(event);
        assert_eq!(p.stage(), reached);
    }
    assert_eq!(p.stage(), stage);
    p
}

fn abort_error(action: Action) -> RenderError {
    match action {
        Action::Abort { error } => error,
        other => panic!("expected an abort, got {:?}", other),
    }
}

#[test]
fn new_pipeline_is_idle_and_keeps_its_inputs() {
    let cfg = config(8, 6);
    let p = Pipeline::new(cfg, scene());
    assert_eq!(p.stage(), Stage::Idle);
    assert_eq!(p.config(), cfg);
    assert_eq!(p.scene(), scene());
}

#[test]
fn sentinel_is_minus_one_and_a_record_is_sixteen_bytes() {
    assert_eq!(SENTINEL_BITS, (-1.0f32).to_bits());
    assert_eq!(RECORD_BYTES, 16);
}

#[test]
fn render_walks_the_stages_in_order() {
    let mut p = Pipeline::new(config(3, 2), scene());
    let raster = render(&mut p, identity_kernel);
    assert_eq!((raster.width, raster.height), (3, 2));
    assert_eq!(raster.data.len(), 18);
    assert_eq!(p.config(), config(3, 2));
    assert_eq!(p.scene(), scene());
}

#[test]
fn upload_carries_the_ray_field_and_the_sentinel() {
    let cfg = config(5, 4);
    let mut p = Pipeline::new(cfg, scene());
    match p.step(Event::Begin { max_buffer_bytes: 16 * 20 }) {
        Action::Upload { rays, sentinel, buffer_bytes } => {
            assert_eq!(rays, ray_field(&cfg, &scene()));
            assert_eq!(rays.len(), 20);
            assert_eq!(f32::from_bits(sentinel), -1.0);
            assert_eq!(buffer_bytes, 320);
        },
        other => panic!("expected an upload, got {:?}", other),
    }
}

#[test]
fn rendering_twice_gives_identical_images() {
    let mut p = Pipeline::new(config(16, 9), scene());
    let first = render(&mut p, identity_kernel);
    let second = render(&mut p, identity_kernel);
    assert_eq!(first, second);
    let mut fresh = Pipeline::new(config(16, 9), scene());
    assert_eq!(first, render(&mut fresh, identity_kernel));
}

#[test]
fn identity_kernel_gives_a_gradient_symmetric_about_the_centre() {
    let (w, h) = (4usize, 4usize);
    let mut p = Pipeline::new(config(4, 4), scene());
    let raster = render(&mut p, identity_kernel);
    let at = |x: usize, y: usize, c: usize| raster.data[3 * (y * w + x) + c] as i32;
    for y in 1..h {
        for x in 1..w {
            // Depth is the same on both sides of the centre; the horizontal
            // and vertical channels are reflected about mid-grey.
            assert_eq!(at(x, y, 2), at(w - x, y, 2));
            assert_eq!(at(x, y, 2), at(x, h - y, 2));
            assert_eq!(at(x, y, 2), at(w - x, h - y, 2));
            assert!((at(x, y, 0) + at(w - x, y, 0) - 255).abs() <= 1);
            assert!((at(x, y, 1) + at(x, h - y, 1) - 255).abs() <= 1);
            assert_eq!(at(x, y, 1), at(w - x, y, 1));
            assert_eq!(at(x, y, 0), at(x, h - y, 0));
        }
    }
    // The centre pixel looks straight ahead and is the brightest in depth;
    // depth falls off with the distance from it.
    assert_eq!((at(2, 2, 0), at(2, 2, 1), at(2, 2, 2)), (127, 127, 255));
    assert!(at(2, 2, 2) > at(1, 2, 2));
    assert!(at(1, 2, 2) > at(1, 1, 2));
    assert!(at(1, 1, 2) > at(0, 0, 2));
    // The corner looks along (-1, -1, 1).
    assert_eq!((at(0, 0, 0), at(0, 0, 1), at(0, 0, 2)), (53, 53, 201));
}

#[test]
fn zero_dimension_is_an_invalid_config_and_nothing_is_asked_of_the_device() {
    for (w, h) in [(0u32, 4u32), (4, 0), (0, 0)] {
        let mut p = Pipeline::new(config(w, h), scene());
        let action = p.step(Event::Begin { max_buffer_bytes: u64::MAX });
        assert_eq!(abort_error(action), RenderError::InvalidConfig { width: w, height: h });
        assert_eq!(p.stage(), Stage::Idle);
        assert!(ray_field(&config(w, h), &scene()).is_empty());
    }
}

#[test]
fn inconsistent_bounces_are_an_invalid_config() {
    let cfg = Config { width: 4, height: 4, min_bounces: 4, max_bounces: 3, samples_per_pixel: 1 };
    let mut p = Pipeline::new(cfg, scene());
    let action = p.step(Event::Begin { max_buffer_bytes: u64::MAX });
    assert_eq!(abort_error(action), RenderError::InvalidConfig { width: 4, height: 4 });
    assert_eq!(p.stage(), Stage::Idle);
}

#[test]
fn buffer_beyond_the_device_limit_is_a_resource_error() {
    let mut p = Pipeline::new(config(100, 100), scene());
    let action = p.step(Event::Begin { max_buffer_bytes: 16 * 10_000 - 1 });
    assert_eq!(abort_error(action), RenderError::Resource { records: 10_000 });
    assert_eq!(p.stage(), Stage::Idle);
    // At exactly the limit the render goes ahead.
    assert!(matches!(
        p.step(Event::Begin { max_buffer_bytes: 16 * 10_000 }),
        Action::Upload { .. }
    ));
    assert_eq!(p.stage(), Stage::RaysGenerated);
}

#[test]
fn failed_allocation_is_a_resource_error() {
    let mut p = pipeline_at(Stage::RaysGenerated, config(4, 4));
    assert_eq!(abort_error(p.step(Event::AllocationFailed)), RenderError::Resource { records: 16 });
    assert_eq!(p.stage(), Stage::Idle);
}

#[test]
fn buffer_of_the_wrong_size_is_a_resource_error() {
    let mut p = pipeline_at(Stage::RaysGenerated, config(4, 4));
    let action = p.step(Event::Uploaded { count: 15 });
    assert_eq!(abort_error(action), RenderError::Resource { records: 16 });
    assert_eq!(p.stage(), Stage::Idle);
}

#[test]
fn failed_submission_is_a_dispatch_error() {
    let mut p = pipeline_at(Stage::BufferUploaded, config(4, 4));
    assert_eq!(abort_error(p.step(Event::DispatchFailed)), RenderError::Dispatch);
    assert_eq!(p.stage(), Stage::Idle);
}

#[test]
fn failed_execution_is_a_dispatch_error() {
    let mut p = pipeline_at(Stage::Dispatched, config(4, 4));
    assert_eq!(abort_error(p.step(Event::DispatchFailed)), RenderError::Dispatch);
    assert_eq!(p.stage(), Stage::Idle);
}

#[test]
fn failed_mapping_is_a_resource_error() {
    let mut p = pipeline_at(Stage::Dispatched, config(4, 4));
    assert_eq!(abort_error(p.step(Event::MapFailed)), RenderError::Resource { records: 16 });
    assert_eq!(p.stage(), Stage::Idle);
}

#[test]
fn readback_of_the_wrong_length_is_a_resource_error() {
    let mut p = pipeline_at(Stage::Dispatched, config(4, 4));
    let records = vec![Record { channels: [0, 0, 0, 0] }; 12];
    let action = p.step(Event::Mapped { records });
    assert_eq!(abort_error(action), RenderError::Resource { records: 16 });
    assert_eq!(p.stage(), Stage::Idle);
}

#[test]
fn failed_write_is_an_io_error_with_the_path() {
    let mut p = pipeline_at(Stage::ImageAssembled, config(2, 2));
    let action = p.step(Event::WriteFailed { path: String::from("out/frame.png") });
    assert_eq!(abort_error(action), RenderError::Io { path: String::from("out/frame.png") });
    assert_eq!(p.stage(), Stage::Idle);
}

#[test]
fn pipeline_can_render_again_after_a_failure() {
    let mut p = pipeline_at(Stage::Dispatched, config(4, 4));
    p.step(Event::DispatchFailed);
    let raster = render(&mut p, identity_kernel);
    let mut fresh = Pipeline::new(config(4, 4), scene());
    assert_eq!(raster, render(&mut fresh, identity_kernel));
}

#[test]
fn events_out_of_turn_are_ignored() {
    let stages = [
        Stage::Idle,
        Stage::RaysGenerated,
        Stage::BufferUploaded,
        Stage::Dispatched,
        Stage::ResultsMapped,
        Stage::ImageAssembled,
    ];
    for stage in stages {
        for which in 0..10 {
            let event = match which {
                0 => Event::Begin { max_buffer_bytes: u64::MAX },
                1 => Event::Uploaded { count: 4 },
                2 => Event::AllocationFailed,
                3 => Event::Submitted,
                4 => Event::DispatchFailed,
                5 => Event::Mapped { records: vec![Record { channels: [0, 0, 0, 0] }; 4] },
                6 => Event::MapFailed,
                7 => Event::Released,
                8 => Event::Written,
                _ => Event::WriteFailed { path: String::from("x") },
            };
            let expected = matches!(
                (stage, which),
                (Stage::Idle, 0)
                    | (Stage::RaysGenerated, 1)
                    | (Stage::RaysGenerated, 2)
                    | (Stage::BufferUploaded, 3)
                    | (Stage::BufferUploaded, 4)
                    | (Stage::Dispatched, 4)
                    | (Stage::Dispatched, 5)
                    | (Stage::Dispatched, 6)
                    | (Stage::ResultsMapped, 7)
                    | (Stage::ImageAssembled, 8)
                    | (Stage::ImageAssembled, 9)
            );
            let mut p = pipeline_at(stage, config(2, 2));
            let action = p.step(event);
            assert_eq!(matches!(action, Action::Ignore), !expected, "{:?} {}", stage, which);
            if !expected {
                assert_eq!(p.stage(), stage);
            }
        }
    }
}

#[test]
fn begin_during_a_render_is_ignored() {
    let mut p = pipeline_at(Stage::Dispatched, config(2, 2));
    assert!(matches!(p.step(Event::Begin { max_buffer_bytes: u64::MAX }), Action::Ignore));
    assert_eq!(p.stage(), Stage::Dispatched);
}
