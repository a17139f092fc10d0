use obsidian_graphish::engine_core::engine::{
    FrameProgress, FrameScheduler, FrameStep, COMMAND_BUFFER_COUNT, MAX_FRAMES_IN_FLIGHT,
};
use obsidian_graphish::engine_core::instance::InstanceConfig;
use obsidian_graphish::engine_core::window::{
    respond_to_render_error, FrameReport, FrameStats, RenderErrorResponse, SurfaceErrorKind,
    MAX_DURATION_NANOS, NANOS_PER_SECOND,
};
use obsidian_graphish::engine_core::window_config::create_window_config;

const ALL_STEPS: [FrameStep; 7] = [
    FrameStep::WaitForFence,
    FrameStep::AcquireImage,
    FrameStep::ResetFence,
    FrameStep::ResetCommandBuffer,
    FrameStep::RecordCommands,
    FrameStep::Submit,
    FrameStep::Present,
];

fn run_frame(scheduler: &mut FrameScheduler, fail_at: Option<usize>) -> (FrameProgress, usize) {
    let mut step = FrameScheduler::first_step();
    let mut steps_run = 0;
    loop {
        let ok = fail_at != Some(steps_run);
        steps_run += 1;
        match scheduler.step_finished(step, ok) {
            FrameProgress::Next(next) => step = next,
            done => return (done, steps_run),
        }
    }
}

#[test]
fn frame_runs_all_steps_in_order() {
    let mut scheduler = FrameScheduler::new();
    let mut step = FrameScheduler::first_step();
    for (i, expected) in ALL_STEPS.iter().enumerate() {
        assert_eq!(step, *expected);
        match scheduler.step_finished(step, true) {
            FrameProgress::Next(next) => step = next,
            FrameProgress::Completed => assert_eq!(i, 6),
            FrameProgress::Aborted => panic!("no step failed"),
        }
    }
    assert_eq!(scheduler.current_frame(), 1);
}

#[test]
fn frame_slots_cycle() {
    assert_eq!(MAX_FRAMES_IN_FLIGHT, 2);
    assert_eq!(COMMAND_BUFFER_COUNT as usize, MAX_FRAMES_IN_FLIGHT);
    let mut scheduler = FrameScheduler::new();
    assert_eq!(scheduler.current_frame(), 0);
    assert_eq!(run_frame(&mut scheduler, None), (FrameProgress::Completed, 7));
    assert_eq!(scheduler.current_frame(), 1);
    assert_eq!(run_frame(&mut scheduler, None), (FrameProgress::Completed, 7));
    assert_eq!(scheduler.current_frame(), 0);
}

#[test]
fn failed_step_keeps_slot() {
    let mut scheduler = FrameScheduler::new();
    run_frame(&mut scheduler, None);
    for fail_at in 0..7 {
        assert_eq!(run_frame(&mut scheduler, Some(fail_at)), (FrameProgress::Aborted, fail_at + 1));
        assert_eq!(scheduler.current_frame(), 1);
    }
}

#[test]
fn frame_stats_report_each_second() {
    let mut stats = FrameStats::new();
    assert_eq!(stats.record_frame(400_000_000), None);
    assert_eq!(stats.record_frame(500_000_000), None);
    assert_eq!(stats, FrameStats { frame_count: 2, accumulated_nanos: 900_000_000 });
    assert_eq!(
        stats.record_frame(100_000_000),
        Some(FrameReport { frame_count: 3, accumulated_nanos: 1_000_000_000 })
    );
    assert_eq!(stats, FrameStats { frame_count: 0, accumulated_nanos: 0 });
    assert_eq!(
        stats.record_frame(2_500_000_000),
        Some(FrameReport { frame_count: 1, accumulated_nanos: 2_500_000_000 })
    );
    assert_eq!(stats.record_frame(0), None);
    assert_eq!(stats.frame_count, 1);
}

#[test]
fn max_duration_matches_std() {
    assert_eq!(MAX_DURATION_NANOS, std::time::Duration::MAX.as_nanos());
    assert_eq!(NANOS_PER_SECOND, std::time::Duration::from_secs(1).as_nanos());
}

#[test]
fn render_error_responses() {
    assert_eq!(respond_to_render_error(SurfaceErrorKind::Lost), RenderErrorResponse::Resize);
    assert_eq!(respond_to_render_error(SurfaceErrorKind::OutOfMemory), RenderErrorResponse::Exit);
    assert_eq!(respond_to_render_error(SurfaceErrorKind::Timeout), RenderErrorResponse::Report);
    assert_eq!(respond_to_render_error(SurfaceErrorKind::Outdated), RenderErrorResponse::Report);
    assert_eq!(respond_to_render_error(SurfaceErrorKind::Other), RenderErrorResponse::Report);
}

#[test]
fn instance_config() {
    let debug = InstanceConfig::new(true);
    assert_eq!(debug.application_name, "Obsidian Graphish");
    assert_eq!(debug.engine_name, "Obsidian Engine");
    assert_eq!(debug.application_version, ash::vk::make_api_version(0, 1, 0, 0));
    assert_eq!(debug.application_version, 0x0040_0000);
    assert_eq!(debug.engine_version, 0x0040_0000);
    assert_eq!(debug.api_version, ash::vk::API_VERSION_1_3);
    assert_eq!(debug.api_version, 0x0040_3000);
    assert_eq!(debug.layer_names, vec!["VK_LAYER_KHRONOS_validation".to_string()]);
    let release = InstanceConfig::new(false);
    assert!(release.layer_names.is_empty());
}

#[test]
fn window_config() {
    let config = create_window_config(String::from("Obsidian graphish"), 600, 800);
    assert_eq!(config.title(), "Obsidian graphish");
    assert_eq!(config.height(), 600);
    assert_eq!(config.width(), 800);
}
