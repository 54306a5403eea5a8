use vesuvius_engine::descriptor::ShaderStage;
use vesuvius_engine::pipeline::{PipelineConfiguration, ShaderConfiguration};
use vesuvius_engine::renderer::{GameRenderer, ReloadStep};
use vesuvius_engine::barrier::{barrier_masks, BarrierMasks, ImageLayout};
use vesuvius_engine::frame::{AcquireOutcome, FrameAction, FrameController, FrameError, FrameStage, PresentOutcome, Swapchain};
use vesuvius_engine::memory::get_memory_type_index;

fn swapchain(handle: u64, images: u64) -> Swapchain {
    Swapchain {
        handle,
        images: (0..images).map(|i| handle * 100 + i).collect(),
        image_views: (0..images).map(|i| handle * 1000 + i).collect(),
    }
}

fn ready(handle: u64, images: u64) -> FrameController {
    let mut c = FrameController::new();
    assert_eq!(c.stage, FrameStage::Invalid);
    assert!(c.recreate(swapchain(handle, images)).is_none());
    c
}

#[test]
fn out_of_date_present_rebuilds_without_error() {
    let mut c = ready(1, 2);
    assert_eq!(c.begin(AcquireOutcome::Acquired(1)), Ok(FrameAction::Record { image: 1 }));
    assert_eq!(c.present_target(), Ok((1, 1)));
    assert_eq!(c.end(PresentOutcome::OutOfDate), Ok(FrameAction::Recreate));
    assert_eq!(c.stage, FrameStage::Invalid);
    let retired = c.recreate(swapchain(2, 3)).unwrap();
    assert_eq!(retired.handle, 1);
    let now = c.swapchain.as_ref().unwrap();
    assert_eq!(now.handle, 2);
    assert_eq!(now.images.len(), 3);
    assert_eq!(now.image_views.len(), 3);
    assert_eq!(c.stage, FrameStage::Idle);
}

#[test]
fn presented_frame_waits_for_idle() {
    let mut c = ready(1, 2);
    assert_eq!(c.begin(AcquireOutcome::Acquired(0)), Ok(FrameAction::Record { image: 0 }));
    assert_eq!(c.stage, FrameStage::Recording);
    assert_eq!(c.end(PresentOutcome::Presented), Ok(FrameAction::WaitIdle));
    assert_eq!(c.stage, FrameStage::Idle);
}

#[test]
fn out_of_date_acquire_skips_the_frame() {
    let mut c = ready(1, 2);
    assert_eq!(c.begin(AcquireOutcome::OutOfDate), Ok(FrameAction::Recreate));
    assert_eq!(c.stage, FrameStage::Invalid);
    assert_eq!(c.present_target(), Err(FrameError::NoSwapchain));
}

#[test]
fn other_device_failures_are_returned() {
    let mut c = ready(1, 2);
    assert_eq!(c.begin(AcquireOutcome::Failed(-4)), Err(FrameError::Device(-4)));
    assert_eq!(c.begin(AcquireOutcome::Acquired(5)), Err(FrameError::ImageOutOfRange));
    c.begin(AcquireOutcome::Acquired(0)).unwrap();
    assert_eq!(c.end(PresentOutcome::Failed(-3)), Err(FrameError::Device(-3)));
    assert_eq!(c.stage, FrameStage::Idle);
}

#[test]
fn supported_layout_transitions() {
    assert_eq!(
        barrier_masks(ImageLayout::Undefined, ImageLayout::ColorAttachment),
        Some(BarrierMasks { src_access: 0, dst_access: 0, src_stage: 0x1, dst_stage: 0x400 })
    );
    assert_eq!(
        barrier_masks(ImageLayout::TransferDst, ImageLayout::ShaderReadOnly),
        Some(BarrierMasks { src_access: 0x1000, dst_access: 0x20, src_stage: 0x1000, dst_stage: 0x80 })
    );
    assert_eq!(
        barrier_masks(ImageLayout::ColorAttachment, ImageLayout::PresentSrc),
        Some(BarrierMasks { src_access: 0, dst_access: 0, src_stage: 0x400, dst_stage: 0x2000 })
    );
    assert!(barrier_masks(ImageLayout::Undefined, ImageLayout::TransferDst).is_some());
    assert_eq!(barrier_masks(ImageLayout::PresentSrc, ImageLayout::Undefined), None);
    assert_eq!(ImageLayout::PresentSrc.vulkan_code(), 1000001002);
}

#[test]
fn memory_type_is_the_first_allowed_match() {
    let flags = vec![0b001, 0b110, 0b010, 0b010];
    assert_eq!(get_memory_type_index(None, &flags, 0b010), Some(1));
    assert_eq!(get_memory_type_index(Some(0b1100), &flags, 0b010), Some(2));
    assert_eq!(get_memory_type_index(Some(0b0001), &flags, 0b010), None);
    assert_eq!(get_memory_type_index(None, &vec![], 0b1), None);
}

#[test]
fn renderer_drives_the_frame_cycle() {
    let mut renderer = GameRenderer::new();
    let configs = vec![PipelineConfiguration {
        name: "p".to_string(),
        shader: vec![ShaderConfiguration { resource: "vert.glsl".to_string(), kind: ShaderStage::Vertex }],
    }];
    let (retired, steps) = renderer.reload(swapchain(4, 2), true, &configs);
    assert!(retired.is_none());
    assert_eq!(steps, vec![ReloadStep::Create { config: 0 }]);
    assert_eq!(renderer.begin(AcquireOutcome::Acquired(1)), Ok(FrameAction::Record { image: 1 }));
    assert_eq!(renderer.end(PresentOutcome::OutOfDate), Ok(FrameAction::Recreate));
    let (retired, steps) = renderer.reload(swapchain(5, 2), false, &configs);
    assert_eq!(retired.unwrap().handle, 4);
    assert!(steps.is_empty());
    assert_eq!(renderer.frame.swapchain.as_ref().unwrap().handle, 5);
    assert_eq!(renderer.frame.stage, FrameStage::Idle);
}
