use rayca_vk::frame::{
    present_outcome, AcquireFailure, Frame, FrameCache, FrameError, PrimitiveDraw, SceneEntity,
    SlotState, SubmitInfo, SwapchainFrames, ERROR_OUT_OF_DATE,
};
use rayca_vk::handle::Handle;
use rayca_vk::keys::{MaterialKey, ModelMatrixKey, ProjMatrixKey, ViewMatrixKey};
use rayca_vk::swapchain::{Size2, SurfaceCapabilities, Swapchain, TRANSFORM_IDENTITY};
use rayca_vk::sync::{FenceStatus, Semaphore};

fn caps() -> SurfaceCapabilities {
    SurfaceCapabilities {
        min_image_extent: Size2::new(16, 16),
        max_image_extent: Size2::new(1024, 768),
        current_transform: TRANSFORM_IDENTITY,
    }
}

fn pool(n: usize) -> SwapchainFrames<u32> {
    let swapchain = Swapchain::new(1, n, &caps(), Size2::new(640, 480));
    let mut caches = Vec::new();
    for i in 0..n as u64 {
        caches.push(FrameCache::new(10 + i, 20 + i, 30 + i, Semaphore::new(40 + i), Semaphore::new(50 + i)));
    }
    SwapchainFrames::new(swapchain, caches)
}

/// Acquires image `index`, records nothing, and hands the frame back.
fn acquire(frames: &mut SwapchainFrames<u32>, index: u32, semaphore: u64) -> (Frame<u32>, bool, bool) {
    match frames.next_frame(Ok(index), Semaphore::new(semaphore)) {
        Ok(next) => (next.frame, next.wait_fence, next.blocking),
        Err(e) => panic!("acquisition failed: {:?}", e.error),
    }
}

fn record_and_present(frames: &mut SwapchainFrames<u32>, mut frame: Frame<u32>) -> SubmitInfo {
    frame.begin();
    frames.present(frame)
}

#[test]
fn pool_has_one_idle_slot_per_image() {
    let frames = pool(3);
    assert_eq!(frames.frames.len(), 3);
    for (i, slot) in frames.frames.iter().enumerate() {
        let f = slot.as_ref().unwrap();
        assert_eq!(f.id, i);
        assert_eq!(f.in_flight_count, 3);
        assert_eq!(f.state, SlotState::Idle);
        assert_eq!(f.get_size(), Size2::new(640, 480));
        assert_eq!(f.cache.fence.status, FenceStatus::Signaled);
    }
}

#[test]
fn rotation_blocks_only_on_reuse() {
    let mut frames = pool(3);
    for (i, sem) in [(0u32, 100u64), (1, 101), (2, 102)] {
        let (frame, _, blocking) = acquire(&mut frames, i, sem);
        assert!(!blocking);
        record_and_present(&mut frames, frame);
    }
    let (frame, wait_fence, blocking) = acquire(&mut frames, 0, 103);
    assert!(wait_fence);
    assert!(blocking);
    assert_eq!(frame.id, 0);
    assert_eq!(frame.cache.fence.status, FenceStatus::Unsignaled);
}

#[test]
fn reacquired_slot_waits_for_its_submission() {
    let mut frames = pool(3);
    let (frame, _, blocking) = acquire(&mut frames, 0, 100);
    assert!(!blocking);
    let submit = record_and_present(&mut frames, frame);
    assert_eq!(submit.image_index, 0);
    assert_eq!(submit.fence, 30);
    assert_eq!(submit.wait, 100);
    assert_eq!(submit.signal, 50);
    assert_eq!(submit.command_buffer, 10);
    assert_eq!(frames.frames[0].as_ref().unwrap().cache.fence.status, FenceStatus::Pending);

    let (one, _, blocking) = acquire(&mut frames, 1, 101);
    assert!(!blocking);
    assert_eq!(one.id, 1);
    let (two, _, blocking) = acquire(&mut frames, 2, 102);
    assert!(!blocking);
    assert_eq!(two.id, 2);

    let (zero, wait_fence, blocking) = acquire(&mut frames, 0, 103);
    assert!(wait_fence);
    assert!(blocking);
    assert_eq!(zero.id, 0);
    assert_eq!(zero.state, SlotState::Idle);
    assert_eq!(zero.cache.fence.status, FenceStatus::Unsignaled);
    assert!(!zero.cache.fence.can_wait);
}

#[test]
fn acquisition_replaces_image_ready_semaphore() {
    let mut frames = pool(2);
    match frames.next_frame(Ok(1), Semaphore::new(900)) {
        Ok(next) => {
            assert_eq!(next.retired, Semaphore::new(41));
            assert_eq!(next.frame.cache.image_ready, Semaphore::new(900));
            assert!(next.wait_fence);
            assert!(!next.blocking);
        }
        Err(_) => panic!("slot one is free"),
    }
    assert!(frames.frames[1].is_none());
}

#[test]
fn failed_acquisitions_report_errors() {
    let mut frames = pool(3);
    assert_eq!(
        frames.next_frame(Err(ERROR_OUT_OF_DATE), Semaphore::new(1)).err(),
        Some(AcquireFailure { error: FrameError::RecreateNeeded, unused: Semaphore::new(1) })
    );
    assert_eq!(
        frames.next_frame(Err(-4), Semaphore::new(2)).err(),
        Some(AcquireFailure { error: FrameError::Device(-4), unused: Semaphore::new(2) })
    );
    assert_eq!(
        frames.next_frame(Ok(3), Semaphore::new(3)).err(),
        Some(AcquireFailure { error: FrameError::SlotUnavailable(3), unused: Semaphore::new(3) })
    );
    let (_held, _, _) = acquire(&mut frames, 2, 4);
    assert_eq!(
        frames.next_frame(Ok(2), Semaphore::new(5)).err(),
        Some(AcquireFailure { error: FrameError::SlotUnavailable(2), unused: Semaphore::new(5) })
    );
}

#[test]
fn present_outcomes() {
    assert_eq!(present_outcome(Ok(false)), Ok(()));
    assert_eq!(present_outcome(Ok(true)), Err(FrameError::RecreateNeeded));
    assert_eq!(present_outcome(Err(ERROR_OUT_OF_DATE)), Err(FrameError::RecreateNeeded));
    assert_eq!(present_outcome(Err(-3)), Err(FrameError::Device(-3)));
}

#[test]
fn out_of_date_present_then_resize_yields_new_extent() {
    let mut frames = pool(3);
    let (mut frame, _, _) = acquire(&mut frames, 0, 100);
    frame.begin();
    let entity = SceneEntity {
        model: Handle::new(0),
        node: Handle::new(4),
        has_mesh: true,
        camera: Handle::none(),
        primitives: vec![],
    };
    frame.update_entity(&entity, &|| 7u32);
    frames.present(frame);
    assert_eq!(present_outcome(Err(ERROR_OUT_OF_DATE)), Err(FrameError::RecreateNeeded));

    let requested = Size2::new(2000, 300);
    let swapchain = Swapchain::new(2, 3, &caps(), requested);
    let semaphores = vec![Semaphore::new(60), Semaphore::new(61), Semaphore::new(62)];
    let retired = frames.recreate_swapchain(swapchain, &semaphores).unwrap();
    assert_eq!(retired, vec![Semaphore::new(100), Semaphore::new(41), Semaphore::new(42)]);
    assert_eq!(frames.frames.len(), 3);

    let (next, _, _) = acquire(&mut frames, 1, 101);
    assert_eq!(next.get_size(), Size2::new(1024, 300));
    assert_eq!(next.cache.image_ready, Semaphore::new(101));
    let (zero, _, blocking) = acquire(&mut frames, 0, 102);
    assert!(blocking);
    assert_eq!(zero.get_size(), Size2::new(1024, 300));
    let key = ModelMatrixKey { model: Handle::new(0), node: Handle::new(4) };
    assert_eq!(zero.cache.model_buffers.get(&key), Some(&7));
    assert_eq!(zero.cache.image_drawn, Semaphore::new(50));
}

#[test]
fn recreate_refuses_other_counts_and_missing_slots() {
    let mut frames = pool(3);
    let two = Swapchain::new(2, 2, &caps(), Size2::new(100, 100));
    let sems = vec![Semaphore::new(1), Semaphore::new(2), Semaphore::new(3)];
    assert_eq!(frames.recreate_swapchain(two, &sems), Err(FrameError::SlotCountChanged));
    let three = Swapchain::new(2, 3, &caps(), Size2::new(100, 100));
    assert_eq!(frames.recreate_swapchain(three, &sems[..2].to_vec()), Err(FrameError::SlotCountChanged));
    let (_held, _, _) = acquire(&mut frames, 1, 9);
    assert_eq!(frames.recreate_swapchain(three, &sems), Err(FrameError::SlotUnavailable(1)));
    assert_eq!(frames.swapchain.swapchain, 1);
}

#[test]
fn update_pass_caches_buffers_and_groups_draws() {
    let mut frames = pool(2);
    let (mut frame, _, _) = acquire(&mut frames, 0, 100);
    frame.begin();
    let model = Handle::new(1);
    let camera_node = SceneEntity {
        model,
        node: Handle::new(0),
        has_mesh: false,
        camera: Handle::new(5),
        primitives: vec![],
    };
    let mesh_node = SceneEntity {
        model,
        node: Handle::new(2),
        has_mesh: true,
        camera: Handle::none(),
        primitives: vec![
            PrimitiveDraw { primitive: Handle::new(10), shader: 1 },
            PrimitiveDraw { primitive: Handle::new(11), shader: 0 },
            PrimitiveDraw { primitive: Handle::new(12), shader: 1 },
        ],
    };
    let plain_node = SceneEntity {
        model,
        node: Handle::new(3),
        has_mesh: false,
        camera: Handle::none(),
        primitives: vec![],
    };
    frame.update_entity(&camera_node, &|| 1u32);
    frame.update_entity(&mesh_node, &|| 2u32);
    frame.update_entity(&plain_node, &|| 3u32);
    frame.update_materials(model, 2, &|| 4u32);

    assert_eq!(frame.cache.model_buffers.len(), 2);
    assert_eq!(frame.cache.model_buffers.get(&ModelMatrixKey { model, node: Handle::new(0) }), Some(&1));
    assert_eq!(frame.cache.model_buffers.get(&ModelMatrixKey { model, node: Handle::new(2) }), Some(&2));
    assert_eq!(frame.cache.view_buffers.get(&ViewMatrixKey { model, node: Handle::new(0) }), Some(&1));
    assert_eq!(frame.cache.proj_buffers.get(&ProjMatrixKey { model, camera: Handle::new(5) }), Some(&1));
    assert_eq!(frame.cache.view_buffers.len(), 1);
    assert_eq!(frame.cache.material_buffers.len(), 2);
    assert!(frame.cache.material_buffers.contains(&MaterialKey { model, material: Handle::new(1) }));

    assert_eq!(frame.shaders(), vec![1, 0]);
    let ones: Vec<u32> = frame.draw_infos(1).iter().map(|d| d.primitive.id).collect();
    assert_eq!(ones, vec![10, 12]);
    let zeros: Vec<u32> = frame.draw_infos(0).iter().map(|d| d.primitive.id).collect();
    assert_eq!(zeros, vec![11]);
    assert!(frame.draw_infos(7).is_empty());

    let submit = frames.present(frame);
    assert_eq!(submit.image_index, 0);
    let (mut again, _, _) = acquire(&mut frames, 0, 101);
    again.begin();
    assert!(again.shaders().is_empty());
    again.update_entity(&mesh_node, &|| 9u32);
    assert_eq!(again.cache.model_buffers.get(&ModelMatrixKey { model, node: Handle::new(2) }), Some(&2));
    assert_eq!(again.cache.model_buffers.len(), 2);
}
