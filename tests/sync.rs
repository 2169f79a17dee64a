use rayca_vk::sync::{Fence, FenceStatus, Semaphore, FENCE_CREATE_SIGNALED};

#[test]
fn signaled_fence_waits_once() {
    let mut fence = Fence::signaled(3);
    assert!(fence.can_wait);
    assert_eq!(fence.status, FenceStatus::Signaled);
    assert!(fence.wait());
    assert!(!fence.wait());
    assert!(!fence.can_wait);
}

#[test]
fn unsignaled_fence_does_not_wait() {
    let mut fence = Fence::unsignaled(4);
    assert!(!fence.can_wait);
    assert!(!fence.wait());
    assert_eq!(fence.status, FenceStatus::Unsignaled);
}

#[test]
fn fence_flags_select_initial_state() {
    assert!(Fence::new(1, FENCE_CREATE_SIGNALED).can_wait);
    assert!(Fence::new(1, 0x3).can_wait);
    assert!(!Fence::new(1, 0x2).can_wait);
    assert_eq!(Fence::new(1, 0).status, FenceStatus::Unsignaled);
}

#[test]
fn submitted_fence_must_be_waited_then_reset() {
    let mut fence = Fence::unsignaled(5);
    fence.submit();
    assert!(fence.can_wait);
    assert_eq!(fence.status, FenceStatus::Pending);
    assert!(fence.wait());
    assert_eq!(fence.status, FenceStatus::Signaled);
    assert!(!fence.wait());
    fence.reset();
    assert_eq!(fence.status, FenceStatus::Unsignaled);
    assert!(!fence.can_wait);
    assert_eq!(fence.fence, 5);
}

#[test]
fn flag_never_hides_pending_work() {
    let mut fence = Fence::signaled(6);
    for _ in 0..3 {
        assert!(fence.status != FenceStatus::Pending || fence.can_wait);
        fence.wait();
        fence.reset();
        assert!(fence.status != FenceStatus::Pending || fence.can_wait);
        fence.submit();
        assert!(fence.status != FenceStatus::Pending || fence.can_wait);
    }
}

#[test]
fn semaphore_keeps_handle() {
    assert_eq!(Semaphore::new(77).semaphore, 77);
}
