use std::cell::{Cell, RefCell};

use grafton_ndi::runtime::{AcquireStep, Phase, RuntimeState};
use grafton_ndi::Error;

/// The runtime's lifecycle rule driven by counting stand-ins for the SDK's
/// initialize and destroy calls.
struct TestableRuntimeManager {
    state: RefCell<RuntimeState>,
    init_count: Cell<usize>,
    destroy_count: Cell<usize>,
    init_should_fail: Cell<bool>,
}

impl TestableRuntimeManager {
    fn new() -> Self {
        Self {
            state: RefCell::new(RuntimeState::new()),
            init_count: Cell::new(0),
            destroy_count: Cell::new(0),
            init_should_fail: Cell::new(false),
        }
    }

    fn mock_initialize(&self) -> bool {
        self.init_count.set(self.init_count.get() + 1);
        !self.init_should_fail.get()
    }

    fn mock_destroy(&self) {
        self.destroy_count.set(self.destroy_count.get() + 1);
    }

    fn acquire(&self) -> Result<(), Error> {
        let step = self.state.borrow_mut().begin_acquire();
        match step {
            AcquireStep::Acquired => Ok(()),
            AcquireStep::Wait => panic!("a single thread never finds a transition in progress"),
            AcquireStep::Initialize => {
                let succeeded = self.mock_initialize();
                self.state.borrow_mut().finish_initialize(succeeded)
            }
        }
    }

    fn release(&self) {
        let mut state = self.state.borrow_mut();
        assert!(state.refcount > 0, "release() called with refcount 0");
        assert!(state.phase == Phase::Running, "release() called in phase {:?}", state.phase);
        if state.begin_release() {
            self.mock_destroy();
            state.finish_destroy();
        }
    }

    fn is_running(&self) -> bool {
        self.state.borrow().is_running()
    }

    fn phase(&self) -> Phase {
        self.state.borrow().phase
    }

    fn refcount(&self) -> usize {
        self.state.borrow().refcount
    }
}

#[test]
fn test_reinit_after_teardown() {
    let manager = TestableRuntimeManager::new();

    manager.acquire().expect("First init should succeed");
    assert_eq!(manager.init_count.get(), 1);
    assert!(manager.is_running());

    manager.release();
    assert_eq!(manager.destroy_count.get(), 1);
    assert!(!manager.is_running());
    assert_eq!(manager.phase(), Phase::Uninitialized);

    manager.acquire().expect("Second init should succeed");
    assert_eq!(manager.init_count.get(), 2);
    assert!(manager.is_running());

    manager.release();
    assert_eq!(manager.destroy_count.get(), 2);
    assert!(!manager.is_running());
}

#[test]
fn test_init_failure_retry() {
    let manager = TestableRuntimeManager::new();

    manager.init_should_fail.set(true);

    let result = manager.acquire();
    assert!(result.is_err());
    assert_eq!(manager.init_count.get(), 1);
    assert_eq!(manager.phase(), Phase::Failed);
    assert!(!manager.is_running());

    manager.init_should_fail.set(false);

    let result = manager.acquire();
    assert!(result.is_ok());
    assert_eq!(manager.init_count.get(), 2);
    assert!(manager.is_running());

    manager.release();
}

#[test]
fn test_no_ok_while_uninitialized() {
    let manager = TestableRuntimeManager::new();

    assert_eq!(manager.phase(), Phase::Uninitialized);
    assert!(!manager.is_running());
    assert_eq!(manager.init_count.get(), 0);

    manager.acquire().expect("Should succeed");
    assert_eq!(manager.init_count.get(), 1);

    manager.acquire().expect("Clone should succeed");
    assert_eq!(manager.init_count.get(), 1);
    assert_eq!(manager.refcount(), 2);

    manager.release();
    manager.release();

    assert_eq!(manager.phase(), Phase::Uninitialized);
    manager.acquire().expect("Re-init should succeed");
    assert_eq!(manager.init_count.get(), 2);

    manager.release();
}

#[test]
fn test_destroy_called_exactly_once_per_cycle() {
    let manager = TestableRuntimeManager::new();

    manager.acquire().expect("Init");
    manager.acquire().expect("Clone 1");
    manager.acquire().expect("Clone 2");
    assert_eq!(manager.refcount(), 3);
    assert_eq!(manager.destroy_count.get(), 0);

    manager.release();
    assert_eq!(manager.destroy_count.get(), 0);
    manager.release();
    assert_eq!(manager.destroy_count.get(), 0);
    manager.release();
    assert_eq!(manager.destroy_count.get(), 1);

    manager.acquire().expect("Re-init");
    manager.acquire().expect("Clone");
    assert_eq!(manager.destroy_count.get(), 1);

    manager.release();
    manager.release();
    assert_eq!(manager.destroy_count.get(), 2);
}

#[test]
fn test_source_cache_pattern() {
    let manager = TestableRuntimeManager::new();

    manager.acquire().expect("First source lookup");
    assert_eq!(manager.init_count.get(), 1);

    manager.acquire().expect("Second source");
    manager.acquire().expect("Third source");
    assert_eq!(manager.refcount(), 3);

    manager.release();
    manager.release();
    manager.release();

    assert_eq!(manager.destroy_count.get(), 1);
    assert!(!manager.is_running());

    manager.acquire().expect("New lookup after clear");
    assert_eq!(manager.init_count.get(), 2);
    assert!(manager.is_running());

    manager.release();
}
