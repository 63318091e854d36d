//! Accessors, debug naming, image enumeration, and status interpretation.

use swapchain::status_to_result;
use swapchain::EnumerateReport;
use swapchain::Instance;
use swapchain::NamePlan;
use swapchain::Session;
use swapchain::Swapchain;
use swapchain::SwapchainError;
use swapchain::STATUS_SUCCESS;

fn adopted(debug_utils: bool) -> Swapchain {
    let instance = Instance::new(11, debug_utils);
    let session = Session::new(13, instance);
    Swapchain::from_raw(session, 21, 4)
}

#[test]
fn accessors_read_back_what_was_adopted() {
    let sc = adopted(true);
    assert_eq!(sc.as_raw(), 21);
    assert_eq!(sc.image_count(), 4);
    assert_eq!(sc.instance().raw_handle(), 11);
    assert!(sc.instance().has_debug_utils());
    assert_eq!(sc.owning_session().raw_handle(), 13);
    assert_eq!(sc.owning_session().instance().raw_handle(), 11);
}

#[test]
fn set_name_without_capability_is_a_silent_success() {
    // The capability is absent: success, and no driver call is planned.
    let sc = adopted(false);
    let plan = sc.set_name("left eye");
    assert!(matches!(plan, NamePlan::Done));
}

#[test]
fn set_name_with_capability_plans_the_driver_call() {
    let sc = adopted(true);
    match sc.set_name("left eye") {
        NamePlan::Call { instance_handle, object_handle, name } => {
            assert_eq!(instance_handle, 11);
            assert_eq!(object_handle, 21);
            assert_eq!(name, "left eye");
        }
        NamePlan::Done => panic!("the capability is present, so a call must be planned"),
    }
}

#[test]
fn set_name_may_be_repeated() {
    // Idempotent from this component's side: planning the call twice plans
    // the same call twice; the last write wins at the driver.
    let sc = adopted(true);
    for _ in 0..2 {
        match sc.set_name("left eye") {
            NamePlan::Call { object_handle, .. } => assert_eq!(object_handle, 21),
            NamePlan::Done => panic!("the capability is present, so a call must be planned"),
        }
    }
}

#[test]
fn enumerate_returns_the_fetched_descriptors_whole() {
    let sc = adopted(false);
    let report = EnumerateReport {
        count_status: STATUS_SUCCESS,
        count: 4,
        fill_status: STATUS_SUCCESS,
        filled: vec![100, 101, 102, 103],
    };
    let images = sc.enumerate_images(report);
    assert_eq!(images, Ok(vec![100, 101, 102, 103]));
}

#[test]
fn enumerate_twice_with_equal_reports_is_equal() {
    // No intervening resize: the driver answers both enumerations alike,
    // and the results have equal length and equal descriptor content.
    let sc = adopted(false);
    let first = sc.enumerate_images(EnumerateReport {
        count_status: STATUS_SUCCESS,
        count: 2,
        fill_status: STATUS_SUCCESS,
        filled: vec![31, 32],
    });
    let second = sc.enumerate_images(EnumerateReport {
        count_status: STATUS_SUCCESS,
        count: 2,
        fill_status: STATUS_SUCCESS,
        filled: vec![31, 32],
    });
    assert_eq!(first, second);
    let first = first.expect("enumeration succeeds on success reports");
    let second = second.expect("enumeration succeeds on success reports");
    assert_eq!(first.len(), second.len());
    assert_eq!(first, second);
}

#[test]
fn enumerate_reports_a_changed_count_instead_of_truncating() {
    let sc = adopted(false);
    let report = EnumerateReport {
        count_status: STATUS_SUCCESS,
        count: 4,
        fill_status: STATUS_SUCCESS,
        filled: vec![100, 101, 102],
    };
    let images = sc.enumerate_images(report);
    assert_eq!(images, Err(SwapchainError::ImageCountChanged { announced: 4, fetched: 3 }));
}

#[test]
fn enumerate_surfaces_the_first_failure() {
    let sc = adopted(false);
    let counted_failed = sc.enumerate_images(EnumerateReport {
        count_status: -3,
        count: 0,
        fill_status: STATUS_SUCCESS,
        filled: vec![],
    });
    assert_eq!(counted_failed, Err(SwapchainError::Driver { status: -3 }));
    let fetch_failed = sc.enumerate_images(EnumerateReport {
        count_status: STATUS_SUCCESS,
        count: 2,
        fill_status: -7,
        filled: vec![],
    });
    assert_eq!(fetch_failed, Err(SwapchainError::Driver { status: -7 }));
}

#[test]
fn status_interpretation_splits_on_the_sign() {
    assert_eq!(status_to_result(STATUS_SUCCESS), Ok(()));
    assert_eq!(status_to_result(1), Ok(()));
    assert_eq!(status_to_result(-2), Err(SwapchainError::Driver { status: -2 }));
}
