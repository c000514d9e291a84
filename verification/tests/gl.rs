use ganvas::error::BootstrapError;
use ganvas::gl::{
    config_template, context_attributes, context_step, select_config, select_device,
    ConfigTemplate, ContextApi, ContextProfile, ContextStep, ALPHA_SIZE,
};

#[test]
fn first_device_is_selected() {
    assert_eq!(select_device(1), Ok(0));
    assert_eq!(select_device(4), Ok(0));
    assert_eq!(select_device(usize::MAX), Ok(0));
}

#[test]
fn no_device_is_a_failure() {
    assert_eq!(select_device(0), Err(BootstrapError::NoDevice));
}

#[test]
fn template_asks_for_alpha_and_no_surface() {
    let template = config_template();
    assert_eq!(template, ConfigTemplate { alpha_size: 8, surface_types: 0 });
    assert_eq!(template.alpha_size, ALPHA_SIZE);
    assert_eq!(
        glutin::config::ConfigSurfaceTypes::from_bits(template.surface_types),
        Some(glutin::config::ConfigSurfaceTypes::empty())
    );
}

#[test]
fn most_samples_win_and_ties_go_to_the_first() {
    assert_eq!(select_config(&vec![1, 4, 2, 4]), Ok(1));
}

#[test]
fn select_config_edges() {
    assert_eq!(select_config(&vec![]), Err(BootstrapError::NoConfig));
    assert_eq!(select_config(&vec![0]), Ok(0));
    assert_eq!(select_config(&vec![3, 3, 3]), Ok(0));
    assert_eq!(select_config(&vec![0, 1, 2, 8, 16]), Ok(4));
    assert_eq!(select_config(&vec![16, 8, 2, 1, 0]), Ok(0));
    assert_eq!(select_config(&vec![0, 255, 255, 0]), Ok(1));
}

#[test]
fn core_context_is_tried_first() {
    assert_eq!(context_step(None, None), ContextStep::Attempt(ContextProfile::Core));
    assert_eq!(context_step(Some(true), None), ContextStep::Use(ContextProfile::Core));
    assert_eq!(context_step(Some(true), Some(false)), ContextStep::Use(ContextProfile::Core));
}

#[test]
fn compatibility_context_is_the_fallback() {
    assert_eq!(
        context_step(Some(false), None),
        ContextStep::Attempt(ContextProfile::Compatibility)
    );
    assert_eq!(
        context_step(Some(false), Some(true)),
        ContextStep::Use(ContextProfile::Compatibility)
    );
}

#[test]
fn two_failed_attempts_fail_the_bootstrap() {
    assert_eq!(
        context_step(Some(false), Some(false)),
        ContextStep::Fail(BootstrapError::NoContext)
    );
}

#[test]
fn attributes_of_each_profile() {
    assert_eq!(context_attributes(ContextProfile::Core).api, None);
    assert_eq!(context_attributes(ContextProfile::Compatibility).api, Some(ContextApi::OpenGl));
}
