use rusty_beagle::{
    class_registered, failure_message, feature_level_supported, first_setup_step, hresult_failed,
    setup_transition, SetupStep, SetupTransition, D3D_FEATURE_LEVEL_11_0, SETUP_STEP_COUNT,
};

fn all_steps_in_order() -> Vec<SetupStep> {
    let mut steps = vec![first_setup_step()];
    loop {
        match setup_transition(*steps.last().unwrap(), true) {
            SetupTransition::Next(next) => steps.push(next),
            SetupTransition::Ready => return steps,
            SetupTransition::Abort(step) => panic!("success aborted at {:?}", step),
        }
    }
}

#[test]
fn all_successes_visit_every_step_once_then_ready() {
    let steps = all_steps_in_order();
    assert_eq!(steps.len(), SETUP_STEP_COUNT);
    assert_eq!(
        steps,
        vec![
            SetupStep::RegisterWindowClass,
            SetupStep::CreateWindow,
            SetupStep::CreateDevice,
            SetupStep::CheckFeatureLevel,
            SetupStep::QueryDxgiDevice,
            SetupStep::GetDxgiAdapter,
            SetupStep::GetDxgiFactory,
            SetupStep::CreateSwapChain,
            SetupStep::GetBackBuffer,
            SetupStep::CreateRenderTargetView,
            SetupStep::CreateDepthBuffer,
            SetupStep::CreateDepthStencilView,
            SetupStep::CreateVertexBuffer,
            SetupStep::CreateInputLayout,
            SetupStep::CreateVertexShader,
            SetupStep::CreatePixelShader,
            SetupStep::CreateRasterizerState,
        ]
    );
}

#[test]
fn a_failure_aborts_at_that_step() {
    for step in all_steps_in_order() {
        assert_eq!(setup_transition(step, false), SetupTransition::Abort(step));
    }
}

#[test]
fn last_step_success_is_ready() {
    assert_eq!(setup_transition(SetupStep::CreateRasterizerState, true), SetupTransition::Ready);
}

#[test]
fn failure_messages_match_the_reports() {
    let expected = [
        (SetupStep::RegisterWindowClass, "Failed to register window class!"),
        (SetupStep::CreateWindow, "Failed to create window! :("),
        (SetupStep::CreateDevice, "Failed to create device and device context!"),
        (
            SetupStep::CheckFeatureLevel,
            "DirectX 11 support is required, but this device does not support it! the highest selected feature level was: ",
        ),
        (SetupStep::QueryDxgiDevice, "Failed to obtain IDXGIDevice."),
        (SetupStep::GetDxgiAdapter, "Failed to obtain IDXGIAdapter."),
        (SetupStep::GetDxgiFactory, "Failed to obtain IDXGIFactory."),
        (SetupStep::CreateSwapChain, "Failed to create the swap chain!"),
        (SetupStep::GetBackBuffer, "Failed to get swap chain back buffer!"),
        (
            SetupStep::CreateRenderTargetView,
            "Failed to create a render target view from the swap chain back buffer!",
        ),
        (SetupStep::CreateDepthBuffer, "Failed to create depth buffer!"),
        (SetupStep::CreateDepthStencilView, "Failed to create depth view"),
        (SetupStep::CreateVertexBuffer, "Failed to create vertex buffer!"),
        (SetupStep::CreateInputLayout, "Failed to create input layout!"),
        (SetupStep::CreateVertexShader, "Failed to create vertex shader!"),
        (SetupStep::CreatePixelShader, "Failed to create vertex shader!"),
        (SetupStep::CreateRasterizerState, "Failed to create rasterizer state!"),
    ];
    for (step, message) in expected {
        assert_eq!(failure_message(step), message);
    }
}

#[test]
fn feature_level_report_reads_with_the_level_appended() {
    let report = format!("{}{}", failure_message(SetupStep::CheckFeatureLevel), 0xa100u32);
    assert_eq!(
        report,
        "DirectX 11 support is required, but this device does not support it! the highest selected feature level was: 41216"
    );
}

#[test]
fn hresult_failure_is_a_negative_value() {
    assert!(!hresult_failed(0));
    assert!(!hresult_failed(1));
    assert!(hresult_failed(0x8000_4005u32 as i32));
    assert!(hresult_failed(0x8007_000Eu32 as i32));
    assert!(hresult_failed(-1));
    assert!(!hresult_failed(i32::MAX));
}

#[test]
fn class_registration_fails_on_a_zero_atom() {
    assert!(!class_registered(0));
    assert!(class_registered(1));
    assert!(class_registered(0xC001));
}

#[test]
fn only_feature_level_11_0_is_accepted() {
    assert_eq!(D3D_FEATURE_LEVEL_11_0, 0xb000);
    assert!(feature_level_supported(0xb000));
    assert!(!feature_level_supported(0xa100));
    assert!(!feature_level_supported(0xb100));
    assert!(!feature_level_supported(0));
}
