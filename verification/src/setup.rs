use vstd::prelude::*;

verus! {

/// `D3D_FEATURE_LEVEL_11_0`: the Direct3D feature level the program needs.
pub const D3D_FEATURE_LEVEL_11_0: u32 = 0xb000;

/// The number of start-up steps.
pub const SETUP_STEP_COUNT: usize = 17;

/// The start-up steps, in the order in which they run. Each can fail; the
/// first failure is reported and ends the program.
#[derive(PartialEq, Eq, Structural, Clone, Copy, Debug)]
pub enum SetupStep {
    /// `RegisterClassExW` for the main window class.
    RegisterWindowClass,
    /// `CreateWindowExW` for the main window (then `ShowWindow`).
    CreateWindow,
    /// `D3D11CreateDevice`: the device and its immediate context.
    CreateDevice,
    /// The feature level that device creation selected must be 11.0.
    CheckFeatureLevel,
    /// `QueryInterface` for the device's `IDXGIDevice`.
    QueryDxgiDevice,
    /// `GetParent` of the `IDXGIDevice`: its `IDXGIAdapter`.
    GetDxgiAdapter,
    /// `GetParent` of the adapter: its `IDXGIFactory`.
    GetDxgiFactory,
    /// `CreateSwapChain` on the factory (then the DXGI interfaces are released).
    CreateSwapChain,
    /// `GetBuffer(0)` of the swap chain: the back buffer.
    GetBackBuffer,
    /// `CreateRenderTargetView` on the back buffer (then it is released).
    CreateRenderTargetView,
    /// `CreateTexture2D` for the depth/stencil buffer.
    CreateDepthBuffer,
    /// `CreateDepthStencilView` on the depth buffer (then both views are bound).
    CreateDepthStencilView,
    /// `CreateBuffer` for the vertex buffer (then it is bound).
    CreateVertexBuffer,
    /// `CreateInputLayout` from the element descriptions and the vertex shader code.
    CreateInputLayout,
    /// `CreateVertexShader`.
    CreateVertexShader,
    /// `CreatePixelShader` (then both shaders are set).
    CreatePixelShader,
    /// `CreateRasterizerState` (then it and the viewport are set).
    CreateRasterizerState,
}

/// What follows a step.
#[derive(PartialEq, Eq, Structural, Clone, Copy, Debug)]
pub enum SetupTransition {
    /// Run this step next.
    Next(SetupStep),
    /// Every step succeeded: enter the main loop.
    Ready,
    /// This step failed: report its failure message and end the program.
    Abort(SetupStep),
}

/// The position of a step in the start-up order, from 0.
pub open spec fn step_index(step: SetupStep) -> nat {
    match step {
        SetupStep::RegisterWindowClass => 0,
        SetupStep::CreateWindow => 1,
        SetupStep::CreateDevice => 2,
        SetupStep::CheckFeatureLevel => 3,
        SetupStep::QueryDxgiDevice => 4,
        SetupStep::GetDxgiAdapter => 5,
        SetupStep::GetDxgiFactory => 6,
        SetupStep::CreateSwapChain => 7,
        SetupStep::GetBackBuffer => 8,
        SetupStep::CreateRenderTargetView => 9,
        SetupStep::CreateDepthBuffer => 10,
        SetupStep::CreateDepthStencilView => 11,
        SetupStep::CreateVertexBuffer => 12,
        SetupStep::CreateInputLayout => 13,
        SetupStep::CreateVertexShader => 14,
        SetupStep::CreatePixelShader => 15,
        SetupStep::CreateRasterizerState => 16,
    }
}

/// The step at a position of the start-up order.
pub open spec fn step_at(index: nat) -> SetupStep
    recommends
        index < SETUP_STEP_COUNT,
{
    if index == 0 {
        SetupStep::RegisterWindowClass
    } else if index == 1 {
        SetupStep::CreateWindow
    } else if index == 2 {
        SetupStep::CreateDevice
    } else if index == 3 {
        SetupStep::CheckFeatureLevel
    } else if index == 4 {
        SetupStep::QueryDxgiDevice
    } else if index == 5 {
        SetupStep::GetDxgiAdapter
    } else if index == 6 {
        SetupStep::GetDxgiFactory
    } else if index == 7 {
        SetupStep::CreateSwapChain
    } else if index == 8 {
        SetupStep::GetBackBuffer
    } else if index == 9 {
        SetupStep::CreateRenderTargetView
    } else if index == 10 {
        SetupStep::CreateDepthBuffer
    } else if index == 11 {
        SetupStep::CreateDepthStencilView
    } else if index == 12 {
        SetupStep::CreateVertexBuffer
    } else if index == 13 {
        SetupStep::CreateInputLayout
    } else if index == 14 {
        SetupStep::CreateVertexShader
    } else if index == 15 {
        SetupStep::CreatePixelShader
    } else {
        SetupStep::CreateRasterizerState
    }
}

/// What follows a step that succeeded or failed.
pub open spec fn spec_setup_transition(step: SetupStep, succeeded: bool) -> SetupTransition {
    if !succeeded {
        SetupTransition::Abort(step)
    } else if step_index(step) + 1 == SETUP_STEP_COUNT {
        SetupTransition::Ready
    } else {
        SetupTransition::Next(step_at(step_index(step) + 1))
    }
}

/// The first start-up step.
pub fn first_setup_step() -> (step: SetupStep)
    ensures
        step == step_at(0),
        step_index(step) == 0,
{
    SetupStep::RegisterWindowClass
}

/// Decides what follows `step`, given whether it succeeded: a failure
/// aborts at that step, a success moves to the next step in order, and
/// success of the last step means the program is ready.
pub fn setup_transition(step: SetupStep, succeeded: bool) -> (next: SetupTransition)
    ensures
        next == spec_setup_transition(step, succeeded),
        !succeeded ==> next == SetupTransition::Abort(step),
{
    if !succeeded {
        return SetupTransition::Abort(step);
    }
    match step {
        SetupStep::RegisterWindowClass => SetupTransition::Next(SetupStep::CreateWindow),
        SetupStep::CreateWindow => SetupTransition::Next(SetupStep::CreateDevice),
        SetupStep::CreateDevice => SetupTransition::Next(SetupStep::CheckFeatureLevel),
        SetupStep::CheckFeatureLevel => SetupTransition::Next(SetupStep::QueryDxgiDevice),
        SetupStep::QueryDxgiDevice => SetupTransition::Next(SetupStep::GetDxgiAdapter),
        SetupStep::GetDxgiAdapter => SetupTransition::Next(SetupStep::GetDxgiFactory),
        SetupStep::GetDxgiFactory => SetupTransition::Next(SetupStep::CreateSwapChain),
        SetupStep::CreateSwapChain => SetupTransition::Next(SetupStep::GetBackBuffer),
        SetupStep::GetBackBuffer => SetupTransition::Next(SetupStep::CreateRenderTargetView),
        SetupStep::CreateRenderTargetView => SetupTransition::Next(SetupStep::CreateDepthBuffer),
        SetupStep::CreateDepthBuffer => SetupTransition::Next(SetupStep::CreateDepthStencilView),
        SetupStep::CreateDepthStencilView => SetupTransition::Next(SetupStep::CreateVertexBuffer),
        SetupStep::CreateVertexBuffer => SetupTransition::Next(SetupStep::CreateInputLayout),
        SetupStep::CreateInputLayout => SetupTransition::Next(SetupStep::CreateVertexShader),
        SetupStep::CreateVertexShader => SetupTransition::Next(SetupStep::CreatePixelShader),
        SetupStep::CreatePixelShader => SetupTransition::Next(SetupStep::CreateRasterizerState),
        SetupStep::CreateRasterizerState => SetupTransition::Ready,
    }
}

/// `FAILED(hr)`: an `HRESULT` reports failure when it is negative.
pub open spec fn hresult_is_failure(hr: i32) -> bool {
    hr < 0
}

/// Whether a Win32/COM call that returned `hr` failed (`FAILED(hr)`).
pub fn hresult_failed(hr: i32) -> (failed: bool)
    ensures
        failed == hresult_is_failure(hr),
        failed == (hr < 0),
{
    hr < 0
}

/// Whether `RegisterClassExW` succeeded: it returns the class atom, or 0 on failure.
pub fn class_registered(atom: u16) -> (registered: bool)
    ensures
        registered == (atom != 0),
{
    atom != 0
}

/// Whether the feature level selected at device creation is the one the
/// program needs (11.0).
pub fn feature_level_supported(selected: u32) -> (supported: bool)
    ensures
        supported == (selected == D3D_FEATURE_LEVEL_11_0),
        supported == (selected == 0xb000),
{
    selected == D3D_FEATURE_LEVEL_11_0
}

/// The report printed when a step fails. For `CheckFeatureLevel` the
/// selected feature level, in decimal, follows the text.
pub open spec fn spec_failure_message(step: SetupStep) -> Seq<char> {
    match step {
        SetupStep::RegisterWindowClass => "Failed to register window class!"@,
        SetupStep::CreateWindow => "Failed to create window! :("@,
        SetupStep::CreateDevice => "Failed to create device and device context!"@,
        SetupStep::CheckFeatureLevel => "DirectX 11 support is required, but this device does not support it! the highest selected feature level was: "@,
        SetupStep::QueryDxgiDevice => "Failed to obtain IDXGIDevice."@,
        SetupStep::GetDxgiAdapter => "Failed to obtain IDXGIAdapter."@,
        SetupStep::GetDxgiFactory => "Failed to obtain IDXGIFactory."@,
        SetupStep::CreateSwapChain => "Failed to create the swap chain!"@,
        SetupStep::GetBackBuffer => "Failed to get swap chain back buffer!"@,
        SetupStep::CreateRenderTargetView => "Failed to create a render target view from the swap chain back buffer!"@,
        SetupStep::CreateDepthBuffer => "Failed to create depth buffer!"@,
        SetupStep::CreateDepthStencilView => "Failed to create depth view"@,
        SetupStep::CreateVertexBuffer => "Failed to create vertex buffer!"@,
        SetupStep::CreateInputLayout => "Failed to create input layout!"@,
        SetupStep::CreateVertexShader => "Failed to create vertex shader!"@,
        SetupStep::CreatePixelShader => "Failed to create vertex shader!"@,
        SetupStep::CreateRasterizerState => "Failed to create rasterizer state!"@,
    }
}

/// The report printed when `step` fails.
pub fn failure_message(step: SetupStep) -> (message: &'static str)
    ensures
        message@ == spec_failure_message(step),
{
    match step {
        SetupStep::RegisterWindowClass => "Failed to register window class!",
        SetupStep::CreateWindow => "Failed to create window! :(",
        SetupStep::CreateDevice => "Failed to create device and device context!",
        SetupStep::CheckFeatureLevel => "DirectX 11 support is required, but this device does not support it! the highest selected feature level was: ",
        SetupStep::QueryDxgiDevice => "Failed to obtain IDXGIDevice.",
        SetupStep::GetDxgiAdapter => "Failed to obtain IDXGIAdapter.",
        SetupStep::GetDxgiFactory => "Failed to obtain IDXGIFactory.",
        SetupStep::CreateSwapChain => "Failed to create the swap chain!",
        SetupStep::GetBackBuffer => "Failed to get swap chain back buffer!",
        SetupStep::CreateRenderTargetView => "Failed to create a render target view from the swap chain back buffer!",
        SetupStep::CreateDepthBuffer => "Failed to create depth buffer!",
        SetupStep::CreateDepthStencilView => "Failed to create depth view",
        SetupStep::CreateVertexBuffer => "Failed to create vertex buffer!",
        SetupStep::CreateInputLayout => "Failed to create input layout!",
        SetupStep::CreateVertexShader => "Failed to create vertex shader!",
        SetupStep::CreatePixelShader => "Failed to create vertex shader!",
        SetupStep::CreateRasterizerState => "Failed to create rasterizer state!",
    }
}

/// Where start-up stands after running from `step` with the given
/// outcomes, the first of which is that of `step` itself: the step still
/// to run, `Ready`, or the step that aborted. Outcomes after the end are
/// never looked at.
pub open spec fn run_setup(step: SetupStep, outcomes: Seq<bool>) -> SetupTransition
    decreases outcomes.len(),
{
    if outcomes.len() == 0 {
        SetupTransition::Next(step)
    } else {
        match spec_setup_transition(step, outcomes[0]) {
            SetupTransition::Next(next) => run_setup(next, outcomes.drop_first()),
            other => other,
        }
    }
}

/// `FAILED(hr)` is exactly the sign of the `HRESULT`: every negative value,
/// whatever its facility and code, is a failure (for example
/// `DXGI_ERROR_UNSUPPORTED`, 0x887A0004), and every value from 0 up
/// (`S_OK`, `S_FALSE`, ...) is a success.
pub proof fn lemma_failure_is_negative(hr: i32)
    ensures
        hresult_is_failure(hr) <==> hr < 0,
        hresult_is_failure(-2005270524i32),
        hresult_is_failure(i32::MIN),
        !hresult_is_failure(0i32),
        !hresult_is_failure(1i32),
{
}

/// The start-up steps in the order in which they run.
pub open spec fn setup_order() -> Seq<SetupStep> {
    seq![
        SetupStep::RegisterWindowClass,
        SetupStep::CreateWindow,
        SetupStep::CreateDevice,
        SetupStep::CheckFeatureLevel,
        SetupStep::QueryDxgiDevice,
        SetupStep::GetDxgiAdapter,
        SetupStep::GetDxgiFactory,
        SetupStep::CreateSwapChain,
        SetupStep::GetBackBuffer,
        SetupStep::CreateRenderTargetView,
        SetupStep::CreateDepthBuffer,
        SetupStep::CreateDepthStencilView,
        SetupStep::CreateVertexBuffer,
        SetupStep::CreateInputLayout,
        SetupStep::CreateVertexShader,
        SetupStep::CreatePixelShader,
        SetupStep::CreateRasterizerState,
    ]
}

/// `k` successes in a row from position `index` reach position `index + k`.
pub proof fn lemma_successes_advance(index: nat, k: nat)
    requires
        index + k < SETUP_STEP_COUNT,
    ensures
        run_setup(step_at(index), Seq::new(k, |i: int| true)) == SetupTransition::Next(step_at(index + k)),
    decreases k,
{
    let outcomes = Seq::new(k, |i: int| true);
    if k > 0 {
        lemma_step_order(step_at(index), index);
        assert(outcomes.drop_first() =~= Seq::new((k - 1) as nat, |i: int| true));
        lemma_successes_advance(index + 1, (k - 1) as nat);
    } else {
        assert(outcomes.len() == 0);
    }
}

/// Started at the first step, a run of `k` successes stands at the `k`-th
/// step of the start-up order, and seventeen successes make it ready: every
/// step runs once, in this order, and none is skipped.
pub proof fn lemma_successful_run_follows_order(k: nat)
    requires
        k <= SETUP_STEP_COUNT,
    ensures
        step_at(0) == SetupStep::RegisterWindowClass,
        k < SETUP_STEP_COUNT ==> run_setup(SetupStep::RegisterWindowClass, Seq::new(k, |i: int| true))
            == SetupTransition::Next(setup_order()[k as int]),
        k == SETUP_STEP_COUNT ==> run_setup(SetupStep::RegisterWindowClass, Seq::new(k, |i: int| true))
            == SetupTransition::Ready,
{
    if k < SETUP_STEP_COUNT {
        lemma_successes_advance(0, k);
        assert(step_at(k) == setup_order()[k as int]);
    } else {
        let outcomes = Seq::new(k, |i: int| true);
        assert forall|j: int| 0 <= j < outcomes.len() implies #[trigger] outcomes[j] by {}
        lemma_all_success_ready(0, outcomes);
    }
}

/// The start-up order is a numbering of the steps: every position below
/// the step count holds exactly one step, and every step has a position.
pub proof fn lemma_step_order(step: SetupStep, index: nat)
    ensures
        step_index(step) < SETUP_STEP_COUNT,
        step_at(step_index(step)) == step,
        index < SETUP_STEP_COUNT ==> step_index(step_at(index)) == index,
{
}

/// Running from position `index` with one success for each remaining step
/// ends `Ready`.
pub proof fn lemma_all_success_ready(index: nat, outcomes: Seq<bool>)
    requires
        index < SETUP_STEP_COUNT,
        outcomes.len() == SETUP_STEP_COUNT - index,
        forall|j: int| 0 <= j < outcomes.len() ==> #[trigger] outcomes[j],
    ensures
        run_setup(step_at(index), outcomes) == SetupTransition::Ready,
    decreases outcomes.len(),
{
    lemma_step_order(step_at(index), index);
    assert(outcomes[0]);
    if index + 1 < SETUP_STEP_COUNT {
        let rest = outcomes.drop_first();
        assert forall|j: int| 0 <= j < rest.len() implies #[trigger] rest[j] by {
            assert(rest[j] == outcomes[j + 1]);
        }
        lemma_all_success_ready(index + 1, rest);
    }
}

/// The first failure decides: when every step before position `index + k`
/// succeeded and that step failed, start-up aborts at that step.
pub proof fn lemma_first_failure_aborts(index: nat, outcomes: Seq<bool>, k: nat)
    requires
        index + k < SETUP_STEP_COUNT,
        k < outcomes.len(),
        !outcomes[k as int],
        forall|j: int| 0 <= j < k ==> #[trigger] outcomes[j],
    ensures
        run_setup(step_at(index), outcomes) == SetupTransition::Abort(step_at(index + k)),
    decreases k,
{
    lemma_step_order(step_at(index), index);
    if k > 0 {
        assert(outcomes[0]);
        let rest = outcomes.drop_first();
        assert forall|j: int| 0 <= j < k - 1 implies #[trigger] rest[j] by {
            assert(rest[j] == outcomes[j + 1]);
        }
        assert(rest[k - 1] == outcomes[k as int]);
        lemma_first_failure_aborts(index + 1, rest, (k - 1) as nat);
    }
}

/// Start-up is ready only when every step from position `index` on succeeded.
pub proof fn lemma_ready_only_after_all_success(index: nat, outcomes: Seq<bool>)
    requires
        index < SETUP_STEP_COUNT,
        run_setup(step_at(index), outcomes) == SetupTransition::Ready,
    ensures
        outcomes.len() >= SETUP_STEP_COUNT - index,
        forall|j: int| 0 <= j < SETUP_STEP_COUNT - index ==> #[trigger] outcomes[j],
    decreases outcomes.len(),
{
    lemma_step_order(step_at(index), index);
    if outcomes.len() > 0 && outcomes[0] && index + 1 < SETUP_STEP_COUNT {
        let rest = outcomes.drop_first();
        lemma_ready_only_after_all_success(index + 1, rest);
        assert forall|j: int| 0 <= j < SETUP_STEP_COUNT - index implies #[trigger] outcomes[j] by {
            if j > 0 {
                assert(outcomes[j] == rest[j - 1]);
            }
        }
    }
}

} // verus!
