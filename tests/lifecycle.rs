use winit_wgpu_lifecycle::{
    backend_selection, choose_format_index, format_caps, swapchain_config, Action, AlphaMode, Event, Failure,
    FormatCap, FramePlan, Orchestrator, Phase, PresentMode, Size, SwapchainConfig,
};

const LINEAR: u32 = 10;
const SRGB: u32 = 11;

fn size(width: u32, height: u32) -> Size {
    Size { width, height }
}

fn caps() -> Vec<FormatCap<u32>> {
    vec![
        FormatCap { format: LINEAR, srgb: false },
        FormatCap { format: SRGB, srgb: true },
    ]
}

/// Plays the platform: feeds an event, then answers each action that asks
/// for an outcome, until the orchestrator has nothing more to ask.
struct Platform {
    orchestrator: Orchestrator<u32>,
    window: Size,
    formats: Vec<FormatCap<u32>>,
    adapter_failure: Option<Failure>,
    actions: Vec<Action<u32>>,
}

impl Platform {
    fn new() -> Platform {
        Platform {
            orchestrator: Orchestrator::new(),
            window: size(640, 480),
            formats: caps(),
            adapter_failure: None,
            actions: Vec::new(),
        }
    }

    fn send(&mut self, event: Event<u32>) {
        let mut next = Some(event);
        while let Some(ev) = next.take() {
            let action = self.orchestrator.handle(ev);
            self.actions.push(action);
            next = match action {
                Action::BindSurface => Some(Event::SurfaceBound(self.window)),
                Action::RequestAdapter => match self.adapter_failure {
                    Some(f) => Some(Event::Failed(f)),
                    None => Some(Event::AdapterFound(self.formats.clone())),
                },
                Action::BuildContext(_) => Some(Event::ContextBuilt),
                _ => None,
            };
        }
    }

    fn count(&self, pred: fn(&Action<u32>) -> bool) -> usize {
        self.actions.iter().filter(|a| pred(a)).count()
    }

    fn frames(&self) -> usize {
        self.count(|a| matches!(a, Action::RenderFrame(_)))
    }

    fn builds(&self) -> usize {
        self.count(|a| matches!(a, Action::BuildContext(_)))
    }

    fn last_config(&self) -> Option<SwapchainConfig<u32>> {
        self.actions.iter().rev().find_map(|a| match a {
            Action::ConfigureAndRedraw(c) => Some(*c),
            _ => None,
        })
    }
}

#[test]
fn resume_resize_redraw_draws_one_frame() {
    let mut p = Platform::new();
    p.send(Event::Resumed);
    assert!(p.orchestrator.is_ready());
    p.send(Event::Resized(size(800, 600)));
    p.send(Event::RedrawRequested);
    assert_eq!(p.frames(), 1);
    assert_eq!(
        p.actions.last(),
        Some(&Action::RenderFrame(FramePlan { vertex_count: 3, instance_count: 1 }))
    );
    let cfg = p.last_config().unwrap();
    assert_eq!((cfg.width, cfg.height), (800, 600));
    assert_eq!(cfg.format, SRGB);
    assert_eq!(p.orchestrator.surface_size(), Some(size(800, 600)));
}

#[test]
fn redraw_after_suspend_draws_nothing() {
    let mut p = Platform::new();
    p.send(Event::Resumed);
    p.send(Event::Suspended);
    assert_eq!(p.actions.last(), Some(&Action::ReleaseAll));
    p.send(Event::RedrawRequested);
    assert_eq!(p.frames(), 0);
    assert_eq!(p.orchestrator.phase(), Phase::Suspended);
    assert_eq!(p.actions.last(), Some(&Action::Nothing));
}

#[test]
fn second_resume_rebuilds_and_draws() {
    let mut p = Platform::new();
    p.send(Event::Resumed);
    p.send(Event::Suspended);
    p.send(Event::Resumed);
    p.send(Event::RedrawRequested);
    assert_eq!(p.frames(), 1);
    assert_eq!(p.builds(), 2);
    assert_eq!(p.count(|a| matches!(a, Action::BindSurface)), 2);
    let release = p.actions.iter().position(|a| *a == Action::ReleaseAll).unwrap();
    let second_build = p.actions.iter().rposition(|a| matches!(a, Action::BuildContext(_))).unwrap();
    assert!(second_build > release);
}

#[test]
fn no_compatible_adapter_aborts() {
    let mut p = Platform::new();
    p.adapter_failure = Some(Failure::AdapterNotFound);
    p.send(Event::Resumed);
    assert_eq!(p.actions.last(), Some(&Action::Abort(Failure::AdapterNotFound)));
    assert_eq!(p.orchestrator.phase(), Phase::Aborted(Failure::AdapterNotFound));
    assert!(!p.orchestrator.is_ready());
    assert_eq!(p.orchestrator.color_format(), None);
    assert_eq!(p.orchestrator.surface_size(), None);
    p.send(Event::RedrawRequested);
    assert_eq!(p.frames(), 0);
}

#[test]
fn adapter_without_formats_aborts() {
    let mut p = Platform::new();
    p.formats = Vec::new();
    p.send(Event::Resumed);
    assert_eq!(p.actions.last(), Some(&Action::Abort(Failure::AdapterNotFound)));
    assert_eq!(p.builds(), 0);
}

#[test]
fn context_built_once_without_suspend() {
    let mut p = Platform::new();
    p.send(Event::Resumed);
    p.send(Event::Resumed);
    p.send(Event::Resized(size(300, 200)));
    p.send(Event::RedrawRequested);
    p.send(Event::Resumed);
    assert_eq!(p.builds(), 1);
    assert_eq!(p.count(|a| matches!(a, Action::BindSurface)), 1);
}

#[test]
fn configure_twice_same_config() {
    let mut p = Platform::new();
    p.send(Event::Resumed);
    p.send(Event::Resized(size(1024, 768)));
    let first = p.actions.last().copied();
    let state = p.orchestrator.state();
    p.send(Event::Resized(size(1024, 768)));
    assert_eq!(p.actions.last().copied(), first);
    assert_eq!(p.orchestrator.state(), state);
}

#[test]
fn redraw_dropped_before_ready() {
    let mut o: Orchestrator<u32> = Orchestrator::new();
    assert_eq!(o.handle(Event::RedrawRequested), Action::Nothing);
    assert_eq!(o.phase(), Phase::Uninitialized);
    assert_eq!(o.handle(Event::Resumed), Action::BindSurface);
    assert_eq!(o.handle(Event::RedrawRequested), Action::Nothing);
    assert_eq!(o.handle(Event::SurfaceBound(size(10, 10))), Action::RequestAdapter);
    assert_eq!(o.handle(Event::RedrawRequested), Action::Nothing);
    assert_eq!(o.handle(Event::AdapterFound(caps())), Action::BuildContext(SRGB));
    assert_eq!(o.handle(Event::RedrawRequested), Action::Nothing);
    assert_eq!(o.phase(), Phase::Building);
}

#[test]
fn format_kept_across_resizes() {
    let mut p = Platform::new();
    p.send(Event::Resumed);
    p.formats = vec![FormatCap { format: LINEAR, srgb: false }];
    for w in 1..20u32 {
        p.send(Event::Resized(size(w * 10, w * 5)));
        p.send(Event::Resumed);
    }
    for a in &p.actions {
        if let Action::ConfigureAndRedraw(c) = a {
            assert_eq!(c.format, SRGB);
        }
    }
    assert_eq!(p.orchestrator.color_format(), Some(SRGB));
}

#[test]
fn suspend_releases_everything() {
    let mut p = Platform::new();
    p.send(Event::Resumed);
    assert!(p.orchestrator.color_format().is_some());
    p.send(Event::Suspended);
    let s = p.orchestrator.state();
    assert_eq!(s.surface, None);
    assert_eq!(s.context, None);
    assert_eq!(s.pending, None);
    assert_eq!(p.orchestrator.handle(Event::Resumed), Action::BindSurface);
}

#[test]
fn resize_before_ready_does_nothing() {
    let mut o: Orchestrator<u32> = Orchestrator::new();
    assert_eq!(o.handle(Event::Resized(size(5, 5))), Action::Nothing);
    assert_eq!(o.surface_size(), None);
    o.handle(Event::Resumed);
    o.handle(Event::SurfaceBound(size(10, 10)));
    assert_eq!(o.handle(Event::Resized(size(50, 40))), Action::Nothing);
    o.handle(Event::AdapterFound(caps()));
    match o.handle(Event::ContextBuilt) {
        Action::ConfigureAndRedraw(c) => assert_eq!((c.width, c.height), (50, 40)),
        other => panic!("unexpected {:?}", other),
    }
}

#[test]
fn close_is_terminal() {
    let mut p = Platform::new();
    p.send(Event::Resumed);
    p.send(Event::CloseRequested);
    assert_eq!(p.actions.last(), Some(&Action::Exit));
    assert_eq!(p.orchestrator.phase(), Phase::Closed);
    for ev in [Event::Resumed, Event::Suspended, Event::RedrawRequested, Event::CloseRequested] {
        assert_eq!(p.orchestrator.handle(ev), Action::Nothing);
    }
}

#[test]
fn each_failure_aborts() {
    let all = [
        Failure::AdapterNotFound,
        Failure::DeviceRequestFailed,
        Failure::ShaderCompileError,
        Failure::SurfaceCreationFailed,
        Failure::SurfaceAcquireTimeout,
        Failure::SurfaceLost,
    ];
    for f in all {
        let mut o: Orchestrator<u32> = Orchestrator::new();
        o.handle(Event::Resumed);
        assert_eq!(o.handle(Event::Failed(f)), Action::Abort(f));
        assert_eq!(o.phase(), Phase::Aborted(f));
        assert_eq!(o.handle(Event::Resumed), Action::Nothing);
    }
}

#[test]
fn frame_failure_while_ready_aborts() {
    let mut p = Platform::new();
    p.send(Event::Resumed);
    p.send(Event::RedrawRequested);
    assert_eq!(p.orchestrator.handle(Event::Failed(Failure::SurfaceLost)), Action::Abort(Failure::SurfaceLost));
    assert!(!p.orchestrator.is_ready());
}

#[test]
fn stale_outcomes_ignored() {
    let mut o: Orchestrator<u32> = Orchestrator::new();
    assert_eq!(o.handle(Event::ContextBuilt), Action::Nothing);
    assert_eq!(o.handle(Event::SurfaceBound(size(1, 1))), Action::Nothing);
    assert_eq!(o.handle(Event::AdapterFound(caps())), Action::Nothing);
    assert_eq!(o.handle(Event::Failed(Failure::SurfaceLost)), Action::Nothing);
    assert_eq!(o.phase(), Phase::Uninitialized);
}

#[test]
fn suspend_mid_negotiation_drops_pending_build() {
    let mut o: Orchestrator<u32> = Orchestrator::new();
    o.handle(Event::Resumed);
    o.handle(Event::SurfaceBound(size(10, 10)));
    o.handle(Event::AdapterFound(caps()));
    assert_eq!(o.handle(Event::Suspended), Action::ReleaseAll);
    assert_eq!(o.handle(Event::ContextBuilt), Action::Nothing);
    assert_eq!(o.color_format(), None);
}

#[test]
fn config_policy() {
    let c = swapchain_config(SRGB, size(800, 600));
    assert_eq!(
        c,
        SwapchainConfig {
            format: SRGB,
            width: 800,
            height: 600,
            present_mode: PresentMode::Fifo,
            alpha_mode: AlphaMode::Inherit,
            max_frame_latency: 2,
        }
    );
    assert_eq!(swapchain_config(SRGB, size(800, 600)), c);
}

#[test]
fn prefers_first_srgb() {
    let v = vec![
        FormatCap { format: 1u32, srgb: false },
        FormatCap { format: 2, srgb: true },
        FormatCap { format: 3, srgb: true },
    ];
    assert_eq!(choose_format_index(&v), Some(1));
}

#[test]
fn falls_back_to_first_format() {
    let v = vec![FormatCap { format: 1u32, srgb: false }, FormatCap { format: 2, srgb: false }];
    assert_eq!(choose_format_index(&v), Some(0));
    let single = vec![FormatCap { format: 5u32, srgb: true }];
    assert_eq!(choose_format_index(&single), Some(0));
    let empty: Vec<FormatCap<u32>> = Vec::new();
    assert_eq!(choose_format_index(&empty), None);
}

#[test]
fn wgpu_formats_classified() {
    let formats = vec![
        wgpu::TextureFormat::Bgra8Unorm,
        wgpu::TextureFormat::Bgra8UnormSrgb,
        wgpu::TextureFormat::Rgba16Float,
        wgpu::TextureFormat::Rgba8UnormSrgb,
    ];
    let caps = format_caps(&formats);
    let flags: Vec<bool> = caps.iter().map(|c| c.srgb).collect();
    assert_eq!(flags, vec![false, true, false, true]);
    assert_eq!(caps.iter().map(|c| c.format).collect::<Vec<_>>(), formats);
    assert_eq!(choose_format_index(&caps), Some(1));
}

#[test]
fn wgpu_linear_only_picks_first() {
    let formats = vec![wgpu::TextureFormat::Rgba16Float, wgpu::TextureFormat::Bgra8Unorm];
    let caps = format_caps(&formats);
    assert_eq!(choose_format_index(&caps), Some(0));
    let mut o: Orchestrator<wgpu::TextureFormat> = Orchestrator::new();
    o.handle(Event::Resumed);
    o.handle(Event::SurfaceBound(size(64, 64)));
    assert_eq!(
        o.handle(Event::AdapterFound(caps)),
        Action::BuildContext(wgpu::TextureFormat::Rgba16Float)
    );
}

#[test]
fn no_ready_without_resume() {
    let mut o: Orchestrator<u32> = Orchestrator::new();
    let events = vec![
        Event::Resized(size(100, 100)),
        Event::RedrawRequested,
        Event::SurfaceBound(size(100, 100)),
        Event::AdapterFound(caps()),
        Event::ContextBuilt,
        Event::Suspended,
        Event::ContextBuilt,
        Event::RedrawRequested,
    ];
    for ev in events {
        let a = o.handle(ev);
        assert!(!matches!(a, Action::RenderFrame(_)));
        assert!(!o.is_ready());
    }
    assert_eq!(o.phase(), Phase::Suspended);
}

#[test]
fn backend_list_override() {
    assert_eq!(backend_selection(Some("vulkan")), wgpu::Backends::VULKAN.bits());
    assert_eq!(
        backend_selection(Some("vk, GL")),
        (wgpu::Backends::VULKAN | wgpu::Backends::GL).bits()
    );
    assert_eq!(backend_selection(Some("metal,dx12")), (wgpu::Backends::METAL | wgpu::Backends::DX12).bits());
    assert_eq!(backend_selection(Some("nonsense")), 0);
}

#[test]
fn backend_default_is_all() {
    assert_eq!(backend_selection(None), wgpu::Backends::all().bits());
    assert_ne!(backend_selection(None), 0);
}
