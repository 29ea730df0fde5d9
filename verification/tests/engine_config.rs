use aspen_renderer::rendergraph::RenderGraph;
use aspen_renderer::renderpass::HaltPolicy;
use aspen_renderer::{device_preference_rank, preferred_frames_in_flight, DeviceKind};

#[test]
fn dedicated_hardware_ranks_first() {
    assert_eq!(device_preference_rank(DeviceKind::Discrete), 0);
    assert_eq!(device_preference_rank(DeviceKind::Integrated), 1);
    assert_eq!(device_preference_rank(DeviceKind::Virtual), 2);
    assert_eq!(device_preference_rank(DeviceKind::Cpu), 3);
    assert_eq!(device_preference_rank(DeviceKind::Other), 4);
    assert_eq!(device_preference_rank(DeviceKind::Unknown), 5);
}

#[test]
fn at_least_two_frames_stay_in_flight() {
    assert_eq!(preferred_frames_in_flight(0), 2);
    assert_eq!(preferred_frames_in_flight(1), 2);
    assert_eq!(preferred_frames_in_flight(2), 2);
    assert_eq!(preferred_frames_in_flight(3), 3);
    assert_eq!(preferred_frames_in_flight(8), 8);
}

#[test]
fn halt_signal_distinguishes_its_two_levels() {
    assert_ne!(HaltPolicy::HaltThis, HaltPolicy::HaltAll);
    assert_eq!(HaltPolicy::HaltThis, HaltPolicy::HaltThis);
}

#[test]
fn empty_render_graph_renders_nothing() {
    let graph = RenderGraph::new();
    graph.render();
    RenderGraph::depthwise_recurse();
}
