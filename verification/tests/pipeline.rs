use std::cell::RefCell;
use std::rc::Rc;
use std::sync::Arc;

use aspen_renderer::dispatcher::FrameHandOff;
use aspen_renderer::render_system::{DefaultRenderSystem, FrameReport};
use aspen_renderer::renderpass::{DynamicRenderPass, HaltPolicy, RenderPass};
use aspen_renderer::submit_system::SubmitSystem;
use aspen_renderer::window_surface::WindowSurface;

struct TestContext;

struct TestShared {
    frame: u64,
}

type EventLog = Rc<RefCell<Vec<String>>>;

struct TestStage {
    name: &'static str,
    log: EventLog,
    halt_preprocess: bool,
    halt_build: bool,
}

impl RenderPass for TestStage {
    type Context = TestContext;
    type SharedData = TestShared;
    type PreProcessed = u32;
    type Output = u32;
    type CmdBufType = Vec<String>;

    fn preprocess(
        &mut self,
        _graphics_objects: Arc<TestContext>,
        shared: Arc<TestShared>,
    ) -> Result<u32, HaltPolicy> {
        assert_eq!(shared.frame, 1);
        self.log.borrow_mut().push(format!("{}:pre", self.name));
        if self.halt_preprocess {
            Err(HaltPolicy::HaltThis)
        } else {
            Ok(7)
        }
    }

    fn build_commands(
        &mut self,
        _graphics_objects: Arc<TestContext>,
        _shared: Arc<TestShared>,
        cmd_buffer: &mut Vec<String>,
        preprocessed: u32,
    ) -> Result<u32, HaltPolicy> {
        assert_eq!(preprocessed, 7);
        self.log.borrow_mut().push(format!("{}:build", self.name));
        cmd_buffer.push(format!("draw:{}", self.name));
        if self.halt_build {
            Err(HaltPolicy::HaltThis)
        } else {
            Ok(preprocessed + 1)
        }
    }

    fn postprocess(
        &mut self,
        _graphics_objects: Arc<TestContext>,
        _shared: Arc<TestShared>,
        output: u32,
    ) {
        assert_eq!(output, 8);
        self.log.borrow_mut().push(format!("{}:post", self.name));
    }
}

struct TestSubmit {
    log: EventLog,
    surface: WindowSurface,
    window_extent: [u32; 2],
    submitted: Rc<RefCell<Vec<Vec<String>>>>,
    recorders_built: Rc<RefCell<usize>>,
}

impl SubmitSystem for TestSubmit {
    type Context = TestContext;
    type SharedType = TestShared;
    type SetupType = u64;
    type CmdBufType = Vec<String>;

    fn setup(
        &mut self,
        _graphics_objects: Arc<TestContext>,
    ) -> Result<(Arc<TestShared>, u64, Vec<String>), HaltPolicy> {
        self.log.borrow_mut().push("setup".to_string());
        match self.surface.plan_setup(self.window_extent) {
            Err(halt) => return Err(halt),
            Ok(_plan) => {}
        }
        *self.recorders_built.borrow_mut() += 1;
        Ok((Arc::new(TestShared { frame: 1 }), 99, Vec::new()))
    }

    fn submit(
        &mut self,
        _graphics_objects: Arc<TestContext>,
        cmd_buffer: Vec<String>,
        setup_data: u64,
        _shared_data: Arc<TestShared>,
    ) {
        assert_eq!(setup_data, 99);
        self.log.borrow_mut().push("submit".to_string());
        self.submitted.borrow_mut().push(cmd_buffer);
    }
}

struct Harness {
    log: EventLog,
    submitted: Rc<RefCell<Vec<Vec<String>>>>,
    recorders_built: Rc<RefCell<usize>>,
    system: DefaultRenderSystem<TestSubmit, Box<DynamicRenderPass<TestStage>>>,
}

fn harness(window_extent: [u32; 2], halts: [(bool, bool); 2]) -> Harness {
    let log: EventLog = Rc::new(RefCell::new(Vec::new()));
    let submitted = Rc::new(RefCell::new(Vec::new()));
    let recorders_built = Rc::new(RefCell::new(0));
    let mut surface = WindowSurface::new();
    surface.record_recreated(2);
    let submit = TestSubmit {
        log: log.clone(),
        surface,
        window_extent,
        submitted: submitted.clone(),
        recorders_built: recorders_built.clone(),
    };
    let stage_a = TestStage {
        name: "A",
        log: log.clone(),
        halt_preprocess: halts[0].0,
        halt_build: halts[0].1,
    };
    let stage_b = TestStage {
        name: "B",
        log: log.clone(),
        halt_preprocess: halts[1].0,
        halt_build: halts[1].1,
    };
    let system = DefaultRenderSystem::new(
        submit,
        vec![
            DynamicRenderPass::from_renderpass(stage_a),
            DynamicRenderPass::from_renderpass(stage_b),
        ],
    );
    Harness { log, submitted, recorders_built, system }
}

#[test]
fn phases_run_as_full_sweeps_in_stage_order() {
    let mut h = harness([800, 600], [(false, false), (false, false)]);
    let report = h.system.run_frame(Arc::new(TestContext));
    assert_eq!(report, FrameReport::Completed);
    let log = h.log.borrow();
    assert_eq!(
        *log,
        vec!["setup", "A:pre", "B:pre", "A:build", "B:build", "A:post", "B:post", "submit"]
    );
    let submitted = h.submitted.borrow();
    assert_eq!(submitted.len(), 1);
    assert_eq!(submitted[0], vec!["draw:A", "draw:B"]);
}

#[test]
fn halt_in_first_preprocess_skips_everything_after() {
    let mut h = harness([800, 600], [(true, false), (false, false)]);
    let report = h.system.run_frame(Arc::new(TestContext));
    assert_eq!(report, FrameReport::PreprocessHalted(0));
    assert_eq!(*h.log.borrow(), vec!["setup", "A:pre"]);
    assert!(h.submitted.borrow().is_empty());
}

#[test]
fn halt_in_second_preprocess_stops_before_any_build() {
    let mut h = harness([800, 600], [(false, false), (true, false)]);
    let report = h.system.run_frame(Arc::new(TestContext));
    assert_eq!(report, FrameReport::PreprocessHalted(1));
    assert_eq!(*h.log.borrow(), vec!["setup", "A:pre", "B:pre"]);
    assert!(h.submitted.borrow().is_empty());
}

#[test]
fn halt_during_build_discards_partial_recording() {
    let mut h = harness([800, 600], [(false, true), (false, false)]);
    let report = h.system.run_frame(Arc::new(TestContext));
    assert_eq!(report, FrameReport::BuildHalted(0));
    assert_eq!(*h.log.borrow(), vec!["setup", "A:pre", "B:pre", "A:build"]);
    assert!(h.submitted.borrow().is_empty());
}

#[test]
fn second_frame_runs_clean_after_a_halted_one() {
    let mut h = harness([800, 600], [(false, false), (false, true)]);
    let report = h.system.run_frame(Arc::new(TestContext));
    assert_eq!(report, FrameReport::BuildHalted(1));
    assert!(h.submitted.borrow().is_empty());
    h.log.borrow_mut().clear();
    let report = h.system.run_frame(Arc::new(TestContext));
    assert_eq!(report, FrameReport::BuildHalted(1));
    assert_eq!(*h.log.borrow(), vec!["setup", "A:pre", "B:pre", "A:build", "B:build"]);
}

#[test]
fn zero_extent_setup_halts_frame_without_building_a_recorder() {
    let mut h = harness([0, 0], [(false, false), (false, false)]);
    let mut hand_off = FrameHandOff::new();
    assert_eq!(hand_off.try_send(1), Ok(()));
    assert_eq!(hand_off.take_next(), Some(1));
    let report = h.system.run_frame(Arc::new(TestContext));
    assert_eq!(report, FrameReport::SetupHalted);
    assert_eq!(*h.log.borrow(), vec!["setup"]);
    assert_eq!(*h.recorders_built.borrow(), 0);
    assert!(h.submitted.borrow().is_empty());
    // The skipped frame still completes as a job: the dispatcher signals
    // it and immediately accepts the next one.
    assert_eq!(hand_off.finish_running(), 1);
    assert_eq!(hand_off.try_send(2), Ok(()));
    assert_eq!(hand_off.take_next(), Some(2));
}
