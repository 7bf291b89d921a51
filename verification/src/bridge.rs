//! The bridge itself: the logical window, the resize records that wait for
//! the engine, and the answer to each platform event.

use crate::event::{Action, Key, LoopControl, Outcome, PlatformEvent, outcome_of};
use crate::window::{ResizeEvent, WindowConfig, WindowId, WindowModel, WindowState};
use vstd::prelude::*;

verus! {

/// A bridge as contracts speak of it.
pub struct BridgeModel {
    /// The logical window.
    pub window: WindowModel,
    /// The resize records not yet taken, oldest first.
    pub pending: Seq<ResizeEvent>,
    /// Whether every answer is `Exit`, so that a run ends with its first event.
    pub single_poll: bool,
}

impl BridgeModel {
    /// A bridge that has seen no event yet.
    pub open spec fn initial(window: WindowModel) -> Self {
        BridgeModel { window, pending: Seq::empty(), single_poll: false }
    }

    /// The bridge after one event. A resize gives the window its new size and
    /// queues the record of it; no other event changes anything.
    pub open spec fn step(self, event: PlatformEvent) -> Self {
        match event {
            PlatformEvent::Resize { width, height } => {
                let window = self.window.resized(width, height);
                BridgeModel { window, pending: self.pending.push(window.resize_event()), ..self }
            },
            _ => self,
        }
    }

    /// The bridge after its pending records were taken.
    pub open spec fn drained(self) -> Self {
        BridgeModel { pending: Seq::empty(), ..self }
    }

    /// What holds of every bridge that was made by `initialize`: each pending
    /// record names this window, and the newest of them carries the window's
    /// present size.
    pub open spec fn wf(self) -> bool {
        &&& forall|i: int|
            0 <= i < self.pending.len() ==> (#[trigger] self.pending[i]).id == self.window.id
        &&& self.pending.len() > 0 ==> self.pending.last() == self.window.resize_event()
    }
}

/// The window bridge. It owns the logical window and the queue of resize
/// records; the caller owns the loop.
#[derive(Debug)]
pub struct WindowBridge {
    window: WindowState,
    pending: Vec<ResizeEvent>,
    single_poll: bool,
}

impl View for WindowBridge {
    type V = BridgeModel;

    closed spec fn view(&self) -> BridgeModel {
        BridgeModel { window: self.window@, pending: self.pending@, single_poll: self.single_poll }
    }
}

impl WindowBridge {
    /// A bridge for the window that `config` asks for, with nothing pending.
    pub fn initialize(id: WindowId, config: WindowConfig) -> (bridge: Self)
        ensures
            bridge@ == BridgeModel::initial(
                WindowModel::requested(id, config.title@, config.width, config.height),
            ),
            bridge@.wf(),
    {
        WindowBridge { window: WindowState::new(id, config), pending: Vec::new(), single_poll: false }
    }

    /// Applies one platform event and answers with what the caller does next.
    ///
    /// A resize is applied to the window and queued before this returns, so
    /// the frame that a later `EventsDrained` starts sees it. A close request
    /// and the escape key going down stop the loop; `EventsDrained` asks for
    /// one engine update; everything else is passed over.
    pub fn dispatch(&mut self, event: PlatformEvent) -> (outcome: Outcome)
        ensures
            final(self)@ == old(self)@.step(event),
            old(self)@.wf() ==> final(self)@.wf(),
            outcome == outcome_of(old(self)@.single_poll, event),
            !(event is Resize) ==> final(self)@ == old(self)@,
            event == PlatformEvent::CloseRequested ==> outcome.control == LoopControl::Exit,
            event == (PlatformEvent::KeyPress { key: Key::Escape, pressed: true })
                ==> outcome.control == LoopControl::Exit,
            !old(self)@.single_poll && !event.requests_exit() ==> outcome.control
                == LoopControl::Continue,
            outcome.action == Action::Update <==> event == PlatformEvent::EventsDrained,
    {
        if let PlatformEvent::Resize { width, height } = event {
            let record = self.window.resize(width, height);
            self.pending.push(record);
        }
        let control = if self.single_poll || event.is_exit_request() {
            LoopControl::Exit
        } else {
            LoopControl::Continue
        };
        let action = match event {
            PlatformEvent::EventsDrained => Action::Update,
            _ => Action::Idle,
        };
        Outcome { control, action }
    }

    /// Hands over the pending resize records, oldest first, and leaves none.
    pub fn take_resize_events(&mut self) -> (taken: Vec<ResizeEvent>)
        ensures
            taken@ == old(self)@.pending,
            final(self)@ == old(self)@.drained(),
            final(self)@.wf(),
    {
        let mut taken: Vec<ResizeEvent> = Vec::new();
        std::mem::swap(&mut self.pending, &mut taken);
        taken
    }

    /// The same bridge with the single-poll mode switched on or off. With it
    /// on, every dispatch answers `Exit`.
    pub fn with_single_poll(self, single_poll: bool) -> (bridge: Self)
        ensures
            bridge@ == (BridgeModel { single_poll, ..self@ }),
            self@.wf() ==> bridge@.wf(),
    {
        WindowBridge { window: self.window, pending: self.pending, single_poll }
    }

    /// The logical window.
    pub fn window(&self) -> (window: &WindowState)
        ensures
            window@ == self@.window,
    {
        &self.window
    }

    /// The resize records that wait to be taken, oldest first.
    pub fn pending_resizes(&self) -> (pending: &Vec<ResizeEvent>)
        ensures
            pending@ == self@.pending,
    {
        &self.pending
    }

    /// Whether every dispatch answers `Exit`.
    pub fn single_poll(&self) -> (on: bool)
        ensures
            on == self@.single_poll,
    {
        self.single_poll
    }
}

} // verus!
