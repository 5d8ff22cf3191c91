//! The application: a window, a Vulkan instance and the loop between them.
//!
//! A [`VulkanApp`] plans what the host creates and follows what becomes of it.
//! It never touches the window system or the driver itself: the host asks for
//! the pending action, performs it with the records kept here, and reports the
//! outcome.

use vstd::prelude::*;
use crate::error::StartupError;
use crate::event_loop::{consumed, drive, LoopControl, LoopState, PlatformEvent};
use crate::lifecycle::{Action, Outcome, Stage};
use crate::renderer::constants::{validation_config, VALIDATION_LAYER};
use crate::renderer::context::{
    create_instance_info, engine_identity, instance_create_info, ApplicationIdentity,
    InstanceCreateInfo, InstanceCreateInfoView,
};
use crate::renderer::platforms::{instance_extensions, required_instance_extensions, Platform};
use crate::window::{WindowDescriptor, WindowDescriptorView};

verus! {

/// The application: the records its resources are created from, the stage of
/// its life, and the state of its event loop.
pub struct VulkanApp {
    descriptor: WindowDescriptor,
    create_info: InstanceCreateInfo,
    stage: Stage,
    loop_state: LoopState,
}

impl VulkanApp {
    /// The stage the application is in.
    pub closed spec fn stage(&self) -> Stage {
        self.stage
    }

    /// The state of the event loop driver.
    pub closed spec fn loop_state(&self) -> LoopState {
        self.loop_state
    }

    /// The window the surface is created from.
    pub closed spec fn window(&self) -> WindowDescriptorView {
        self.descriptor@
    }

    /// The record the instance is created from.
    pub closed spec fn request(&self) -> InstanceCreateInfoView {
        self.create_info@
    }

    /// The window has a size, the counts of the request are the lengths of its
    /// lists, and the loop has not stopped before it began.
    #[verifier::type_invariant]
    pub closed spec fn wf(&self) -> bool {
        &&& self.descriptor@.wf()
        &&& self.create_info@.wf()
        &&& self.loop_state == LoopState::Stopped ==> self.stage != Stage::SurfacePending
            && self.stage != Stage::ContextPending
    }

    /// Plans an application with a window of the given title and size on
    /// `platform`.
    ///
    /// Nothing is acquired yet: the new application waits for its window. The
    /// instance will be asked for under the engine's identity, with the
    /// extensions that `platform` requires and the validation layers of the
    /// configuration. A platform without a known surface extension is
    /// refused here, before the host creates anything.
    pub fn new(title: &str, width: u32, height: u32, platform: Platform) -> (result: Result<
        VulkanApp,
        StartupError,
    >)
        requires
            width > 0,
            height > 0,
        ensures
            !platform.supported() ==> result is Err && result->Err_0
                == StartupError::UnsupportedPlatform,
            platform.supported() ==> result is Ok && result->Ok_0.stage() == Stage::initial()
                && result->Ok_0.loop_state() == LoopState::Running && result->Ok_0.window() == (
            WindowDescriptorView { title: title@, width, height }) && result->Ok_0.request()
                == instance_create_info(
                engine_identity(title@),
                instance_extensions(platform),
                seq![VALIDATION_LAYER@],
            ),
    {
        let extensions = match required_instance_extensions(platform) {
            Ok(extensions) => extensions,
            Err(error) => {
                return Err(error);
            },
        };
        let validation = validation_config();
        let descriptor = WindowDescriptor::new(title, width, height);
        let identity = ApplicationIdentity::engine(title);
        let create_info = create_instance_info(identity, extensions, &validation);
        Ok(
            VulkanApp {
                descriptor,
                create_info,
                stage: Stage::SurfacePending,
                loop_state: LoopState::Running,
            },
        )
    }

    /// The action the host is to perform now.
    pub fn pending(&self) -> (action: Action)
        ensures
            action == self.stage().pending(),
    {
        self.stage.pending_action()
    }

    /// Takes the outcome of the pending action and moves to the next stage.
    /// The records and the loop are left as they are.
    pub fn advance(&mut self, outcome: Outcome)
        ensures
            final(self).stage() == old(self).stage().next(outcome),
            final(self).loop_state() == old(self).loop_state(),
            final(self).window() == old(self).window(),
            final(self).request() == old(self).request(),
    {
        proof {
            use_type_invariant(&*self);
        }
        self.stage = self.stage.advance(outcome);
    }

    /// Delivers one platform event to the event loop and says whether the
    /// loop goes on.
    ///
    /// While the application is running, the event is given to the driver; the
    /// loop goes on as long as the driver has not stopped. In any other stage
    /// there is no loop: the event is dropped and the answer is to terminate.
    /// No event changes the stage or releases anything.
    pub fn handle_event(&mut self, event: &PlatformEvent) -> (control: LoopControl)
        ensures
            final(self).stage() == old(self).stage(),
            final(self).window() == old(self).window(),
            final(self).request() == old(self).request(),
            final(self).loop_state() == if old(self).stage() == Stage::Running {
                old(self).loop_state().after(*event)
            } else {
                old(self).loop_state()
            },
            control == if old(self).stage() == Stage::Running && final(self).loop_state()
                == LoopState::Running {
                LoopControl::Continue
            } else {
                LoopControl::Terminate
            },
    {
        proof {
            use_type_invariant(&*self);
        }
        if self.stage == Stage::Running {
            self.loop_state = self.loop_state.step(event);
            if self.loop_state == LoopState::Running {
                LoopControl::Continue
            } else {
                LoopControl::Terminate
            }
        } else {
            LoopControl::Terminate
        }
    }

    /// Runs the event loop on `events` and returns how many of them it took.
    ///
    /// A running application with a running loop takes events up to and with
    /// the first that ends the loop. Anywhere else it takes none. The stage is
    /// left as it is: nothing is torn down before the host reports that the
    /// loop has returned.
    pub fn main_loop(&mut self, events: &[PlatformEvent]) -> (taken: usize)
        ensures
            final(self).stage() == old(self).stage(),
            final(self).window() == old(self).window(),
            final(self).request() == old(self).request(),
            old(self).stage() == Stage::Running && old(self).loop_state() == LoopState::Running
                ==> taken == consumed(events@) && final(self).loop_state()
                == LoopState::Running.after_all(events@),
            !(old(self).stage() == Stage::Running && old(self).loop_state() == LoopState::Running)
                ==> taken == 0 && final(self).loop_state() == old(self).loop_state(),
    {
        proof {
            use_type_invariant(&*self);
        }
        if self.stage == Stage::Running && self.loop_state == LoopState::Running {
            let (state, taken) = drive(events);
            self.loop_state = state;
            taken
        } else {
            0
        }
    }

    /// The stage the application is in.
    pub fn current_stage(&self) -> (stage: Stage)
        ensures
            stage == self.stage(),
    {
        self.stage
    }

    /// The state of the event loop driver.
    pub fn current_loop_state(&self) -> (state: LoopState)
        ensures
            state == self.loop_state(),
    {
        self.loop_state
    }

    /// The window to create when the pending action is to create the surface.
    pub fn window_descriptor(&self) -> (descriptor: &WindowDescriptor)
        ensures
            descriptor@ == self.window(),
            descriptor@.wf(),
    {
        proof {
            use_type_invariant(self);
        }
        &self.descriptor
    }

    /// The record to create the instance from when that is the pending action.
    pub fn instance_request(&self) -> (info: &InstanceCreateInfo)
        ensures
            info@ == self.request(),
            info@.wf(),
    {
        proof {
            use_type_invariant(self);
        }
        &self.create_info
    }

    /// The startup error, once startup has failed.
    pub fn failure(&self) -> (error: Option<StartupError>)
        ensures
            error == match self.stage() {
                Stage::Failed(step) => Some(StartupError::StartupFailure(step)),
                _ => None,
            },
    {
        match self.stage {
            Stage::Failed(step) => Some(StartupError::StartupFailure(step)),
            _ => None,
        }
    }
}

} // verus!
