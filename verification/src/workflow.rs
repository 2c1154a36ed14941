//! The detect / reconfigure / provision / teardown workflow, written as a
//! state machine stepped by the surrounding program. Each step takes the
//! cancellation flag as observed at its start, so cancellation is honoured
//! once per detection iteration and at the start of every long-running
//! reconfiguration stage.
use vstd::prelude::*;

use crate::commands::{
    create_command_model, ensure_virtual_output, headless_name_model, relocate_command,
    relocate_command_model, teardown_commands, unplug_command_model,
};
use crate::framebuffer::{event_count, FbEvent, VirtualFramebuffer};
use crate::framebuffer::lemma_acquire_release_paired;
use crate::topology::{
    has_match, last_match_index, poll_once, snapshot_has_output, snapshot_model, snapshot_reports,
    strings_model, DetectionResult, Output,
};

verus! {

/// The command that parks the detected projector far off-screen at a fixed
/// mode over a solid black background.
pub open spec fn projector_relocate_model(name: Seq<char>) -> Seq<char> {
    relocate_command_model(name, 1920, 1080, -19200, 0, "#000000"@)
}

/// The command that places the virtual output directly left of the primary
/// display.
pub open spec fn virtual_relocate_model(name: Seq<char>) -> Seq<char> {
    relocate_command_model(name, 1920, 1080, -1920, 0, "#000000"@)
}

/// The reconfiguration commands issued after a match: park the projector,
/// create the virtual output only when no prior snapshot reported it, and
/// position the virtual output.
pub open spec fn reconfigure_plan_model(
    projector: Seq<char>,
    virtual_name: Seq<char>,
    have_virtual: bool,
) -> Seq<Seq<char>> {
    if have_virtual {
        seq![projector_relocate_model(projector), virtual_relocate_model(virtual_name)]
    } else {
        seq![
            projector_relocate_model(projector),
            create_command_model(virtual_name),
            virtual_relocate_model(virtual_name),
        ]
    }
}

/// Where the workflow stands between steps.
#[derive(Clone, Copy, PartialEq, Eq, Structural, Debug)]
pub enum Phase {
    Detecting,
    Matched,
    Reconfigured,
    Provisioned,
    Done,
}

/// The outcome of one detection iteration.
#[derive(Clone, Copy, PartialEq, Eq, Structural, Debug)]
pub enum DetectStep {
    Continue,
    CancelledExit,
    Matched,
}

/// The outcome of the reconfiguration stage.
#[derive(Debug)]
pub enum ReconfigureStep {
    Cancelled,
    Commands(Vec<String>),
}

/// The outcome of the provisioning stage.
#[derive(Clone, Copy, PartialEq, Eq, Structural, Debug)]
pub enum ProvisionStep {
    Cancelled,
    Ready,
    DeviceFailure,
}

/// The single detect → reconfigure → provision → teardown session.
pub struct Workflow {
    pub candidates: Vec<String>,
    pub virtual_name: String,
    pub have_virtual: bool,
    pub phase: Phase,
    pub detection: Option<DetectionResult>,
    pub completed: bool,
    pub fb: VirtualFramebuffer,
}

impl Workflow {
    /// The workflow is consistent: the framebuffer manager is well formed,
    /// its state agrees with the phase (in particular the device is never
    /// left connected outside the provisioned stage, and is fully released
    /// once the workflow is done), and completion is recorded exactly on
    /// the exit phase.
    pub open spec fn wf(self) -> bool {
        &&& self.fb.wf()
        &&& (self.completed <==> self.phase is Done)
        &&& (self.phase is Detecting ==> self.fb.state is Closed && self.detection is None)
        &&& (self.phase is Matched ==> self.fb.state is Closed && self.detection is Some)
        &&& (self.phase is Reconfigured ==> self.fb.state is Closed && self.detection is Some)
        &&& (self.phase is Provisioned ==> self.fb.state is Connected && self.detection is Some)
        &&& (self.phase is Done ==> self.fb.state is Closed)
    }

    /// A fresh session for the given candidate names and virtual output
    /// name.
    pub fn new(candidates: Vec<String>, virtual_name: String) -> (r: Self)
        ensures
            r.wf(),
            r.phase is Detecting,
            !r.completed,
            !r.have_virtual,
            r.detection is None,
            r.candidates == candidates,
            r.virtual_name == virtual_name,
            r.fb.log@ == Seq::<FbEvent>::empty(),
    {
        Workflow {
            candidates,
            virtual_name,
            have_virtual: false,
            phase: Phase::Detecting,
            detection: None,
            completed: false,
            fb: VirtualFramebuffer::new(),
        }
    }

    /// One iteration of the detection loop over one topology snapshot (an
    /// IPC failure is handed in as an empty snapshot and simply yields no
    /// match). Cancellation, observed at the start, exits without touching
    /// the device and records completion at once; otherwise the snapshot is
    /// scanned both for the virtual output's presence and for a projector
    /// match, and the last matching output wins.
    pub fn step_detect(&mut self, outputs: &Vec<Output>, cancel_requested: bool) -> (r: DetectStep)
        requires
            old(self).wf(),
            old(self).phase is Detecting,
        ensures
            final(self).wf(),
            final(self).candidates == old(self).candidates,
            final(self).virtual_name == old(self).virtual_name,
            final(self).fb == old(self).fb,
            cancel_requested ==> {
                &&& r is CancelledExit
                &&& final(self).phase is Done
                &&& final(self).completed
                &&& final(self).have_virtual == old(self).have_virtual
                &&& final(self).detection is None
            },
            !cancel_requested ==> {
                let m = snapshot_model(outputs@);
                let cs = strings_model(old(self).candidates@);
                &&& final(self).have_virtual == (old(self).have_virtual || snapshot_reports(
                    m,
                    old(self).virtual_name@,
                ))
                &&& if has_match(m, cs) {
                    &&& r is Matched
                    &&& final(self).phase is Matched
                    &&& !final(self).completed
                    &&& final(self).detection is Some
                    &&& final(self).detection->0.name@ == m[last_match_index(m, cs)].name
                    &&& Some(final(self).detection->0.workspace@) == m[last_match_index(
                        m,
                        cs,
                    )].workspace
                } else {
                    &&& r is Continue
                    &&& final(self).phase is Detecting
                    &&& !final(self).completed
                    &&& final(self).detection is None
                }
            },
    {
        if cancel_requested {
            self.phase = Phase::Done;
            self.completed = true;
            return DetectStep::CancelledExit;
        }
        if !self.have_virtual {
            if snapshot_has_output(outputs, &self.virtual_name) {
                self.have_virtual = true;
            }
        }
        match poll_once(outputs, &self.candidates) {
            Some(d) => {
                self.detection = Some(d);
                self.phase = Phase::Matched;
                DetectStep::Matched
            },
            None => DetectStep::Continue,
        }
    }

    /// The reconfiguration stage. Observed cancellation exits before any
    /// command is planned; otherwise it returns the idempotent command
    /// plan: park the projector, create the virtual output only if it was
    /// missing from every snapshot seen, and position the virtual output.
    pub fn step_reconfigure(&mut self, cancel_requested: bool) -> (r: ReconfigureStep)
        requires
            old(self).wf(),
            old(self).phase is Matched,
        ensures
            final(self).wf(),
            final(self).candidates == old(self).candidates,
            final(self).virtual_name == old(self).virtual_name,
            final(self).have_virtual == old(self).have_virtual,
            final(self).detection == old(self).detection,
            final(self).fb == old(self).fb,
            cancel_requested ==> {
                &&& r is Cancelled
                &&& final(self).phase is Done
                &&& final(self).completed
            },
            !cancel_requested ==> {
                &&& final(self).phase is Reconfigured
                &&& !final(self).completed
                &&& r matches ReconfigureStep::Commands(cmds) && strings_model(cmds@)
                    == reconfigure_plan_model(
                    old(self).detection->0.name@,
                    old(self).virtual_name@,
                    old(self).have_virtual,
                )
            },
    {
        if cancel_requested {
            self.phase = Phase::Done;
            self.completed = true;
            return ReconfigureStep::Cancelled;
        }
        let detected = self.detection.as_ref().unwrap();
        let mut cmds: Vec<String> = Vec::new();
        cmds.push(relocate_command(detected.name.as_str(), 1920, 1080, -19200, 0, "#000000"));
        match ensure_virtual_output(self.virtual_name.as_str(), self.have_virtual) {
            Some(create) => cmds.push(create),
            None => {},
        }
        cmds.push(relocate_command(self.virtual_name.as_str(), 1920, 1080, -1920, 0, "#000000"));
        self.phase = Phase::Reconfigured;
        proof {
            assert(strings_model(cmds@) =~= reconfigure_plan_model(
                old(self).detection->0.name@,
                old(self).virtual_name@,
                old(self).have_virtual,
            ));
        }
        ReconfigureStep::Commands(cmds)
    }

    /// The provisioning stage. Observed cancellation exits before the
    /// device is opened, so no acquisition ever follows a cancellation; an
    /// unavailable device is fatal and also exits with completion recorded;
    /// otherwise the device is opened and a zeroed buffer of exactly
    /// `width * height * stride` bytes is connected.
    pub fn step_provision(
        &mut self,
        cancel_requested: bool,
        device_available: bool,
        width: usize,
        height: usize,
        stride: usize,
    ) -> (r: ProvisionStep)
        requires
            old(self).wf(),
            old(self).phase is Reconfigured,
            width * height <= usize::MAX,
            width * height * stride <= usize::MAX,
        ensures
            final(self).wf(),
            final(self).candidates == old(self).candidates,
            final(self).virtual_name == old(self).virtual_name,
            final(self).have_virtual == old(self).have_virtual,
            final(self).detection == old(self).detection,
            cancel_requested ==> {
                &&& r is Cancelled
                &&& final(self).phase is Done
                &&& final(self).completed
                &&& final(self).fb == old(self).fb
            },
            !cancel_requested && device_available ==> {
                &&& r is Ready
                &&& final(self).phase is Provisioned
                &&& !final(self).completed
                &&& final(self).fb.state is Connected
                &&& final(self).fb.log@ == old(self).fb.log@.push(FbEvent::Open).push(
                    FbEvent::Connect,
                )
                &&& final(self).fb.buffer is Some
                &&& final(self).fb.buffer->0@.len() == width * height * stride
            },
            !cancel_requested && !device_available ==> {
                &&& r is DeviceFailure
                &&& final(self).phase is Done
                &&& final(self).completed
                &&& final(self).fb == old(self).fb
            },
    {
        if cancel_requested {
            self.phase = Phase::Done;
            self.completed = true;
            return ProvisionStep::Cancelled;
        }
        match self.fb.open(device_available) {
            Ok(()) => {
                self.fb.connect(width, height, stride);
                self.phase = Phase::Provisioned;
                ProvisionStep::Ready
            },
            Err(_) => {
                self.phase = Phase::Done;
                self.completed = true;
                ProvisionStep::DeviceFailure
            },
        }
    }

    /// The teardown stage, run on every exit path out of the provisioned
    /// stage, cancelled or not: disconnect and close the device in that
    /// order, record completion, and return the unplug sweep for the
    /// virtual output and for every indexed leftover below `sweep_bound`.
    pub fn step_teardown(&mut self, sweep_bound: u64) -> (cmds: Vec<String>)
        requires
            old(self).wf(),
            old(self).phase is Provisioned,
            sweep_bound < u64::MAX,
        ensures
            final(self).wf(),
            final(self).candidates == old(self).candidates,
            final(self).virtual_name == old(self).virtual_name,
            final(self).have_virtual == old(self).have_virtual,
            final(self).phase is Done,
            final(self).completed,
            final(self).fb.state is Closed,
            final(self).fb.log@ == old(self).fb.log@.push(FbEvent::Disconnect).push(FbEvent::Close),
            event_count(final(self).fb.log@, FbEvent::Open) == event_count(
                final(self).fb.log@,
                FbEvent::Close,
            ),
            event_count(final(self).fb.log@, FbEvent::Connect) == event_count(
                final(self).fb.log@,
                FbEvent::Disconnect,
            ),
            cmds@.len() == sweep_bound + 1,
            cmds@[0]@ == unplug_command_model(old(self).virtual_name@),
            forall|i: int|
                1 <= i <= sweep_bound ==> #[trigger] cmds@[i]@ == unplug_command_model(
                    headless_name_model((i - 1) as nat),
                ),
    {
        self.fb.disconnect();
        self.fb.close();
        self.phase = Phase::Done;
        self.completed = true;
        teardown_commands(self.virtual_name.as_str(), sweep_bound)
    }
}

/// Once the workflow is done, everything acquired from the device has been
/// released: over the whole session, opens equal closes and connects equal
/// disconnects.
pub proof fn lemma_done_releases_all(w: Workflow)
    requires
        w.wf(),
        w.phase is Done,
    ensures
        event_count(w.fb.log@, FbEvent::Open) == event_count(w.fb.log@, FbEvent::Close),
        event_count(w.fb.log@, FbEvent::Connect) == event_count(w.fb.log@, FbEvent::Disconnect),
{
    lemma_acquire_release_paired(w.fb.log@);
}

} // verus!
