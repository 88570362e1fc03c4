//! The hand-over of a generated floor.
//!
//! Generation runs away from the simulation, one request at a time. The manager keeps track of
//! the request in flight, takes the worker's result once, and then holds the layout, the
//! estimated completion time and the rooms of the current floor.

use crate::floor::{is_fresh_room, spec_completion_progress, Floor};
use crate::layout::{FloorLayout, RoomType};
use crate::ratio::Ratio;
use crate::room::{spec_tick_seen, Sighting};
use crate::save_game::SaveGame;
use vstd::prelude::*;

verus! {

/// What the caller knows of the worker that generates the floor.
pub enum WorkerReport {
    /// The worker has not finished.
    Running,
    /// The worker has finished with a layout and its estimated completion time.
    Finished(FloorLayout, Ratio),
    /// The worker has failed.
    Failed,
}

/// What the manager tells the game after it looked at the worker.
#[derive(Clone, Copy, Debug, PartialEq, Eq, Structural)]
pub enum SetupSignal {
    /// Nothing to tell: no request is in flight, or the worker has not finished.
    Waiting,
    /// The level is set up: the new floor is loaded.
    Complete,
    /// Generation failed: level setup has to start over. The floor is as it was.
    Failed,
}

/// Keeps the current floor and the request for the next one.
pub struct FloorManager {
    request: Option<SaveGame>,
    current_floor: Floor,
    current_floor_layout: FloorLayout,
    estimated_completion_time: Ratio,
}

impl FloorManager {
    /// The snapshot of the generation request in flight, if there is one.
    pub closed spec fn spec_request(&self) -> Option<SaveGame> {
        self.request
    }

    /// The rooms of the current floor.
    pub closed spec fn floor(&self) -> Floor {
        self.current_floor
    }

    /// The layout of the current floor.
    pub closed spec fn layout(&self) -> FloorLayout {
        self.current_floor_layout
    }

    /// The estimated completion time of the current floor.
    pub closed spec fn spec_estimated_completion_time(&self) -> Ratio {
        self.estimated_completion_time
    }

    /// The invariant of a manager: its layout and its rooms are well formed.
    pub open spec fn wf(&self) -> bool {
        &&& self.layout().wf()
        &&& self.floor().wf()
    }

    /// Creates a manager with an empty floor and no request in flight.
    pub fn init() -> (manager: FloorManager)
        ensures
            manager.wf(),
            manager.spec_request() is None,
            manager.layout()@ == Map::<(i64, i64), RoomType>::empty(),
            manager.floor()@.len() == 0,
            manager.spec_estimated_completion_time() == (Ratio { numerator: 0, denominator: 1 }),
    {
        FloorManager {
            request: None,
            current_floor: Floor::init(),
            current_floor_layout: FloorLayout::new(),
            estimated_completion_time: Ratio::zero(),
        }
    }

    /// Asks for the floor of a snapshot. Only one request can be in flight: the manager takes
    /// the request and returns `true` if none is, and otherwise leaves everything as it is and
    /// returns `false`. On `true` the caller starts a worker on the snapshot.
    pub fn setup_level(&mut self, save_game: SaveGame) -> (started: bool)
        ensures
            started == (old(self).spec_request() is None),
            final(self).spec_request() == (if started {
                Some(save_game)
            } else {
                old(self).spec_request()
            }),
            final(self).floor() == old(self).floor(),
            final(self).layout() == old(self).layout(),
            final(self).spec_estimated_completion_time() == old(self).spec_estimated_completion_time(),
    {
        match self.request {
            Some(_) => false,
            None => {
                self.request = Some(save_game);
                true
            },
        }
    }

    /// Looks at the worker once per frame.
    ///
    /// While a request is in flight, the result of a finished worker is taken over: the layout
    /// and the estimate replace the current ones, and the rooms are built anew from the layout.
    /// A failed worker leaves the current floor untouched. In both cases the request is done.
    /// Without a request in flight, or while the worker runs, nothing changes.
    pub fn process(&mut self, report: WorkerReport) -> (signal: SetupSignal)
        requires
            old(self).wf(),
            report matches WorkerReport::Finished(layout, _) ==> layout.wf(),
        ensures
            final(self).wf(),
            signal == (if old(self).spec_request() is None {
                SetupSignal::Waiting
            } else {
                match report {
                    WorkerReport::Running => SetupSignal::Waiting,
                    WorkerReport::Finished(_, _) => SetupSignal::Complete,
                    WorkerReport::Failed => SetupSignal::Failed,
                }
            }),
            final(self).spec_request() == (if signal == SetupSignal::Waiting {
                old(self).spec_request()
            } else {
                None
            }),
            signal != SetupSignal::Complete ==> final(self).floor() == old(self).floor() && final(self).layout() == old(self).layout() && final(self).spec_estimated_completion_time()
                == old(self).spec_estimated_completion_time(),
            signal == SetupSignal::Complete ==> (report matches WorkerReport::Finished(
                layout,
                estimate,
            ) && final(self).layout() == layout && final(self).spec_estimated_completion_time()
                == estimate && final(self).floor()@.len() == layout.order().len() && forall|
                i: int,
            |
                0 <= i < layout.order().len() ==> is_fresh_room(
                    #[trigger] final(self).floor()@[i],
                    layout@,
                    layout.order()[i],
                )),
    {
        if self.request.is_none() {
            return SetupSignal::Waiting;
        }
        match report {
            WorkerReport::Running => SetupSignal::Waiting,
            WorkerReport::Finished(layout, estimate) => {
                self.request = None;
                self.current_floor.load_floor(&layout);
                self.current_floor_layout = layout;
                self.estimated_completion_time = estimate;
                SetupSignal::Complete
            },
            WorkerReport::Failed => {
                self.request = None;
                SetupSignal::Failed
            },
        }
    }

    /// Tells whether a generation request is in flight.
    pub fn is_generating(&self) -> (generating: bool)
        ensures
            generating == (self.spec_request() is Some),
    {
        self.request.is_some()
    }

    /// Returns the layout of the current floor.
    pub fn current_floor_layout(&self) -> (layout: &FloorLayout)
        ensures
            *layout == self.layout(),
    {
        &self.current_floor_layout
    }

    /// Returns the rooms of the current floor.
    pub fn current_floor(&self) -> (floor: &Floor)
        ensures
            *floor == self.floor(),
    {
        &self.current_floor
    }

    /// Returns the estimated completion time of the current floor, in seconds.
    pub fn estimated_completion_time(&self) -> (estimate: Ratio)
        ensures
            estimate == self.spec_estimated_completion_time(),
    {
        self.estimated_completion_time
    }

    /// Lets the room at `index` of the current floor take one sighting of the player into
    /// account and tells whether it completed the room.
    pub fn physics_process(&mut self, index: usize, sighting: Sighting) -> (completed: bool)
        requires
            old(self).wf(),
            index < old(self).floor()@.len(),
        ensures
            final(self).wf(),
            final(self).layout() == old(self).layout(),
            final(self).spec_request() == old(self).spec_request(),
            final(self).spec_estimated_completion_time() == old(self).spec_estimated_completion_time(),
            final(self).floor()@.len() == old(self).floor()@.len(),
            forall|i: int|
                0 <= i < old(self).floor()@.len() && i != index ==> final(self).floor()@[i] == old(self).floor()@[i],
            final(self).floor()@[index as int].spec_seen() == spec_tick_seen(
                old(self).floor()@[index as int].spec_seen(),
                sighting,
            ),
            final(self).floor()@[index as int].spec_progress() >= old(self).floor()@[index as int].spec_progress(),
            completed == (!old(self).floor()@[index as int].spec_completely_revealed() && final(self).floor()@[index as int].spec_completely_revealed()),
    {
        self.current_floor.physics_process(index, sighting)
    }

    /// Returns the mean seen progress of the rooms of the current floor as a fraction of one.
    pub fn get_completion_progress(&self) -> (progress: Ratio)
        requires
            self.wf(),
        ensures
            progress == spec_completion_progress(self.floor()@),
            progress.wf(),
            progress.numerator <= progress.denominator,
    {
        self.current_floor.get_completion_progress()
    }
}

} // verus!
