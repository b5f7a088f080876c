//! The orchestrator: validation, measurement, scaling and naming in that
//! order, stopping at the first failure.
//!
//! The arithmetic on coordinates happens outside: the pipeline is handed its
//! results (a diameter, a factor, the scaled positions) and decides what
//! stage they lead to. A step offered at the wrong stage changes nothing.

use crate::binary64::{is_finite, is_positive, num_finite, num_positive};
use crate::mesh::{Mesh, MeshView, Vertex};
use crate::naming::{output_file_name, output_name};
use crate::topology::{all_triangles, only_triangles, report_of, validate, TopologyReport};
use vstd::prelude::*;
use vstd::string::*;

verus! {

/// Why a pipeline stopped.
#[derive(Clone, Copy, Debug, PartialEq, Eq, Structural)]
pub enum FailureReason {
    /// The target measurement was not a number.
    InvalidTarget,
    /// The input did not hold exactly one mesh.
    NotSingleObject,
    /// More than two vertices share one position.
    NonManifold,
    /// A vertex is a corner of no triangle.
    HasHoles,
    /// There was nothing to measure, or the diameter was not above zero.
    DegenerateMeasurement,
}

impl FailureReason {
    /// The reason in words.
    pub open spec fn text(self) -> Seq<char> {
        match self {
            FailureReason::InvalidTarget => "Invalid input. Please enter a valid target US ring size (e.g., 7.25)."@,
            FailureReason::NotSingleObject => "Error: The .obj file should contain only one mesh."@,
            FailureReason::NonManifold => "Error: The mesh is non-manifold."@,
            FailureReason::HasHoles => "Error: The mesh contains holes."@,
            FailureReason::DegenerateMeasurement => "Error: The measured inside diameter is not above zero."@,
        }
    }

    /// Gives the reason in words, for the user.
    pub fn message(&self) -> (m: String)
        ensures
            m@ == self.text(),
    {
        match self {
            FailureReason::InvalidTarget => String::from_str(
                "Invalid input. Please enter a valid target US ring size (e.g., 7.25).",
            ),
            FailureReason::NotSingleObject => String::from_str(
                "Error: The .obj file should contain only one mesh.",
            ),
            FailureReason::NonManifold => String::from_str("Error: The mesh is non-manifold."),
            FailureReason::HasHoles => String::from_str("Error: The mesh contains holes."),
            FailureReason::DegenerateMeasurement => String::from_str(
                "Error: The measured inside diameter is not above zero.",
            ),
        }
    }
}

/// Where a pipeline stands.
#[derive(Clone, Copy, Debug, PartialEq, Eq, Structural)]
pub enum Stage {
    Loaded,
    Validated,
    Measured,
    Scaled,
    Named,
    Complete,
    Failed(FailureReason),
}

/// A scale factor that may be applied: a finite number above zero.
pub open spec fn usable_factor(factor: u64) -> bool {
    num_positive(factor) && num_finite(factor)
}

/// What a pipeline holds at each stage.
pub ghost enum PipelineView {
    Loaded { objects: Seq<MeshView>, request: Option<u64> },
    Validated { mesh: MeshView, target: u64 },
    Measured { mesh: MeshView, target: u64, diameter: u64 },
    Scaled { mesh: MeshView, target: u64 },
    Named { mesh: MeshView, name: Seq<char> },
    Complete,
    Failed(FailureReason),
}

impl PipelineView {
    pub open spec fn stage(self) -> Stage {
        match self {
            PipelineView::Loaded { .. } => Stage::Loaded,
            PipelineView::Validated { .. } => Stage::Validated,
            PipelineView::Measured { .. } => Stage::Measured,
            PipelineView::Scaled { .. } => Stage::Scaled,
            PipelineView::Named { .. } => Stage::Named,
            PipelineView::Complete => Stage::Complete,
            PipelineView::Failed(reason) => Stage::Failed(reason),
        }
    }

    /// The mesh in work, from validation until the output is written.
    pub open spec fn mesh(self) -> Option<MeshView> {
        match self {
            PipelineView::Validated { mesh, .. } => Some(mesh),
            PipelineView::Measured { mesh, .. } => Some(mesh),
            PipelineView::Scaled { mesh, .. } => Some(mesh),
            PipelineView::Named { mesh, .. } => Some(mesh),
            _ => None,
        }
    }

    /// The target measurement, once it is known to be a number.
    pub open spec fn target(self) -> Option<u64> {
        match self {
            PipelineView::Loaded { request, .. } => request,
            PipelineView::Validated { target, .. } => Some(target),
            PipelineView::Measured { target, .. } => Some(target),
            PipelineView::Scaled { target, .. } => Some(target),
            _ => None,
        }
    }

    /// The measured diameter, while the scaling is still to be done.
    pub open spec fn diameter(self) -> Option<u64> {
        match self {
            PipelineView::Measured { diameter, .. } => Some(diameter),
            _ => None,
        }
    }

    /// The output's file name, once it is derived.
    pub open spec fn name(self) -> Option<Seq<char>> {
        match self {
            PipelineView::Named { name, .. } => Some(name),
            _ => None,
        }
    }

    /// The validator is about to run on a mesh with a face that is no
    /// triangle, which leaves its hole check inconclusive.
    pub open spec fn faces_unsupported(self) -> bool {
        &&& self matches PipelineView::Loaded { objects, request }
        &&& request is Some
        &&& objects.len() == 1
        &&& !all_triangles(objects[0].faces)
    }

    /// From `Loaded`: fails on a target that is no number, then on an input
    /// that is not one mesh, then on a coincidence defect, then on a hole;
    /// otherwise the mesh is validated. A face that is no triangle stops
    /// nothing.
    pub open spec fn validated(self) -> PipelineView {
        match self {
            PipelineView::Loaded { objects, request } => {
                if request is None {
                    PipelineView::Failed(FailureReason::InvalidTarget)
                } else if objects.len() != 1 {
                    PipelineView::Failed(FailureReason::NotSingleObject)
                } else {
                    match report_of(objects[0]) {
                        TopologyReport::NonManifold => PipelineView::Failed(FailureReason::NonManifold),
                        TopologyReport::HasHoles => PipelineView::Failed(FailureReason::HasHoles),
                        _ => PipelineView::Validated { mesh: objects[0], target: request->0 },
                    }
                }
            },
            _ => self,
        }
    }

    /// From `Validated`: a diameter above zero is recorded; anything else fails.
    pub open spec fn measured(self, diameter: Option<u64>) -> PipelineView {
        match self {
            PipelineView::Validated { mesh, target } => {
                if diameter is Some && num_positive(diameter->0) {
                    PipelineView::Measured { mesh, target, diameter: diameter->0 }
                } else {
                    PipelineView::Failed(FailureReason::DegenerateMeasurement)
                }
            },
            _ => self,
        }
    }

    /// From `Measured`: with a finite factor above zero and one position for
    /// each vertex, the positions replace the vertices. Otherwise nothing
    /// changes.
    pub open spec fn scaled(self, factor: u64, positions: Seq<Vertex>) -> PipelineView {
        match self {
            PipelineView::Measured { mesh, target, diameter } => {
                if usable_factor(factor) && positions.len() == mesh.vertices.len() {
                    PipelineView::Scaled { mesh: MeshView { vertices: positions, faces: mesh.faces }, target }
                } else {
                    self
                }
            },
            _ => self,
        }
    }

    /// From `Scaled`: the output is named after the input file and the target.
    pub open spec fn named(self, file_name: Seq<char>, target_text: Seq<char>) -> PipelineView {
        match self {
            PipelineView::Scaled { mesh, target } => PipelineView::Named {
                mesh,
                name: output_name(file_name, target_text),
            },
            _ => self,
        }
    }

    /// From `Named`: the output was handed over.
    pub open spec fn completed(self) -> PipelineView {
        match self {
            PipelineView::Named { .. } => PipelineView::Complete,
            _ => self,
        }
    }
}

/// A failed pipeline stays failed, whatever step is offered.
pub proof fn failure_is_final(
    p: PipelineView,
    diameter: Option<u64>,
    factor: u64,
    positions: Seq<Vertex>,
    file_name: Seq<char>,
    target_text: Seq<char>,
)
    requires
        p is Failed,
    ensures
        p.validated() == p,
        p.measured(diameter) == p,
        p.scaled(factor, positions) == p,
        p.named(file_name, target_text) == p,
        p.completed() == p,
{
}

/// A step fails only from `Loaded` or `Validated`: once a diameter is
/// recorded, no step leads to `Failed`.
pub proof fn failure_comes_before_measurement(
    p: PipelineView,
    diameter: Option<u64>,
    factor: u64,
    positions: Seq<Vertex>,
    file_name: Seq<char>,
    target_text: Seq<char>,
)
    requires
        !(p is Failed),
    ensures
        p.validated() is Failed ==> p is Loaded,
        p.measured(diameter) is Failed ==> p is Validated,
        !(p.scaled(factor, positions) is Failed),
        !(p.named(file_name, target_text) is Failed),
        !(p.completed() is Failed),
{
}

/// A step leaves the pipeline where it stands, fails it, or moves it to the
/// one stage that follows: no stage is skipped and none is gone back to.
pub proof fn stages_follow_in_order(
    p: PipelineView,
    diameter: Option<u64>,
    factor: u64,
    positions: Seq<Vertex>,
    file_name: Seq<char>,
    target_text: Seq<char>,
)
    ensures
        follows(p.stage(), p.validated().stage()),
        follows(p.stage(), p.measured(diameter).stage()),
        follows(p.stage(), p.scaled(factor, positions).stage()),
        follows(p.stage(), p.named(file_name, target_text).stage()),
        follows(p.stage(), p.completed().stage()),
{
}

/// A mesh reported non-manifold or with holes never gets past `Loaded`.
pub proof fn defects_stop_the_pipeline(objects: Seq<MeshView>, request: Option<u64>)
    requires
        objects.len() == 1,
        report_of(objects[0]) == TopologyReport::NonManifold || report_of(objects[0])
            == TopologyReport::HasHoles,
    ensures
        (PipelineView::Loaded { objects, request }).validated() is Failed,
{
}

/// `after` is `before`, a failure, or the stage next in line.
pub open spec fn follows(before: Stage, after: Stage) -> bool {
    ||| after == before
    ||| after is Failed
    ||| before == Stage::Loaded && after == Stage::Validated
    ||| before == Stage::Validated && after == Stage::Measured
    ||| before == Stage::Measured && after == Stage::Scaled
    ||| before == Stage::Scaled && after == Stage::Named
    ||| before == Stage::Named && after == Stage::Complete
}

enum State {
    Loaded { objects: Vec<Mesh>, request: Option<u64> },
    Validated { mesh: Mesh, target: u64 },
    Measured { mesh: Mesh, target: u64, diameter: u64 },
    Scaled { mesh: Mesh, target: u64 },
    Named { mesh: Mesh, name: String },
    Complete,
    Failed(FailureReason),
}

/// One run of the resizing pipeline. It owns the mesh from loading until the
/// output is handed over.
pub struct Pipeline {
    state: State,
}

/// The views of a sequence of meshes.
pub open spec fn mesh_views(meshes: Seq<Mesh>) -> Seq<MeshView> {
    Seq::new(meshes.len(), |i: int| meshes[i]@)
}

impl View for Pipeline {
    type V = PipelineView;

    closed spec fn view(&self) -> PipelineView {
        match self.state {
            State::Loaded { objects, request } => PipelineView::Loaded { objects: mesh_views(objects@), request },
            State::Validated { mesh, target } => PipelineView::Validated { mesh: mesh@, target },
            State::Measured { mesh, target, diameter } => PipelineView::Measured { mesh: mesh@, target, diameter },
            State::Scaled { mesh, target } => PipelineView::Scaled { mesh: mesh@, target },
            State::Named { mesh, name } => PipelineView::Named { mesh: mesh@, name: name@ },
            State::Complete => PipelineView::Complete,
            State::Failed(reason) => PipelineView::Failed(reason),
        }
    }
}

impl Pipeline {
    /// Starts a pipeline on the meshes found in the input and the target
    /// measurement, `None` where the target was no number.
    pub fn new(objects: Vec<Mesh>, target: Option<u64>) -> (p: Pipeline)
        ensures
            p@ == (PipelineView::Loaded { objects: mesh_views(objects@), request: target }),
    {
        Pipeline { state: State::Loaded { objects, request: target } }
    }

    /// Tells where the pipeline stands.
    pub fn stage(&self) -> (s: Stage)
        ensures
            s == self@.stage(),
    {
        match &self.state {
            State::Loaded { .. } => Stage::Loaded,
            State::Validated { .. } => Stage::Validated,
            State::Measured { .. } => Stage::Measured,
            State::Scaled { .. } => Stage::Scaled,
            State::Named { .. } => Stage::Named,
            State::Complete => Stage::Complete,
            State::Failed(reason) => Stage::Failed(*reason),
        }
    }

    /// The mesh in work, if the pipeline holds one.
    pub fn mesh(&self) -> (m: Option<&Mesh>)
        ensures
            match m {
                Some(mesh) => self@.mesh() == Some(mesh@),
                None => self@.mesh() is None,
            },
    {
        match &self.state {
            State::Validated { mesh, .. } => Some(mesh),
            State::Measured { mesh, .. } => Some(mesh),
            State::Scaled { mesh, .. } => Some(mesh),
            State::Named { mesh, .. } => Some(mesh),
            _ => None,
        }
    }

    /// The target measurement, if the pipeline holds one.
    pub fn target(&self) -> (t: Option<u64>)
        ensures
            t == self@.target(),
    {
        match &self.state {
            State::Loaded { request, .. } => *request,
            State::Validated { target, .. } => Some(*target),
            State::Measured { target, .. } => Some(*target),
            State::Scaled { target, .. } => Some(*target),
            _ => None,
        }
    }

    /// The measured diameter, if the pipeline stands at `Measured`.
    pub fn diameter(&self) -> (d: Option<u64>)
        ensures
            d == self@.diameter(),
    {
        match &self.state {
            State::Measured { diameter, .. } => Some(*diameter),
            _ => None,
        }
    }

    /// The output's file name, if the pipeline stands at `Named`.
    pub fn output_name(&self) -> (n: Option<&str>)
        ensures
            match n {
                Some(name) => self@.name() == Some(name@),
                None => self@.name() is None,
            },
    {
        match &self.state {
            State::Named { name, .. } => Some(name.as_str()),
            _ => None,
        }
    }

    /// Tells whether the validator is about to meet a face that is no
    /// triangle. Such a face stops nothing, and is worth a notice.
    pub fn faces_unsupported(&self) -> (r: bool)
        ensures
            r == self@.faces_unsupported(),
    {
        match &self.state {
            State::Loaded { objects, request } => {
                request.is_some() && objects.len() == 1 && !only_triangles(objects[0].faces().as_slice())
            },
            _ => false,
        }
    }

    /// Runs the topology validator on a loaded input.
    pub fn validate(self) -> (next: Pipeline)
        ensures
            next@ == self@.validated(),
    {
        match self.state {
            State::Loaded { objects, request } => {
                let mut objects = objects;
                match request {
                    None => Pipeline { state: State::Failed(FailureReason::InvalidTarget) },
                    Some(target) => {
                        if objects.len() != 1 {
                            return Pipeline { state: State::Failed(FailureReason::NotSingleObject) };
                        }
                        match objects.pop() {
                            Some(mesh) => {
                                match validate(&mesh) {
                                    TopologyReport::NonManifold => Pipeline {
                                        state: State::Failed(FailureReason::NonManifold),
                                    },
                                    TopologyReport::HasHoles => Pipeline {
                                        state: State::Failed(FailureReason::HasHoles),
                                    },
                                    _ => Pipeline { state: State::Validated { mesh, target } },
                                }
                            },
                            None => Pipeline { state: State::Failed(FailureReason::NotSingleObject) },
                        }
                    },
                }
            },
            other => Pipeline { state: other },
        }
    }

    /// Records the measured inside diameter, `None` where there was nothing
    /// to measure.
    pub fn record_diameter(self, diameter: Option<u64>) -> (next: Pipeline)
        ensures
            next@ == self@.measured(diameter),
    {
        match self.state {
            State::Validated { mesh, target } => {
                match diameter {
                    Some(d) => {
                        if is_positive(d) {
                            Pipeline { state: State::Measured { mesh, target, diameter: d } }
                        } else {
                            Pipeline { state: State::Failed(FailureReason::DegenerateMeasurement) }
                        }
                    },
                    None => Pipeline { state: State::Failed(FailureReason::DegenerateMeasurement) },
                }
            },
            other => Pipeline { state: other },
        }
    }

    /// Takes the positions scaled by `factor` in place of the vertices.
    pub fn apply_scaling(self, factor: u64, positions: Vec<Vertex>) -> (next: Pipeline)
        ensures
            next@ == self@.scaled(factor, positions@),
    {
        match self.state {
            State::Measured { mesh, target, diameter } => {
                let mut mesh = mesh;
                if is_positive(factor) && is_finite(factor) && mesh.replace_positions(positions) {
                    Pipeline { state: State::Scaled { mesh, target } }
                } else {
                    Pipeline { state: State::Measured { mesh, target, diameter } }
                }
            },
            other => Pipeline { state: other },
        }
    }

    /// Names the output after the input's file name and the target written
    /// with two decimal places.
    pub fn name_output(self, file_name: &str, target_text: &str) -> (next: Pipeline)
        ensures
            next@ == self@.named(file_name@, target_text@),
    {
        match self.state {
            State::Scaled { mesh, target } => Pipeline {
                state: State::Named { mesh, name: output_file_name(file_name, target_text) },
            },
            other => Pipeline { state: other },
        }
    }

    /// Records that the output was handed over.
    pub fn complete(self) -> (next: Pipeline)
        ensures
            next@ == self@.completed(),
    {
        match self.state {
            State::Named { .. } => Pipeline { state: State::Complete },
            other => Pipeline { state: other },
        }
    }
}

} // verus!
