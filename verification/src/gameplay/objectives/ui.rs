//! The on-screen list of objectives.
//!
//! Every objective has a node in the list. The node's first child is the
//! text of the objective; a second child, where there is one, is the list
//! that holds the nodes of its sub-objectives. Deeper objectives are set in
//! smaller type and closer together.

use crate::entity::{contains_all, Entity};
use crate::gameplay::objectives::{SubObjectiveOf, SubObjectives};
use vstd::prelude::*;

verus! {

/// Links an objective to its node in the list.
#[derive(Debug, PartialEq, Eq, Structural, Clone, Copy)]
pub struct ObjectiveOfNode {
    pub node: Entity,
}

/// The size of an objective's text at a depth in the tree, in pixels: 16 at
/// the top, two less with every level, and never under 10.
pub fn font_size(depth: usize) -> (r: u32)
    ensures
        r == if 16 - 2 * depth > 10 {
            16 - 2 * depth
        } else {
            10
        },
{
    if depth < 3 {
        16 - 2 * (depth as u32)
    } else {
        10
    }
}

/// The gap between the rows of a node at a depth in the tree, in halves of
/// a pixel: 10 at the top, one less with every level, and never under 4.
pub fn row_gap_halves(depth: usize) -> (r: u32)
    ensures
        r == if 10 - depth > 4 {
            10 - depth
        } else {
            4
        },
{
    if depth < 6 {
        10 - depth as u32
    } else {
        4
    }
}

/// Where the node of a new objective goes.
#[derive(Debug, PartialEq, Eq, Structural, Clone, Copy)]
pub enum NodePlacement {
    /// Under the panel that holds all objectives.
    Panel,
    /// Under a list that is yet to be made under the given node.
    NewList { parent_node: Entity },
    /// Under the given list.
    List { list: Entity },
}

/// The placement that `on_spawn_objective` decides on.
///
/// A top-level objective goes under the panel. A sub-objective goes into the
/// list of its parent's node: the node's second child, or a new list where
/// the node has its text only. It gets no node while its parent has none, or
/// while the parent's node has no children.
pub open spec fn placement(
    sub_objective_of: Option<SubObjectiveOf>,
    parent_node: Option<ObjectiveOfNode>,
    parent_node_children: Option<Seq<Entity>>,
) -> Option<NodePlacement> {
    if sub_objective_of is None {
        Some(NodePlacement::Panel)
    } else if parent_node is None || parent_node_children is None {
        None
    } else if parent_node_children->0.len() == 1 {
        Some(NodePlacement::NewList { parent_node: parent_node->0.node })
    } else {
        Some(NodePlacement::List { list: parent_node_children->0[1] })
    }
}

/// Decides where the node of a newly spawned objective goes, given the
/// objective's link to its parent, the parent's node and that node's
/// children, each as far as it exists.
pub fn on_spawn_objective(
    sub_objective_of: Option<SubObjectiveOf>,
    parent_node: Option<ObjectiveOfNode>,
    parent_node_children: Option<&Vec<Entity>>,
) -> (r: Option<NodePlacement>)
    requires
        sub_objective_of is Some && parent_node is Some ==> (parent_node_children matches Some(
            children,
        ) ==> children@.len() >= 1),
    ensures
        r == placement(
            sub_objective_of,
            parent_node,
            match parent_node_children {
                Some(children) => Some(children@),
                None => None,
            },
        ),
{
    if sub_objective_of.is_none() {
        return Some(NodePlacement::Panel);
    }
    let Some(parent_node) = parent_node else {
        return None;
    };
    let Some(children) = parent_node_children else {
        return None;
    };
    if children.len() == 1 {
        Some(NodePlacement::NewList { parent_node: parent_node.node })
    } else {
        Some(NodePlacement::List { list: children[1] })
    }
}

/// What follows from an objective having been completed.
#[derive(Debug, PartialEq, Eq, Structural, Clone, Copy)]
pub struct CompletionEffects {
    /// The text to strike through.
    pub strike_through: Option<Entity>,
    /// The list of sub-objectives to take off the screen.
    pub despawn: Option<Entity>,
    /// The parent objective that is completed in turn.
    pub complete: Option<Entity>,
}

/// Whether every one of `sub_objectives` is among `completed`.
pub open spec fn all_completed(sub_objectives: Seq<Entity>, completed: Seq<Entity>) -> bool {
    forall|i: int| 0 <= i < sub_objectives.len() ==> completed.contains(#[trigger] sub_objectives[i])
}

/// The effects that `handle_completed_objective` decides on.
///
/// The text of the objective, the first child of its node, is struck
/// through, and the list of its sub-objectives, the second child, leaves the
/// screen. The parent is completed in turn once all of its sub-objectives
/// are.
pub open spec fn completion_effects(
    node_children: Option<Seq<Entity>>,
    sub_objective_of: Option<SubObjectiveOf>,
    siblings: Option<Seq<Entity>>,
    completed: Seq<Entity>,
) -> CompletionEffects {
    CompletionEffects {
        strike_through: if node_children is Some {
            Some(node_children->0[0])
        } else {
            None
        },
        despawn: if node_children is Some && node_children->0.len() >= 2 {
            Some(node_children->0[1])
        } else {
            None
        },
        complete: if sub_objective_of is Some && siblings is Some && all_completed(
            siblings->0,
            completed,
        ) {
            Some(sub_objective_of->0.objective)
        } else {
            None
        },
    }
}

/// Decides what follows from one objective having been completed.
///
/// `node_children` are the children of the objective's node, if the node
/// has any. `siblings` are the sub-objectives of the objective's parent, if
/// it has a parent that lists any, and `completed` are all objectives that
/// count as completed, the one at hand among them.
pub fn handle_completed_objective(
    node_children: Option<&Vec<Entity>>,
    sub_objective_of: Option<SubObjectiveOf>,
    siblings: Option<&SubObjectives>,
    completed: &Vec<Entity>,
) -> (r: CompletionEffects)
    requires
        node_children matches Some(children) ==> children@.len() >= 1,
    ensures
        r == completion_effects(
            match node_children {
                Some(children) => Some(children@),
                None => None,
            },
            sub_objective_of,
            match siblings {
                Some(s) => Some(s@),
                None => None,
            },
            completed@,
        ),
{
    let mut strike_through = None;
    let mut despawn = None;
    if let Some(children) = node_children {
        strike_through = Some(children[0]);
        if children.len() >= 2 {
            despawn = Some(children[1]);
        }
    }
    let mut complete = None;
    if let Some(sub_objective_of) = sub_objective_of {
        if let Some(siblings) = siblings {
            if contains_all(completed, &siblings.0) {
                complete = Some(sub_objective_of.objective);
            }
        }
    }
    CompletionEffects { strike_through, despawn, complete }
}

/// What the engine knows of an objective that has just been completed.
#[derive(Debug)]
pub struct CompletedObjective {
    /// The children of the objective's node, if the node has any.
    pub node_children: Option<Vec<Entity>>,
    /// The objective's link to its parent, if it has one.
    pub sub_objective_of: Option<SubObjectiveOf>,
    /// The sub-objectives of the objective's parent, if it has a parent
    /// that lists any.
    pub siblings: Option<SubObjectives>,
}

impl CompletedObjective {
    /// The effects that follow for this objective, given all objectives
    /// that count as completed.
    pub open spec fn effects(&self, completed: Seq<Entity>) -> CompletionEffects {
        completion_effects(
            match self.node_children {
                Some(children) => Some(children@),
                None => None,
            },
            self.sub_objective_of,
            match self.siblings {
                Some(siblings) => Some(siblings@),
                None => None,
            },
            completed,
        )
    }

    /// A node that has children has its text among them.
    pub open spec fn has_text(&self) -> bool {
        self.node_children matches Some(children) ==> children@.len() >= 1
    }
}

/// Decides what follows from each of the objectives that have just been
/// completed, in the order given. All of them are judged by the same
/// `completed`, the objectives that count as completed as the frame begins:
/// a parent completed here has its own turn in a later frame.
pub fn handle_completed_objectives(
    newly_completed: &Vec<CompletedObjective>,
    completed: &Vec<Entity>,
) -> (r: Vec<CompletionEffects>)
    requires
        forall|i: int| 0 <= i < newly_completed@.len() ==> (#[trigger] newly_completed@[i]).has_text(),
    ensures
        r@.len() == newly_completed@.len(),
        forall|i: int|
            0 <= i < r@.len() ==> #[trigger] r@[i] == newly_completed@[i].effects(completed@),
{
    let mut effects: Vec<CompletionEffects> = Vec::new();
    let mut i: usize = 0;
    while i < newly_completed.len()
        invariant
            i <= newly_completed@.len(),
            effects@.len() == i,
            forall|k: int|
                0 <= k < newly_completed@.len() ==> (#[trigger] newly_completed@[k]).has_text(),
            forall|k: int|
                0 <= k < i ==> #[trigger] effects@[k] == newly_completed@[k].effects(completed@),
        decreases newly_completed@.len() - i,
    {
        let objective = &newly_completed[i];
        assert(objective.has_text());
        effects.push(
            handle_completed_objective(
                objective.node_children.as_ref(),
                objective.sub_objective_of,
                objective.siblings.as_ref(),
                completed,
            ),
        );
        i += 1;
    }
    effects
}

/// Completing the last open sub-objective completes the parent, and not
/// before: with the objective at hand counted as completed, the parent
/// follows exactly when no other sub-objective is still open.
pub proof fn lemma_parent_follows_last(
    done: Entity,
    parent: SubObjectiveOf,
    siblings: Seq<Entity>,
    completed_before: Seq<Entity>,
)
    requires
        siblings.contains(done),
    ensures
        completion_effects(None, Some(parent), Some(siblings), completed_before.push(done)).complete
            == if forall|i: int|
            0 <= i < siblings.len() && siblings[i] != done ==> completed_before.contains(
                #[trigger] siblings[i],
            ) {
            Some(parent.objective)
        } else {
            None
        },
{
    let completed = completed_before.push(done);
    assert(completed[completed_before.len() as int] == done);
    assert forall|e: Entity| completed.contains(e) <==> (e == done || completed_before.contains(e)) by {
        if completed_before.contains(e) {
            let j = choose|j: int| 0 <= j < completed_before.len() && completed_before[j] == e;
            assert(completed[j] == e);
        }
    }
}

} // verus!
