use gameplay_core::entity::{contains, contains_all, Entity};
use gameplay_core::gameplay::interaction::{
    interact_by_input_action, picking_click_observer, watch_for_interactability_hover,
    watch_for_interactability_unhover, AvailableInteraction, InteractEvent, InteractableObject,
};
use gameplay_core::gameplay::level::{spawn_level, AssetSet, CurrentLevel};
use gameplay_core::gameplay::objectives::ui::{
    font_size, handle_completed_objective, handle_completed_objectives, on_spawn_objective,
    row_gap_halves, CompletedObjective, CompletionEffects, NodePlacement, ObjectiveOfNode,
};
use gameplay_core::gameplay::objectives::{Objective, SubObjectiveOf, SubObjectives};

#[test]
fn entities_are_told_apart_by_their_bits() {
    assert_eq!(Entity(4), Entity(4));
    assert_ne!(Entity(4), Entity(5));
}

#[test]
fn contains_finds_members_only() {
    let entities = vec![Entity(1), Entity(2), Entity(3)];
    assert!(contains(&entities, Entity(1)));
    assert!(contains(&entities, Entity(3)));
    assert!(!contains(&entities, Entity(4)));
    assert!(!contains(&Vec::new(), Entity(1)));
}

#[test]
fn contains_all_asks_for_every_member() {
    let entities = vec![Entity(1), Entity(2), Entity(3)];
    assert!(contains_all(&entities, &vec![Entity(3), Entity(1)]));
    assert!(contains_all(&entities, &vec![Entity(2), Entity(2)]));
    assert!(contains_all(&entities, &Vec::new()));
    assert!(!contains_all(&entities, &vec![Entity(1), Entity(4)]));
    assert!(!contains_all(&Vec::new(), &vec![Entity(1)]));
}

#[test]
fn nothing_is_in_focus_at_first() {
    let focus = AvailableInteraction::default();
    assert_eq!(focus.target_entity, None);
    assert_eq!(focus.description, None);
    assert_eq!(InteractableObject::default().0, None);
}

#[test]
fn click_on_interactable_is_an_interaction() {
    assert_eq!(
        picking_click_observer(Entity(9), true),
        Some(InteractEvent(Entity(9)))
    );
}

#[test]
fn click_on_anything_else_passes() {
    assert_eq!(picking_click_observer(Entity(9), false), None);
}

#[test]
fn interact_key_uses_the_focused_entity() {
    let focus = AvailableInteraction {
        target_entity: Some(Entity(3)),
        description: None,
    };
    assert_eq!(
        interact_by_input_action(&focus, true),
        Some(InteractEvent(Entity(3)))
    );
    assert_eq!(interact_by_input_action(&focus, false), None);
}

#[test]
fn interact_key_without_focus_does_nothing() {
    let focus = AvailableInteraction::default();
    assert_eq!(interact_by_input_action(&focus, true), None);
    assert_eq!(interact_by_input_action(&focus, false), None);
}

#[test]
fn hover_over_interactable_takes_focus_and_name() {
    let mut focus = AvailableInteraction::default();
    let object = InteractableObject(Some("Eat".to_string()));
    watch_for_interactability_hover(&mut focus, Entity(5), Some(&object));
    assert_eq!(focus.target_entity, Some(Entity(5)));
    assert_eq!(focus.description, Some("Eat".to_string()));
}

#[test]
fn hover_over_nameless_interactable_clears_the_name() {
    let mut focus = AvailableInteraction {
        target_entity: Some(Entity(1)),
        description: Some("Talk".to_string()),
    };
    watch_for_interactability_hover(&mut focus, Entity(5), Some(&InteractableObject(None)));
    assert_eq!(focus.target_entity, Some(Entity(5)));
    assert_eq!(focus.description, None);
}

#[test]
fn hover_over_anything_else_keeps_the_focus() {
    let mut focus = AvailableInteraction {
        target_entity: Some(Entity(1)),
        description: Some("Talk".to_string()),
    };
    watch_for_interactability_hover(&mut focus, Entity(5), None);
    assert_eq!(focus.target_entity, Some(Entity(1)));
    assert_eq!(focus.description, Some("Talk".to_string()));
}

#[test]
fn unhover_of_the_focused_entity_clears_the_focus() {
    let mut focus = AvailableInteraction {
        target_entity: Some(Entity(1)),
        description: Some("Talk".to_string()),
    };
    watch_for_interactability_unhover(&mut focus, Entity(1));
    assert_eq!(focus.target_entity, None);
    assert_eq!(focus.description, None);
}

#[test]
fn unhover_of_another_entity_keeps_the_focus() {
    let mut focus = AvailableInteraction {
        target_entity: Some(Entity(1)),
        description: Some("Talk".to_string()),
    };
    watch_for_interactability_unhover(&mut focus, Entity(2));
    assert_eq!(focus.target_entity, Some(Entity(1)));
    assert_eq!(focus.description, Some("Talk".to_string()));
    let mut nothing = AvailableInteraction::default();
    watch_for_interactability_unhover(&mut nothing, Entity(2));
    assert_eq!(nothing.target_entity, None);
}

#[test]
fn first_day_is_the_default_level() {
    assert_eq!(CurrentLevel::default(), CurrentLevel::DayOne);
}

#[test]
fn day_one_spawns_from_its_own_assets() {
    let spawn = spawn_level(CurrentLevel::DayOne, false);
    assert_eq!(spawn.objective, "Clock In");
    assert_eq!(spawn.targetname, "start_work");
    assert_eq!(spawn.scene, AssetSet::LevelOne);
    assert_eq!(spawn.music, AssetSet::LevelOne);
    assert_eq!(spawn.navmesh, AssetSet::LevelOne);
}

#[test]
fn day_two_walks_on_the_navmesh_of_day_one() {
    let spawn = spawn_level(CurrentLevel::DayTwo, true);
    assert_eq!(spawn.objective, "Clock In");
    assert_eq!(spawn.targetname, "start_work");
    assert_eq!(spawn.scene, AssetSet::LevelTwo);
    assert_eq!(spawn.music, AssetSet::LevelTwo);
    assert_eq!(spawn.navmesh, AssetSet::LevelOne);
}

#[test]
fn asset_set_paths() {
    assert_eq!(AssetSet::LevelOne.level_path(), "maps/main/one/one.map#Scene");
    assert_eq!(AssetSet::LevelTwo.level_path(), "maps/main/two/two.map#Scene");
    assert_eq!(AssetSet::LevelOne.navmesh_path(), "maps/main/one/one.nav");
    assert_eq!(AssetSet::LevelTwo.navmesh_path(), "maps/main/two/two.nav");
    assert_eq!(
        AssetSet::LevelOne.music_path(),
        "audio/music/corpo slop to eat your computer to.ogg"
    );
    assert_eq!(
        AssetSet::LevelTwo.music_path(),
        "audio/music/corpo slop to eat your computer to.ogg"
    );
}

#[test]
fn objective_keeps_its_description() {
    assert_eq!(Objective::new("Task 1").description, "Task 1");
    assert_eq!(Objective::new("").description, "");
    assert_eq!(Objective::default().description, "");
}

#[test]
fn sub_objectives_default_to_none() {
    assert!(SubObjectives::default().0.is_empty());
}

#[test]
fn font_size_shrinks_with_depth_down_to_ten() {
    assert_eq!(font_size(0), 16);
    assert_eq!(font_size(1), 14);
    assert_eq!(font_size(2), 12);
    assert_eq!(font_size(3), 10);
    assert_eq!(font_size(4), 10);
    assert_eq!(font_size(usize::MAX), 10);
}

#[test]
fn font_size_agrees_with_the_pixel_formula() {
    for depth in 0..40_usize {
        let pixels = (16.0 - depth as f32 * 2.0).max(10.0);
        assert_eq!(font_size(depth) as f32, pixels);
    }
}

#[test]
fn row_gap_shrinks_with_depth_down_to_two_pixels() {
    assert_eq!(row_gap_halves(0), 10);
    assert_eq!(row_gap_halves(1), 9);
    assert_eq!(row_gap_halves(5), 5);
    assert_eq!(row_gap_halves(6), 4);
    assert_eq!(row_gap_halves(7), 4);
    assert_eq!(row_gap_halves(usize::MAX), 4);
}

#[test]
fn row_gap_agrees_with_the_pixel_formula() {
    for depth in 0..40_usize {
        let pixels = (5.0 - depth as f32 * 0.5).max(2.0);
        assert_eq!(row_gap_halves(depth) as f32 / 2.0, pixels);
    }
}

#[test]
fn top_level_objective_goes_under_the_panel() {
    assert_eq!(
        on_spawn_objective(None, None, None),
        Some(NodePlacement::Panel)
    );
    let children = vec![Entity(1), Entity(2)];
    assert_eq!(
        on_spawn_objective(None, Some(ObjectiveOfNode { node: Entity(7) }), Some(&children)),
        Some(NodePlacement::Panel)
    );
    assert_eq!(
        on_spawn_objective(None, Some(ObjectiveOfNode { node: Entity(7) }), Some(&Vec::new())),
        Some(NodePlacement::Panel)
    );
    assert_eq!(
        on_spawn_objective(
            Some(SubObjectiveOf { objective: Entity(1) }),
            None,
            Some(&Vec::new()),
        ),
        None
    );
}

#[test]
fn first_sub_objective_gets_a_new_list() {
    let children = vec![Entity(11)];
    assert_eq!(
        on_spawn_objective(
            Some(SubObjectiveOf { objective: Entity(1) }),
            Some(ObjectiveOfNode { node: Entity(10) }),
            Some(&children),
        ),
        Some(NodePlacement::NewList { parent_node: Entity(10) })
    );
}

#[test]
fn later_sub_objectives_share_the_list() {
    let children = vec![Entity(11), Entity(12)];
    assert_eq!(
        on_spawn_objective(
            Some(SubObjectiveOf { objective: Entity(1) }),
            Some(ObjectiveOfNode { node: Entity(10) }),
            Some(&children),
        ),
        Some(NodePlacement::List { list: Entity(12) })
    );
    let children = vec![Entity(11), Entity(12), Entity(13)];
    assert_eq!(
        on_spawn_objective(
            Some(SubObjectiveOf { objective: Entity(1) }),
            Some(ObjectiveOfNode { node: Entity(10) }),
            Some(&children),
        ),
        Some(NodePlacement::List { list: Entity(12) })
    );
}

#[test]
fn sub_objective_waits_for_its_parents_node() {
    let children = vec![Entity(11)];
    assert_eq!(
        on_spawn_objective(
            Some(SubObjectiveOf { objective: Entity(1) }),
            None,
            Some(&children),
        ),
        None
    );
    assert_eq!(
        on_spawn_objective(
            Some(SubObjectiveOf { objective: Entity(1) }),
            Some(ObjectiveOfNode { node: Entity(10) }),
            None,
        ),
        None
    );
}

#[test]
fn completed_objective_is_struck_through() {
    let children = vec![Entity(21)];
    assert_eq!(
        handle_completed_objective(Some(&children), None, None, &vec![Entity(1)]),
        CompletionEffects {
            strike_through: Some(Entity(21)),
            despawn: None,
            complete: None,
        }
    );
}

#[test]
fn completed_objective_loses_its_sub_objective_list() {
    let children = vec![Entity(21), Entity(22), Entity(23)];
    assert_eq!(
        handle_completed_objective(Some(&children), None, None, &vec![Entity(1)]),
        CompletionEffects {
            strike_through: Some(Entity(21)),
            despawn: Some(Entity(22)),
            complete: None,
        }
    );
}

#[test]
fn objective_without_node_children_changes_nothing_on_screen() {
    assert_eq!(
        handle_completed_objective(None, None, None, &vec![Entity(1)]),
        CompletionEffects {
            strike_through: None,
            despawn: None,
            complete: None,
        }
    );
}

#[test]
fn last_sub_objective_completes_the_parent() {
    let siblings = SubObjectives(vec![Entity(2), Entity(3), Entity(4)]);
    let completed = vec![Entity(4), Entity(9), Entity(2), Entity(3)];
    let effects = handle_completed_objective(
        None,
        Some(SubObjectiveOf { objective: Entity(1) }),
        Some(&siblings),
        &completed,
    );
    assert_eq!(effects.complete, Some(Entity(1)));
}

#[test]
fn open_sibling_keeps_the_parent_open() {
    let siblings = SubObjectives(vec![Entity(2), Entity(3), Entity(4)]);
    let completed = vec![Entity(2), Entity(4)];
    let effects = handle_completed_objective(
        None,
        Some(SubObjectiveOf { objective: Entity(1) }),
        Some(&siblings),
        &completed,
    );
    assert_eq!(effects.complete, None);
}

#[test]
fn parent_without_sub_objective_list_stays_open() {
    let effects = handle_completed_objective(
        None,
        Some(SubObjectiveOf { objective: Entity(1) }),
        None,
        &vec![Entity(2)],
    );
    assert_eq!(effects.complete, None);
}

#[test]
fn top_level_objective_completes_no_parent() {
    let siblings = SubObjectives(vec![Entity(2)]);
    let effects = handle_completed_objective(None, None, Some(&siblings), &vec![Entity(2)]);
    assert_eq!(effects.complete, None);
}

#[test]
fn completion_climbs_one_level_at_a_time() {
    // Task 2 has sub-objectives 2.1 and 2.2, and 2.2 has 2.2.1 and 2.2.2.
    let (task_2, task_2_1, task_2_2) = (Entity(20), Entity(21), Entity(22));
    let (task_2_2_1, task_2_2_2) = (Entity(221), Entity(222));
    let of_task_2 = SubObjectives(vec![task_2_1, task_2_2]);
    let of_task_2_2 = SubObjectives(vec![task_2_2_1, task_2_2_2]);
    let mut completed = vec![task_2_1, task_2_2_1];

    completed.push(task_2_2_2);
    let first = handle_completed_objective(
        None,
        Some(SubObjectiveOf { objective: task_2_2 }),
        Some(&of_task_2_2),
        &completed,
    );
    assert_eq!(first.complete, Some(task_2_2));

    completed.push(task_2_2);
    let second = handle_completed_objective(
        None,
        Some(SubObjectiveOf { objective: task_2 }),
        Some(&of_task_2),
        &completed,
    );
    assert_eq!(second.complete, Some(task_2));
}

#[test]
fn objectives_completed_together_are_judged_alike() {
    // Sub-objectives 2 and 3 of objective 1 are completed in the same
    // frame; 4 is a top-level objective with a list of its own on screen.
    let newly_completed = vec![
        CompletedObjective {
            node_children: Some(vec![Entity(21)]),
            sub_objective_of: Some(SubObjectiveOf { objective: Entity(1) }),
            siblings: Some(SubObjectives(vec![Entity(2), Entity(3)])),
        },
        CompletedObjective {
            node_children: None,
            sub_objective_of: Some(SubObjectiveOf { objective: Entity(1) }),
            siblings: Some(SubObjectives(vec![Entity(2), Entity(3)])),
        },
        CompletedObjective {
            node_children: Some(vec![Entity(41), Entity(42)]),
            sub_objective_of: None,
            siblings: None,
        },
    ];
    let completed = vec![Entity(2), Entity(3), Entity(4)];
    assert_eq!(
        handle_completed_objectives(&newly_completed, &completed),
        vec![
            CompletionEffects {
                strike_through: Some(Entity(21)),
                despawn: None,
                complete: Some(Entity(1)),
            },
            CompletionEffects {
                strike_through: None,
                despawn: None,
                complete: Some(Entity(1)),
            },
            CompletionEffects {
                strike_through: Some(Entity(41)),
                despawn: Some(Entity(42)),
                complete: None,
            },
        ]
    );
}

#[test]
fn nothing_completed_has_no_effects() {
    assert!(handle_completed_objectives(&Vec::new(), &vec![Entity(1)]).is_empty());
}
