use gameplay_core::entity::Entity;
use gameplay_core::props::interactables::{Edibility, InteractableEntity};
use gameplay_core::props::levels::{kick_out, tell_to_eat, ObjectiveQuery};
use gameplay_core::props::logic_entity::{initialise_objective, ObjectiveLink};
use gameplay_core::props::specific::intro_crt::{
    clear_intro_crt_emote, emote_names, emote_slot, face_for, screen_textures,
    set_intro_crt_emote, texture_path, update_intro_crt_emotes, CrtEmoteCommandBuffer, ScreenFace,
    TextureFormat,
};

fn named(entries: &[(u64, &str)]) -> ObjectiveQuery {
    ObjectiveQuery {
        objectives: entries
            .iter()
            .map(|(bits, name)| (Entity(*bits), name.to_string()))
            .collect(),
    }
}

#[test]
fn plain_entity_has_nothing_set() {
    let entity = InteractableEntity::default();
    assert!(!entity.get_is_edible());
    assert_eq!(entity.get_interaction_text_override(), None);
    assert_eq!(entity.get_completes_subobjective(), None);
    assert_eq!(entity.get_interaction_relay(), None);
}

#[test]
fn getters_give_back_what_was_set() {
    let entity = InteractableEntity::new(
        true,
        Some("Open".to_string()),
        Some("work_1".to_string()),
        Some("door".to_string()),
    );
    assert!(entity.get_is_edible());
    assert_eq!(entity.get_interaction_text_override(), Some("Open"));
    assert_eq!(entity.get_completes_subobjective(), Some("work_1"));
    assert_eq!(entity.get_interaction_relay(), Some("door"));
}

#[test]
fn nothing_is_set_up_in_a_scene_world() {
    let entity = InteractableEntity::new(true, Some("Open".to_string()), Some("a".to_string()), None);
    let effects = entity.on_insert(true);
    assert!(effects.interactable.is_none());
    assert_eq!(effects.edible, None);
    assert!(effects.completor.is_none());
}

#[test]
fn edible_entity_is_marked() {
    let entity = InteractableEntity::new(true, None, None, None);
    let effects = entity.on_insert(false);
    assert!(effects.interactable.is_none());
    assert_eq!(effects.edible, Some(Edibility::Mark));
    assert!(effects.completor.is_none());
}

#[test]
fn inedible_entity_loses_the_mark() {
    let entity = InteractableEntity::new(false, None, None, Some("relay".to_string()));
    let effects = entity.on_insert(false);
    assert_eq!(effects.edible, Some(Edibility::Unmark));
}

#[test]
fn named_interaction_and_objective_are_set_up() {
    let entity = InteractableEntity::new(
        false,
        Some("Talk".to_string()),
        Some("work_3".to_string()),
        None,
    );
    let effects = entity.on_insert(false);
    assert_eq!(effects.interactable.unwrap().0, Some("Talk".to_string()));
    assert_eq!(effects.completor.unwrap().target, "work_3");
    assert_eq!(effects.edible, Some(Edibility::Unmark));
}

#[test]
fn objective_is_found_by_its_target_name() {
    let query = named(&[(1, "start_work"), (2, "work_5"), (3, "back_to_llm")]);
    assert_eq!(query.get_objective("start_work"), Ok(Entity(1)));
    assert_eq!(query.get_objective("work_5"), Ok(Entity(2)));
    assert_eq!(query.get_objective("back_to_llm"), Ok(Entity(3)));
}

#[test]
fn first_objective_of_a_name_wins() {
    let query = named(&[(1, "a"), (2, "b"), (3, "a"), (4, "b")]);
    assert_eq!(query.get_objective("a"), Ok(Entity(1)));
    assert_eq!(query.get_objective("b"), Ok(Entity(2)));
}

#[test]
fn missing_objective_is_an_error() {
    let query = named(&[(1, "start_work")]);
    assert_eq!(
        query.get_objective("work_5"),
        Err("Failed to find objective work_5".to_string())
    );
    assert_eq!(
        named(&[]).get_objective(""),
        Err("Failed to find objective ".to_string())
    );
}

#[test]
fn names_are_compared_in_full() {
    let query = named(&[(1, "work_50"), (2, "work_"), (3, "Work_5")]);
    assert_eq!(
        query.get_objective("work_5"),
        Err("Failed to find objective work_5".to_string())
    );
}

#[test]
fn end_of_break_completes_the_break_objective() {
    let query = named(&[(1, "start_work"), (2, "work_5"), (3, "work_5")]);
    assert_eq!(kick_out(&query), Some(Entity(2)));
}

#[test]
fn end_of_break_without_break_objective_does_nothing() {
    assert_eq!(kick_out(&named(&[(1, "start_work")])), None);
    assert_eq!(kick_out(&named(&[])), None);
}

#[test]
fn break_room_completes_the_current_break_objective() {
    assert_eq!(tell_to_eat(Some(Entity(5)), Some("work_5")), Some(Entity(5)));
}

#[test]
fn break_room_ignores_other_objectives() {
    assert_eq!(tell_to_eat(Some(Entity(5)), Some("work_4")), None);
    assert_eq!(tell_to_eat(Some(Entity(5)), None), None);
    assert_eq!(tell_to_eat(None, Some("work_5")), None);
    assert_eq!(tell_to_eat(None, None), None);
}

#[test]
fn objective_without_target_is_top_level() {
    assert_eq!(
        initialise_objective(false, &vec![Entity(1)], &vec![Entity(1)]),
        ObjectiveLink::TopLevel
    );
    assert_eq!(
        initialise_objective(false, &Vec::new(), &Vec::new()),
        ObjectiveLink::TopLevel
    );
}

#[test]
fn objective_links_to_the_first_named_objective() {
    let named = vec![Entity(4), Entity(5), Entity(6)];
    let objectives = vec![Entity(6), Entity(5), Entity(9)];
    assert_eq!(
        initialise_objective(true, &named, &objectives),
        ObjectiveLink::SubObjectiveOf(Entity(5))
    );
}

#[test]
fn objective_waits_for_a_parent_that_is_not_there() {
    assert_eq!(
        initialise_objective(true, &Vec::new(), &vec![Entity(1)]),
        ObjectiveLink::Unresolved
    );
    assert_eq!(
        initialise_objective(true, &vec![Entity(4)], &vec![Entity(1)]),
        ObjectiveLink::Unresolved
    );
}

#[test]
fn the_screen_knows_seventeen_faces() {
    assert_eq!(
        emote_names(),
        vec![
            "boot", "smile", "smile2", "stonks", "sideways", "point", "glitch", "shocked", "nod",
            "shake", "blank", "x", "annoyed", "away", "upside", "leftside", "rightside",
        ]
    );
}

#[test]
fn faces_sit_in_their_slots() {
    for (slot, name) in emote_names().iter().enumerate() {
        assert_eq!(emote_slot(name), Some(slot));
        assert_eq!(face_for(name), ScreenFace::Lit(slot));
    }
    assert_eq!(emote_slot("boot"), Some(0));
    assert_eq!(emote_slot("x"), Some(11));
    assert_eq!(emote_slot("rightside"), Some(16));
}

#[test]
fn unknown_faces_have_no_slot() {
    assert_eq!(emote_slot(""), None);
    assert_eq!(emote_slot("Boot"), None);
    assert_eq!(emote_slot("smile3"), None);
    assert_eq!(emote_slot("smil"), None);
    assert_eq!(face_for("frown"), ScreenFace::Dark);
}

#[test]
fn texture_paths_by_format() {
    assert_eq!(
        texture_path("boot", TextureFormat::Png),
        "models/office/crt/boot.png"
    );
    assert_eq!(
        texture_path("boot", TextureFormat::Ktx2),
        "models/office/crt/boot.ktx2"
    );
    assert_eq!(
        texture_path("smile2", TextureFormat::Ktx2),
        "models/office/crt/smile2.ktx2"
    );
}

#[test]
fn screen_textures_list_every_face_with_its_path() {
    let png = screen_textures(TextureFormat::Png);
    let ktx2 = screen_textures(TextureFormat::Ktx2);
    assert_eq!(png.len(), 17);
    assert_eq!(ktx2.len(), 17);
    for (slot, name) in emote_names().iter().enumerate() {
        assert_eq!(png[slot].0, *name);
        assert_eq!(png[slot].1, format!("models/office/crt/{name}.png"));
        assert_eq!(ktx2[slot].0, *name);
        assert_eq!(ktx2[slot].1, format!("models/office/crt/{name}.ktx2"));
    }
    assert_eq!(
        png[4],
        (
            "sideways".to_string(),
            "models/office/crt/sideways.png".to_string()
        )
    );
}

#[test]
fn new_buffer_is_empty() {
    let commands = CrtEmoteCommandBuffer::new();
    assert!(commands.is_empty());
    assert_eq!(commands.len(), 0);
}

#[test]
fn request_without_delay_is_due_at_once() {
    let mut commands = CrtEmoteCommandBuffer::new();
    set_intro_crt_emote(&mut commands, "smile".to_string(), None);
    assert_eq!(commands.len(), 1);
    let due = commands.take_due(0);
    assert_eq!(due.len(), 1);
    assert_eq!(due[0].emote_name, "smile");
    assert_eq!(due[0].delay_graphemes, 0);
    assert!(commands.is_empty());
}

#[test]
fn request_waits_for_its_delay() {
    let mut commands = CrtEmoteCommandBuffer::new();
    set_intro_crt_emote(&mut commands, "nod".to_string(), Some(12));
    assert!(commands.take_due(11).is_empty());
    assert_eq!(commands.len(), 1);
    let due = commands.take_due(12);
    assert_eq!(due.len(), 1);
    assert_eq!(due[0].delay_graphemes, 12);
    assert!(commands.is_empty());
}

#[test]
fn due_requests_come_oldest_first() {
    let mut commands = CrtEmoteCommandBuffer::new();
    set_intro_crt_emote(&mut commands, "boot".to_string(), None);
    set_intro_crt_emote(&mut commands, "smile".to_string(), Some(3));
    set_intro_crt_emote(&mut commands, "nod".to_string(), Some(9));
    let due = commands.take_due(5);
    let names: Vec<&str> = due.iter().map(|c| c.emote_name.as_str()).collect();
    assert_eq!(names, vec!["boot", "smile"]);
    assert_eq!(commands.len(), 1);
    let due = commands.take_due(9);
    assert_eq!(due[0].emote_name, "nod");
}

#[test]
fn a_request_waits_behind_one_that_is_not_due() {
    let mut commands = CrtEmoteCommandBuffer::new();
    set_intro_crt_emote(&mut commands, "shake".to_string(), Some(10));
    set_intro_crt_emote(&mut commands, "smile".to_string(), Some(2));
    assert!(commands.take_due(5).is_empty());
    assert_eq!(commands.len(), 2);
    let due = commands.take_due(10);
    let names: Vec<&str> = due.iter().map(|c| c.emote_name.as_str()).collect();
    assert_eq!(names, vec!["shake", "smile"]);
}

#[test]
fn screen_shows_the_last_face_that_fell_due() {
    let mut commands = CrtEmoteCommandBuffer::new();
    set_intro_crt_emote(&mut commands, "boot".to_string(), None);
    set_intro_crt_emote(&mut commands, "stonks".to_string(), Some(4));
    set_intro_crt_emote(&mut commands, "away".to_string(), Some(20));
    assert_eq!(update_intro_crt_emotes(&mut commands, 4), Some(ScreenFace::Lit(3)));
    assert_eq!(commands.len(), 1);
    assert_eq!(update_intro_crt_emotes(&mut commands, 19), None);
    assert_eq!(commands.len(), 1);
    assert_eq!(update_intro_crt_emotes(&mut commands, 20), Some(ScreenFace::Lit(13)));
    assert!(commands.is_empty());
    assert_eq!(update_intro_crt_emotes(&mut commands, 100), None);
}

#[test]
fn unknown_face_darkens_the_screen() {
    let mut commands = CrtEmoteCommandBuffer::new();
    set_intro_crt_emote(&mut commands, "smile".to_string(), None);
    set_intro_crt_emote(&mut commands, "off".to_string(), None);
    assert_eq!(update_intro_crt_emotes(&mut commands, 0), Some(ScreenFace::Dark));
    assert!(commands.is_empty());
}

#[test]
fn end_of_dialogue_drops_the_queue() {
    let mut commands = CrtEmoteCommandBuffer::new();
    set_intro_crt_emote(&mut commands, "smile".to_string(), Some(50));
    assert!(!clear_intro_crt_emote(&mut commands, true));
    assert_eq!(commands.len(), 1);
    assert!(clear_intro_crt_emote(&mut commands, false));
    assert!(commands.is_empty());
    assert!(clear_intro_crt_emote(&mut commands, false));
}

#[test]
fn clear_empties_the_buffer() {
    let mut commands = CrtEmoteCommandBuffer::new();
    set_intro_crt_emote(&mut commands, "smile".to_string(), Some(50));
    set_intro_crt_emote(&mut commands, "nod".to_string(), None);
    commands.clear();
    assert!(commands.is_empty());
}
