use ios_examples::button::{button_feedback, ButtonColor, ButtonFeedback, ButtonInteraction};
use ios_examples::game::{
    answers_are_defined, find_item_at, handle_all_responded, handle_responded, Answer, map_notification, notification_categories, response_is_defined,
    start_after_authorization, starting_items, starting_position, Item, Position, MAP_SIZE,
};
use ios_examples::notification::{
    Notification, NotificationAuthorized, NotificationContent, NotificationError,
    NotificationResponded,
};

fn expected_map(player: Position, items: &[(usize, usize, &str)]) -> String {
    let mut map = String::new();
    for y in 0..10 {
        for x in 0..10 {
            let mut symbol = "⬛️";
            for (ix, iy, s) in items {
                if *ix == x && *iy == y {
                    symbol = s;
                }
            }
            if player.x == x && player.y == y {
                symbol = "🏃";
            }
            map.push_str(symbol);
        }
        map.push('\n');
    }
    map
}

fn answer(action: &str) -> NotificationResponded {
    NotificationResponded { notification: 77, action_identifier: action.to_string() }
}

fn notification(category: &str) -> Notification {
    Notification::new(&NotificationContent {
        title: "t".to_string(),
        body: "b".to_string(),
        category_identifier: category.to_string(),
    })
}

#[test]
fn starting_state() {
    assert_eq!(starting_position(), Position { x: 5, y: 5 });
    let items = starting_items();
    assert_eq!(items.len(), 2);
    assert_eq!(items[0].name, "rusty sword (+1 ATK)");
    assert_eq!(items[0].symbol, "🟪");
    assert_eq!(items[0].position, Position { x: 7, y: 8 });
    assert_eq!(items[1].name, "worn shoe");
    assert_eq!(items[1].symbol, "🟨");
    assert_eq!(items[1].position, Position { x: 3, y: 4 });
}

#[test]
fn map_of_the_starting_state() {
    let n = map_notification("Look around for treasure!", starting_position(), &starting_items());
    let c = n.content();
    assert_eq!(c.title, "Look around for treasure!");
    assert_eq!(c.category_identifier, "MOVE");
    let expected = expected_map(
        Position { x: 5, y: 5 },
        &[(7, 8, "🟪"), (3, 4, "🟨")],
    );
    assert_eq!(c.body, expected);
    assert_eq!(c.body.lines().count(), MAP_SIZE);
    assert!(c.body.lines().nth(5).unwrap().starts_with("⬛️⬛️⬛️⬛️⬛️🏃"));
    assert!(c.body.lines().nth(8).unwrap().contains("🟪"));
}

#[test]
fn map_shows_last_item_of_a_cell_and_player_over_items() {
    let items = vec![
        Item { name: "a".to_string(), symbol: "A".to_string(), position: Position { x: 0, y: 0 } },
        Item { name: "b".to_string(), symbol: "B".to_string(), position: Position { x: 0, y: 0 } },
        Item { name: "c".to_string(), symbol: "C".to_string(), position: Position { x: 9, y: 9 } },
        Item { name: "far".to_string(), symbol: "F".to_string(), position: Position { x: 20, y: 3 } },
    ];
    let n = map_notification("x", Position { x: 9, y: 9 }, &items);
    let body = &n.content().body;
    assert!(body.starts_with("B⬛️"));
    assert!(!body.contains('A'));
    assert!(!body.contains('C'));
    assert!(!body.contains('F'));
    assert!(body.ends_with("🏃\n"));
}

#[test]
fn walking_left_right_up_down() {
    let items = starting_items();
    let mut p = Position { x: 5, y: 5 };
    let walk = notification("MOVE");
    let e = handle_responded(&mut p, &items, &walk, &answer("ACTION_LEFT"));
    assert_eq!(p, Position { x: 4, y: 5 });
    assert_eq!(e.despawn_item, None);
    let shown = e.spawn.unwrap();
    assert_eq!(shown.content().title, "Walkin'");
    assert_eq!(shown.content().category_identifier, "MOVE");
    assert_eq!(shown.content().body, expected_map(p, &[(7, 8, "🟪"), (3, 4, "🟨")]));
    handle_responded(&mut p, &items, &walk, &answer("ACTION_RIGHT"));
    assert_eq!(p, Position { x: 5, y: 5 });
    handle_responded(&mut p, &items, &walk, &answer("ACTION_UP"));
    assert_eq!(p, Position { x: 5, y: 4 });
    handle_responded(&mut p, &items, &walk, &answer("ACTION_DOWN"));
    assert_eq!(p, Position { x: 5, y: 5 });
}

#[test]
fn other_action_on_walking_notification_stays_and_shows_map() {
    let items = starting_items();
    let mut p = Position { x: 5, y: 5 };
    let e = handle_responded(&mut p, &items, &notification("MOVE"), &answer("com.apple.UNNotificationDismissActionIdentifier"));
    assert_eq!(p, Position { x: 5, y: 5 });
    assert_eq!(e.spawn.unwrap().content().title, "Walkin'");
}

#[test]
fn walking_onto_an_item_offers_it() {
    let items = starting_items();
    let mut p = Position { x: 4, y: 4 };
    let e = handle_responded(&mut p, &items, &notification("MOVE"), &answer("ACTION_LEFT"));
    assert_eq!(p, Position { x: 3, y: 4 });
    let shown = e.spawn.unwrap();
    assert_eq!(shown.content().title, "You come across a worn shoe");
    assert_eq!(shown.content().body, "Do you want to pick it up?");
    assert_eq!(shown.content().category_identifier, "TAKE");
    assert_eq!(e.despawn_item, None);
}

#[test]
fn taking_an_item() {
    let items = starting_items();
    let mut p = Position { x: 7, y: 8 };
    let e = handle_responded(&mut p, &items, &notification("TAKE"), &answer("ACTION_TAKE"));
    assert_eq!(p, Position { x: 7, y: 8 });
    assert_eq!(e.despawn_item, Some(0));
    let shown = e.spawn.unwrap();
    assert_eq!(shown.content().title, "You grab the rusty sword (+1 ATK)!");
    assert_eq!(shown.content().category_identifier, "MOVE");
    assert_eq!(shown.content().body, expected_map(p, &[(7, 8, "🟪"), (3, 4, "🟨")]));
}

#[test]
fn leaving_an_item() {
    let items = starting_items();
    let mut p = Position { x: 3, y: 4 };
    let e = handle_responded(&mut p, &items, &notification("TAKE"), &answer("ACTION_LEAVE"));
    assert_eq!(e.despawn_item, None);
    assert_eq!(e.spawn.unwrap().content().title, "You leave the worn shoe, and move on");
}

#[test]
fn other_answers_do_nothing() {
    let items = starting_items();
    let mut p = Position { x: 3, y: 4 };
    let e = handle_responded(&mut p, &items, &notification("TAKE"), &answer("ACTION_LEFT"));
    assert!(e.spawn.is_none());
    assert!(e.despawn_item.is_none());
    let e = handle_responded(&mut p, &items, &notification("OTHER"), &answer("ACTION_TAKE"));
    assert!(e.spawn.is_none());
    assert_eq!(p, Position { x: 3, y: 4 });
}

#[test]
fn undefined_answers_are_recognised() {
    let items = starting_items();
    assert!(!response_is_defined(Position { x: 0, y: 3 }, &items, &notification("MOVE"), &answer("ACTION_LEFT")));
    assert!(!response_is_defined(Position { x: 3, y: 0 }, &items, &notification("MOVE"), &answer("ACTION_UP")));
    assert!(!response_is_defined(Position { x: usize::MAX, y: 0 }, &items, &notification("MOVE"), &answer("ACTION_RIGHT")));
    assert!(!response_is_defined(Position { x: 1, y: usize::MAX }, &items, &notification("MOVE"), &answer("ACTION_DOWN")));
    assert!(response_is_defined(Position { x: 0, y: 3 }, &items, &notification("MOVE"), &answer("ACTION_RIGHT")));
    assert!(!response_is_defined(Position { x: 0, y: 0 }, &items, &notification("TAKE"), &answer("ACTION_TAKE")));
    assert!(!response_is_defined(Position { x: 0, y: 0 }, &items, &notification("TAKE"), &answer("ACTION_LEAVE")));
    assert!(response_is_defined(Position { x: 0, y: 0 }, &items, &notification("TAKE"), &answer("other")));
    assert!(response_is_defined(Position { x: 7, y: 8 }, &items, &notification("TAKE"), &answer("ACTION_TAKE")));
}

#[test]
fn find_item_takes_the_first() {
    let items = vec![
        Item { name: "a".to_string(), symbol: "A".to_string(), position: Position { x: 1, y: 1 } },
        Item { name: "b".to_string(), symbol: "B".to_string(), position: Position { x: 2, y: 2 } },
        Item { name: "c".to_string(), symbol: "C".to_string(), position: Position { x: 2, y: 2 } },
    ];
    assert_eq!(find_item_at(&items, Position { x: 2, y: 2 }), Some(1));
    assert_eq!(find_item_at(&items, Position { x: 3, y: 2 }), None);
}

#[test]
fn authorization_starts_the_game_only_when_granted() {
    let items = starting_items();
    let granted = NotificationAuthorized { result: Ok(true) };
    let started = start_after_authorization(&granted, starting_position(), &items);
    assert!(started.withdraw_all);
    let n = started.spawn.unwrap();
    assert_eq!(n.content().title, "Look around for treasure!");
    assert_eq!(n.content().category_identifier, "MOVE");
    let denied = NotificationAuthorized { result: Ok(false) };
    let refused = start_after_authorization(&denied, starting_position(), &items);
    assert!(!refused.withdraw_all);
    assert!(refused.spawn.is_none());
    let failed = NotificationAuthorized {
        result: Err(NotificationError { description: "no".to_string() }),
    };
    let failed = start_after_authorization(&failed, starting_position(), &items);
    assert!(!failed.withdraw_all);
    assert!(failed.spawn.is_none());
}

#[test]
fn categories_offer_the_game_actions() {
    let categories = notification_categories();
    assert_eq!(categories.len(), 2);
    assert_eq!(categories[0].identifier, "MOVE");
    let ids: Vec<&str> = categories[0].actions.iter().map(|a| a.identifier.as_str()).collect();
    assert_eq!(ids, vec!["ACTION_LEFT", "ACTION_RIGHT", "ACTION_UP", "ACTION_DOWN"]);
    assert_eq!(categories[0].actions[1].title, "Go right");
    assert_eq!(categories[0].actions[3].icon_system_image_name, "arrowshape.down");
    assert!(categories[0].custom_dismiss_action);
    assert!(categories[0].intent_identifiers.is_empty());
    assert!(categories[1].intent_identifiers.is_empty());
    assert!(categories[1].custom_dismiss_action);
    assert_eq!(categories[1].identifier, "TAKE");
    assert_eq!(categories[1].actions[0].identifier, "ACTION_TAKE");
    assert_eq!(categories[1].actions[0].icon_system_image_name, "hand.point.up");
    assert!(!categories[1].actions[0].destructive);
    assert_eq!(categories[1].actions[1].identifier, "ACTION_LEAVE");
    assert_eq!(categories[1].actions[1].title, "Leave");
    assert!(categories[1].actions[1].destructive);
}

#[test]
fn button_feedback_per_interaction() {
    assert_eq!(
        button_feedback(ButtonInteraction::Pressed),
        ButtonFeedback { color: ButtonColor::Blue, activate: true }
    );
    assert_eq!(
        button_feedback(ButtonInteraction::Hovered),
        ButtonFeedback { color: ButtonColor::Gray, activate: false }
    );
    assert_eq!(
        button_feedback(ButtonInteraction::Idle),
        ButtonFeedback { color: ButtonColor::White, activate: false }
    );
}

#[test]
fn notification_keeps_a_copy_of_its_content() {
    let mut content = NotificationContent {
        title: "t".to_string(),
        body: "b".to_string(),
        category_identifier: "MOVE".to_string(),
    };
    let n = Notification::new(&content);
    content.title.push('!');
    assert_eq!(n.content().title, "t");
    assert_eq!(n.content().body, "b");
}

#[test]
fn the_item_offered_is_the_item_taken() {
    let items = vec![
        Item { name: "first".to_string(), symbol: "1".to_string(), position: Position { x: 2, y: 3 } },
        Item { name: "second".to_string(), symbol: "2".to_string(), position: Position { x: 2, y: 3 } },
    ];
    let mut p = Position { x: 2, y: 2 };
    let offer = handle_responded(&mut p, &items, &notification("MOVE"), &answer("ACTION_DOWN"));
    let offer = offer.spawn.unwrap();
    assert_eq!(offer.content().title, "You come across a first");
    let taken = handle_responded(&mut p, &items, &offer, &answer("ACTION_TAKE"));
    assert_eq!(taken.despawn_item, Some(0));
    assert_eq!(taken.spawn.unwrap().content().title, "You grab the first!");
}

#[test]
fn the_answered_notification_is_always_withdrawn() {
    let items = starting_items();
    let mut p = Position { x: 5, y: 5 };
    for (category, action) in [("MOVE", "ACTION_UP"), ("TAKE", "other"), ("OTHER", "x")] {
        let message = NotificationResponded { notification: 4294967301, action_identifier: action.to_string() };
        let e = handle_responded(&mut p, &items, &notification(category), &message);
        assert_eq!(e.withdraw, 4294967301);
    }
}

#[test]
fn answers_are_handled_in_order() {
    let items = starting_items();
    let answers: Vec<Answer> = [("MOVE", "ACTION_LEFT", 1u64), ("MOVE", "ACTION_UP", 2), ("TAKE", "ACTION_TAKE", 3), ("OTHER", "ACTION_LEFT", 4)]
        .iter()
        .map(|(c, a, n)| Answer {
            responded: notification(c),
            message: NotificationResponded { notification: *n, action_identifier: a.to_string() },
        })
        .collect();
    let start = Position { x: 4, y: 5 };
    assert!(answers_are_defined(start, &items, &answers));
    let mut p = start;
    let effects = handle_all_responded(&mut p, &items, &answers);
    assert_eq!(p, Position { x: 3, y: 4 });
    assert_eq!(effects.len(), 4);
    let withdrawn: Vec<u64> = effects.iter().map(|e| e.withdraw).collect();
    assert_eq!(withdrawn, vec![1, 2, 3, 4]);
    assert_eq!(effects[0].spawn.as_ref().unwrap().content().title, "Walkin'");
    assert_eq!(effects[1].spawn.as_ref().unwrap().content().title, "You come across a worn shoe");
    assert_eq!(effects[2].despawn_item, Some(1));
    assert!(effects[3].spawn.is_none());
    // The walk moved the player two cells, no more than the two walking answers.
    assert!(start.x.abs_diff(p.x) + start.y.abs_diff(p.y) <= 2);
}

#[test]
fn a_run_of_answers_that_walks_off_the_grid_is_recognised() {
    let items = starting_items();
    let answers: Vec<Answer> = ["ACTION_LEFT", "ACTION_LEFT"]
        .iter()
        .map(|a| Answer {
            responded: notification("MOVE"),
            message: NotificationResponded { notification: 9, action_identifier: a.to_string() },
        })
        .collect();
    assert!(!answers_are_defined(Position { x: 1, y: 0 }, &items, &answers));
    assert!(answers_are_defined(Position { x: 2, y: 0 }, &items, &answers));
}
