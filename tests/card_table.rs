use card_table::geometry::{
    board_point, drag_point, intersect_plane, intersect_point, Ray, Vec3, DRAG_PLANE_HEIGHT,
};
use card_table::layout::{board_tiles, camera_position, draw_hand, HAND_SIZE};
use card_table::resources::{Card, EnemyOwned, Heading, Owner, PlayerHand, PlayerOwned};
use card_table::systems::{
    card_hover, cards_look_at_camera, drag_cards, run_frame, single_camera, HOVER_HEIGHT,
};

fn v(x: i64, y: i64, z: i64) -> Vec3 {
    Vec3::new(x, y, z)
}

fn ray(origin: Vec3, direction: Vec3) -> Ray {
    Ray { origin, direction }
}

fn player_card(x: i64, y: i64, z: i64) -> Card {
    Card {
        translation: v(x, y, z),
        heading: Heading { x: 0, z: 1 },
        owner: Owner::Player(PlayerOwned),
        pickable: true,
        hovered: false,
        selected: false,
    }
}

fn enemy_card(x: i64, z: i64) -> Card {
    Card {
        translation: v(x, 0, z),
        heading: Heading { x: 0, z: -1 },
        owner: Owner::Enemy(EnemyOwned),
        pickable: false,
        hovered: false,
        selected: false,
    }
}

#[test]
fn straight_down_ray_meets_drag_plane() {
    let r = ray(v(0, 10000, 0), v(0, -1000, 0));
    assert_eq!(intersect_plane(&r, 2000), Some(8000));
    assert_eq!(intersect_point(&r, 2000), Some(v(0, 2000, 0)));
}

#[test]
fn parallel_ray_misses_plane() {
    let r = ray(v(0, 10000, 0), v(1000, 0, 0));
    assert_eq!(intersect_plane(&r, 2000), None);
    assert_eq!(intersect_point(&r, 2000), None);
}

#[test]
fn plane_behind_origin_is_missed() {
    let r = ray(v(0, 10000, 0), v(0, 1000, 0));
    assert_eq!(intersect_plane(&r, 2000), None);
    assert_eq!(intersect_point(&r, 2000), None);
}

#[test]
fn origin_on_plane_is_distance_zero() {
    let r = ray(v(300, 2000, -700), v(0, -1000, 0));
    assert_eq!(intersect_plane(&r, 2000), Some(0));
    assert_eq!(intersect_point(&r, 2000), Some(v(300, 2000, -700)));
}

#[test]
fn slanted_ray_point_is_rounded_down() {
    // Falls 3 units per 1 unit sideways: from height 5 to height 2 is 3 units down.
    let r = ray(v(0, 5000, 0), v(333, -1000, -333));
    assert_eq!(intersect_plane(&r, 2000), Some(3000));
    assert_eq!(intersect_point(&r, 2000), Some(v(999, 2000, -999)));
    // 7 / 2 = 3.5 and -7 / 2 = -3.5, rounded down to 3 and -4.
    let r = ray(v(0, 7, 0), v(1, -2, -1));
    assert_eq!(intersect_point(&r, 0), Some(v(3, 0, -4)));
    assert_eq!(intersect_plane(&r, 0), Some(3500));
}

#[test]
fn drag_point_needs_cursor_and_hit() {
    assert_eq!(drag_point(None), None);
    let r = ray(v(1000, 4000, -500), v(0, -1000, 1000));
    assert_eq!(drag_point(Some(r)), Some(v(1000, DRAG_PLANE_HEIGHT, 1500)));
    let flat = ray(v(0, 4000, 0), v(0, 0, 1000));
    assert_eq!(drag_point(Some(flat)), None);
}

#[test]
fn board_point_is_on_board_plane() {
    let r = ray(v(0, 12000, 8000), v(0, -600, -800));
    assert_eq!(board_point(&r), Some(v(0, 0, -8000)));
}

#[test]
fn hover_lifts_hovered_and_rests_others() {
    let mut a = player_card(0, 0, 4500);
    a.hovered = true;
    let b = player_card(1000, 2000, 4500);
    let mut e = enemy_card(0, -4500);
    e.hovered = true;
    let mut cards = vec![a, b, e];
    card_hover(&mut cards);
    assert_eq!(cards[0].translation, v(0, HOVER_HEIGHT, 4500));
    assert_eq!(cards[1].translation, v(1000, 0, 4500));
    assert_eq!(cards[2].translation, v(0, 2000, -4500));
}

#[test]
fn cards_face_camera_about_vertical_axis() {
    let mut cards = vec![player_card(-2000, 0, 4500), player_card(0, 2000, 8000), enemy_card(1000, -4500)];
    let camera = camera_position();
    cards_look_at_camera(&mut cards, camera);
    assert_eq!(cards[0].heading, Heading { x: 2000, z: 3500 });
    // Straight under the camera: the heading is kept.
    assert_eq!(cards[1].heading, Heading { x: 0, z: 1 });
    // Enemy cards are not turned.
    assert_eq!(cards[2].heading, Heading { x: 0, z: -1 });
    assert_eq!(cards[0].translation, v(-2000, 0, 4500));
}

#[test]
fn facing_twice_equals_facing_once() {
    let camera = v(500, 12000, 8000);
    let mut once = vec![player_card(-2000, 0, 4500), player_card(2000, 2000, 4500), enemy_card(0, -4500)];
    cards_look_at_camera(&mut once, camera);
    let mut twice = once.clone();
    cards_look_at_camera(&mut twice, camera);
    assert_eq!(once, twice);
}

#[test]
fn selected_card_follows_cursor() {
    let mut a = player_card(0, 0, 4500);
    a.selected = true;
    let b = player_card(1000, 0, 4500);
    let mut cards = vec![a, b];
    drag_cards(&mut cards, Some(v(1000, 2000, 500)), false);
    assert_eq!(cards[0].translation, v(1000, 2000, 500));
    assert!(cards[0].selected);
    assert_eq!(cards[1].translation, v(1000, 0, 4500));
}

#[test]
fn release_clears_every_selection() {
    let mut a = player_card(0, 0, 4500);
    a.selected = true;
    let mut b = player_card(1000, 0, 4500);
    b.selected = true;
    let c = player_card(2000, 0, 4500);
    let mut cards = vec![a, b, c];
    drag_cards(&mut cards, Some(v(-1000, 2000, 0)), true);
    assert!(!cards[0].selected);
    assert!(!cards[1].selected);
    assert!(!cards[2].selected);
    assert_eq!(cards[2].translation, v(2000, 0, 4500));
}

#[test]
fn no_point_leaves_drag_untouched() {
    let mut a = player_card(0, 0, 4500);
    a.selected = true;
    let mut cards = vec![a];
    drag_cards(&mut cards, None, true);
    assert_eq!(cards[0], a);
}

#[test]
fn frame_drag_wins_over_hover() {
    // The cursor's ray hits the drag plane at (1.0, 2.0, 0.5).
    let cursor = ray(v(1000, 4000, 2500), v(0, -1000, -1000));
    let mut dragged = player_card(0, 0, 4500);
    dragged.selected = true;
    let mut hovered = player_card(1000, 0, 4500);
    hovered.hovered = true;
    let resting = player_card(2000, 2000, 4500);
    let mut cards = vec![dragged, hovered, resting];
    run_frame(&mut cards, camera_position(), Some(cursor), false);
    assert_eq!(cards[0].translation, v(1000, 2000, 500));
    assert!(cards[0].selected);
    assert_eq!(cards[1].translation.y, HOVER_HEIGHT);
    assert_eq!(cards[2].translation.y, 0);
    assert_eq!(cards[1].heading, Heading { x: -1000, z: 3500 });
}

#[test]
fn frame_without_cursor_keeps_selection() {
    let mut a = player_card(0, 0, 4500);
    a.selected = true;
    a.hovered = true;
    let mut cards = vec![a];
    run_frame(&mut cards, camera_position(), None, true);
    assert!(cards[0].selected);
    assert_eq!(cards[0].translation, v(0, 2000, 4500));
}

#[test]
fn hands_are_laid_out_in_two_rows() {
    let cards = draw_hand();
    assert_eq!(cards.len(), 2 * HAND_SIZE);
    let xs = [-2000, -1000, 0, 1000, 2000];
    for (i, x) in xs.iter().enumerate() {
        let p = &cards[i];
        assert_eq!(p.translation, v(*x, 0, 4500));
        assert!(p.is_player_owned());
        assert!(p.pickable);
        let e = &cards[HAND_SIZE + i];
        assert_eq!(e.translation, v(*x, 0, -4500));
        assert!(!e.is_player_owned());
        assert!(!e.pickable);
        assert!(!p.selected && !p.hovered && !e.selected && !e.hovered);
    }
    assert_eq!(cards.iter().filter(|c| c.is_player_owned()).count(), 5);
}

#[test]
fn board_is_a_checkerboard() {
    let tiles = board_tiles();
    assert_eq!(tiles.len(), 64);
    assert_eq!(tiles[0].position, v(-4000, 0, -4000));
    assert!(!tiles[0].light);
    assert_eq!(tiles[1].position, v(-4000, 0, -3000));
    assert!(tiles[1].light);
    assert_eq!(tiles[63].position, v(3000, 0, 3000));
    assert!(!tiles[63].light);
    assert!(tiles[8].light);
}

#[test]
fn camera_lookup_needs_exactly_one() {
    assert_eq!(single_camera(&vec![]), None);
    assert_eq!(single_camera(&vec![v(1, 2, 3)]), Some(v(1, 2, 3)));
    assert_eq!(single_camera(&vec![v(1, 2, 3), v(0, 0, 0)]), None);
}

#[test]
fn empty_hand_starts_empty() {
    assert!(PlayerHand::new().cards.is_empty());
}
