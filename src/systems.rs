//! The per-frame card systems: hover lift, camera facing and dragging.
use vstd::prelude::*;
use crate::geometry::{Ray, Vec3, drag_point, COORD_LIMIT, DRAG_PLANE_HEIGHT};
use crate::resources::{Card, Heading};

verus! {

/// Height to which a hovered card is lifted; the same as the drag plane's.
pub const HOVER_HEIGHT: i64 = 2000;

/// All cards lie within the world's bounds.
pub open spec fn all_well_formed(cards: Seq<Card>) -> bool {
    forall|i: int| 0 <= i < cards.len() ==> #[trigger] cards[i].well_formed()
}

pub open spec fn lift(hovered: bool) -> i64 {
    if hovered { HOVER_HEIGHT } else { 0 }
}

/// The card after hover elevation: lifted when hovered, resting otherwise.
pub open spec fn hovered_card(c: Card) -> Card {
    Card {
        translation: Vec3 { x: c.translation.x, y: lift(c.hovered), z: c.translation.z },
        ..c
    }
}

/// The card's face turned toward `camera` about the vertical axis. A player's card
/// standing right under or above the camera keeps its heading, as does every enemy card.
pub open spec fn faced_card(c: Card, camera: Vec3) -> Card {
    if c.player_owned() && !(camera.x == c.translation.x && camera.z == c.translation.z) {
        Card {
            heading: Heading {
                x: (camera.x - c.translation.x) as i64,
                z: (camera.z - c.translation.z) as i64,
            },
            ..c
        }
    } else {
        c
    }
}

/// The card after one drag step. With a point on the drag plane, a selected player's
/// card moves onto it, and a release clears the selection of every player's card.
/// Without a point nothing changes.
pub open spec fn dragged_card(c: Card, point: Option<Vec3>, released: bool) -> Card {
    if c.player_owned() && point.is_some() {
        Card {
            translation: if c.selected { point.unwrap() } else { c.translation },
            selected: c.selected && !released,
            ..c
        }
    } else {
        c
    }
}

pub open spec fn hovered_all(cards: Seq<Card>) -> Seq<Card> {
    cards.map_values(|c: Card| hovered_card(c))
}

pub open spec fn faced_all(cards: Seq<Card>, camera: Vec3) -> Seq<Card> {
    cards.map_values(|c: Card| faced_card(c, camera))
}

pub open spec fn dragged_all(cards: Seq<Card>, point: Option<Vec3>, released: bool) -> Seq<Card> {
    cards.map_values(|c: Card| dragged_card(c, point, released))
}

/// Sets each card's height from its hover flag.
pub fn card_hover(cards: &mut Vec<Card>)
    ensures
        final(cards)@ == hovered_all(old(cards)@),
{
    let n = cards.len();
    let mut i: usize = 0;
    while i < n
        invariant
            n == cards@.len(),
            old(cards)@.len() == n,
            0 <= i <= n,
            forall|j: int| 0 <= j < i ==> cards@[j] == hovered_card(old(cards)@[j]),
            forall|j: int| i <= j < n ==> cards@[j] == old(cards)@[j],
        decreases n - i,
    {
        let mut c = cards[i];
        c.translation.y = if c.hovered { HOVER_HEIGHT } else { 0 };
        cards.set(i, c);
        i += 1;
    }
    assert(cards@ =~= hovered_all(old(cards)@));
}

/// Turns every player's card to face `camera`, about the vertical axis only.
pub fn cards_look_at_camera(cards: &mut Vec<Card>, camera: Vec3)
    requires
        all_well_formed(old(cards)@),
        camera.in_bounds(),
    ensures
        final(cards)@ == faced_all(old(cards)@, camera),
{
    let n = cards.len();
    let mut i: usize = 0;
    while i < n
        invariant
            n == cards@.len(),
            old(cards)@.len() == n,
            0 <= i <= n,
            all_well_formed(old(cards)@),
            camera.in_bounds(),
            forall|j: int| 0 <= j < i ==> cards@[j] == faced_card(old(cards)@[j], camera),
            forall|j: int| i <= j < n ==> cards@[j] == old(cards)@[j],
        decreases n - i,
    {
        let mut c = cards[i];
        assert(c.well_formed());
        if c.is_player_owned() && !(camera.x == c.translation.x && camera.z == c.translation.z) {
            c.heading = Heading { x: camera.x - c.translation.x, z: camera.z - c.translation.z };
        }
        cards.set(i, c);
        i += 1;
    }
    assert(cards@ =~= faced_all(old(cards)@, camera));
}

/// Moves each selected player's card onto `point`, the cursor's place on the drag
/// plane, and clears every player's card's selection when the button was released.
/// Without a point nothing changes.
pub fn drag_cards(cards: &mut Vec<Card>, point: Option<Vec3>, released: bool)
    ensures
        final(cards)@ == dragged_all(old(cards)@, point, released),
        point.is_some() && released ==> forall|i: int|
            0 <= i < final(cards)@.len() && (#[trigger] final(cards)@[i]).player_owned()
                ==> !final(cards)@[i].selected,
{
    let n = cards.len();
    let mut i: usize = 0;
    while i < n
        invariant
            n == cards@.len(),
            old(cards)@.len() == n,
            0 <= i <= n,
            forall|j: int| 0 <= j < i ==> cards@[j] == dragged_card(old(cards)@[j], point, released),
            forall|j: int| i <= j < n ==> cards@[j] == old(cards)@[j],
        decreases n - i,
    {
        if let Some(p) = point {
            let mut c = cards[i];
            if c.is_player_owned() {
                if c.selected {
                    c.translation = p;
                }
                if released {
                    c.selected = false;
                }
                cards.set(i, c);
            }
        }
        i += 1;
    }
    assert(cards@ =~= dragged_all(old(cards)@, point, released));
}

/// The cards after one whole frame: hover elevation, then camera facing, then the drag
/// step, whose move wins over the hover lift.
pub open spec fn frame_all(cards: Seq<Card>, camera: Vec3, cursor_ray: Option<Ray>, released: bool) -> Seq<Card> {
    let point = if cursor_ray.is_some() && crate::geometry::meets_plane(
        cursor_ray.unwrap(),
        DRAG_PLANE_HEIGHT as int,
    ) {
        Some(crate::geometry::plane_point(cursor_ray.unwrap(), DRAG_PLANE_HEIGHT as int))
    } else {
        None
    };
    dragged_all(faced_all(hovered_all(cards), camera), point, released)
}

/// The card is being dragged this frame: it is a selected player's card and the
/// cursor has a point on the drag plane.
pub open spec fn dragged_now(c: Card, cursor_ray: Option<Ray>) -> bool {
    c.player_owned() && c.selected && cursor_ray.is_some() && crate::geometry::meets_plane(
        cursor_ray.unwrap(),
        DRAG_PLANE_HEIGHT as int,
    )
}

/// Runs one frame of the card systems in their required order.
pub fn run_frame(cards: &mut Vec<Card>, camera: Vec3, cursor_ray: Option<Ray>, released: bool)
    requires
        all_well_formed(old(cards)@),
        camera.in_bounds(),
        cursor_ray.is_some() ==> cursor_ray.unwrap().well_formed(),
    ensures
        final(cards)@ == frame_all(old(cards)@, camera, cursor_ray, released),
        all_well_formed(final(cards)@),
        forall|i: int|
            0 <= i < final(cards)@.len() && old(cards)@[i].hovered && !dragged_now(
                old(cards)@[i],
                cursor_ray,
            ) ==> #[trigger] final(cards)@[i].translation.y == HOVER_HEIGHT,
        forall|i: int|
            0 <= i < final(cards)@.len() && !old(cards)@[i].hovered && !dragged_now(
                old(cards)@[i],
                cursor_ray,
            ) ==> #[trigger] final(cards)@[i].translation.y == 0,
{
    card_hover(cards);
    assert(all_well_formed(cards@)) by {
        assert forall|j: int| 0 <= j < cards@.len() implies #[trigger] cards@[j].well_formed() by {
            assert(old(cards)@[j].well_formed());
        }
    }
    cards_look_at_camera(cards, camera);
    let point = drag_point(cursor_ray);
    drag_cards(cards, point, released);
    assert(all_well_formed(cards@)) by {
        assert forall|j: int| 0 <= j < cards@.len() implies #[trigger] cards@[j].well_formed() by {
            assert(old(cards)@[j].well_formed());
        }
    }
}

/// Turning the cards toward an unmoved camera a second time changes nothing: facing
/// the camera is idempotent.
pub proof fn lemma_facing_idempotent(cards: Seq<Card>, camera: Vec3)
    ensures
        faced_all(faced_all(cards, camera), camera) == faced_all(cards, camera),
{
    assert(faced_all(faced_all(cards, camera), camera) =~= faced_all(cards, camera));
}

/// The one camera among `cameras`; `None` when there is none or more than one.
pub fn single_camera(cameras: &Vec<Vec3>) -> (r: Option<Vec3>)
    ensures
        r.is_some() <==> cameras@.len() == 1,
        r.is_some() ==> r.unwrap() == cameras@[0],
{
    if cameras.len() == 1 {
        Some(cameras[0])
    } else {
        None
    }
}

} // verus!
