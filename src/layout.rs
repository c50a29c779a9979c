//! Where things are placed when a session starts: the board, the camera and the two hands.
use vstd::prelude::*;
use crate::geometry::{Vec3, UNIT};
use crate::resources::{Card, EnemyOwned, Heading, Owner, PlayerOwned};

verus! {

/// Cards in each hand.
pub const HAND_SIZE: usize = 5;

/// Distance of each hand's row from the board's centre line.
pub const HAND_ROW_Z: i64 = 4500;

/// Tiles along each side of the board.
pub const BOARD_SIDE: usize = 8;

/// One tile of the board, dark or light in a checkerboard pattern.
#[derive(Clone, Copy, Debug, PartialEq, Eq, Structural)]
pub struct Tile {
    pub position: Vec3,
    pub light: bool,
}

/// The card that stands at `index` of a hand's row: centred on the board's middle
/// column, one unit apart, facing straight ahead.
pub open spec fn hand_card(index: int, player: bool) -> Card {
    Card {
        translation: Vec3 {
            x: ((index - 2) * UNIT) as i64,
            y: 0,
            z: if player { HAND_ROW_Z } else { (-HAND_ROW_Z) as i64 },
        },
        heading: Heading { x: 0, z: if player { 1 } else { -1i64 } },
        owner: if player { Owner::Player(PlayerOwned) } else { Owner::Enemy(EnemyOwned) },
        pickable: player,
        hovered: false,
        selected: false,
    }
}

/// Spawns both hands: the player's five cards first, then the opponent's five. Only
/// the player's cards can be picked.
pub fn draw_hand() -> (r: Vec<Card>)
    ensures
        r@.len() == 2 * HAND_SIZE,
        forall|i: int| 0 <= i < HAND_SIZE ==> #[trigger] r@[i] == hand_card(i, true),
        forall|i: int|
            HAND_SIZE <= i < 2 * HAND_SIZE ==> #[trigger] r@[i] == hand_card(i - HAND_SIZE, false),
{
    let mut cards: Vec<Card> = Vec::new();
    let mut side: usize = 0;
    while side < 2
        invariant
            side <= 2,
            cards@.len() == side * HAND_SIZE,
            forall|i: int| 0 <= i < HAND_SIZE && i < cards@.len() ==> #[trigger] cards@[i] == hand_card(i, true),
            forall|i: int|
                HAND_SIZE <= i < cards@.len() ==> #[trigger] cards@[i] == hand_card(i - HAND_SIZE, false),
        decreases 2 - side,
    {
        let player = side == 0;
        let mut k: usize = 0;
        while k < HAND_SIZE
            invariant
                side < 2,
                player == (side == 0),
                k <= HAND_SIZE,
                cards@.len() == side * HAND_SIZE + k,
                forall|i: int| 0 <= i < HAND_SIZE && i < cards@.len() ==> #[trigger] cards@[i] == hand_card(i, true),
                forall|i: int|
                    HAND_SIZE <= i < cards@.len() ==> #[trigger] cards@[i] == hand_card(i - HAND_SIZE, false),
            decreases HAND_SIZE - k,
        {
            let x: i64 = (k as i64 - 2) * UNIT;
            let card = Card {
                translation: Vec3 { x, y: 0, z: if player { HAND_ROW_Z } else { -HAND_ROW_Z } },
                heading: Heading { x: 0, z: if player { 1 } else { -1 } },
                owner: if player { Owner::Player(PlayerOwned) } else { Owner::Enemy(EnemyOwned) },
                pickable: player,
                hovered: false,
                selected: false,
            };
            cards.push(card);
            k += 1;
        }
        side += 1;
    }
    cards
}

/// The tile in row `row`, column `col`: centred on whole-unit points around the
/// board's middle, light where `row + col` is odd.
pub open spec fn board_tile(row: int, col: int) -> Tile {
    Tile {
        position: Vec3 { x: ((row - 4) * UNIT) as i64, y: 0, z: ((col - 4) * UNIT) as i64 },
        light: (row + col) % 2 == 1,
    }
}

/// The board's tiles, row by row.
pub fn board_tiles() -> (r: Vec<Tile>)
    ensures
        r@.len() == BOARD_SIDE * BOARD_SIDE,
        forall|row: int, col: int|
            0 <= row < BOARD_SIDE && 0 <= col < BOARD_SIDE ==> #[trigger] r@[row * 8 + col]
                == board_tile(row, col),
{
    let mut tiles: Vec<Tile> = Vec::new();
    let mut row: usize = 0;
    while row < BOARD_SIDE
        invariant
            row <= BOARD_SIDE,
            tiles@.len() == row * 8,
            forall|i: int| 0 <= i < tiles@.len() ==> #[trigger] tiles@[i] == board_tile(i / 8, i % 8),
        decreases BOARD_SIDE - row,
    {
        let mut col: usize = 0;
        while col < BOARD_SIDE
            invariant
                row < BOARD_SIDE,
                col <= BOARD_SIDE,
                tiles@.len() == row * 8 + col,
                forall|i: int| 0 <= i < tiles@.len() ==> #[trigger] tiles@[i] == board_tile(i / 8, i % 8),
            decreases BOARD_SIDE - col,
        {
            let tile = Tile {
                position: Vec3 { x: (row as i64 - 4) * UNIT, y: 0, z: (col as i64 - 4) * UNIT },
                light: (row + col) % 2 == 1,
            };
            proof {
                let i = row * 8 + col;
                assert(i / 8 == row && i % 8 == col) by (nonlinear_arith)
                    requires
                        i == row * 8 + col,
                        col < 8,
                ;
            }
            tiles.push(tile);
            col += 1;
        }
        row += 1;
    }
    proof {
        assert forall|row: int, col: int|
            0 <= row < BOARD_SIDE && 0 <= col < BOARD_SIDE implies #[trigger] tiles@[row * 8 + col]
                == board_tile(row, col) by {
            let i = row * 8 + col;
            assert(i / 8 == row && i % 8 == col) by (nonlinear_arith)
                requires
                    i == row * 8 + col,
                    0 <= col < 8,
            ;
            assert(0 <= i < 64) by (nonlinear_arith)
                requires
                    i == row * 8 + col,
                    0 <= col < 8,
                    0 <= row < 8,
            ;
        }
    }
    tiles
}

/// Where the camera starts: above the player's side of the board, looking at its centre.
pub fn camera_position() -> (r: Vec3)
    ensures
        r == (Vec3 { x: 0, y: 12000, z: 8000 }),
{
    Vec3 { x: 0, y: 12 * UNIT, z: 8 * UNIT }
}

} // verus!
