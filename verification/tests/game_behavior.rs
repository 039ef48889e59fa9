use invaders::DrawCmd;
use invaders::EnemySpaceShip;
use invaders::Game;
use invaders::GameResult;
use invaders::InputKey;

fn cmd(col: u16, row: u16, glyph: char) -> DrawCmd {
    DrawCmd { col, row, glyph }
}

#[test]
fn fire_travel_on_empty_board() {
    // Board 20 x 10, no enemies: the shot misses and the travel
    // animation walks rows 9, 6, 3, each glyph erased after it is drawn.
    let mut g = Game::with_enemies(20, 10, vec![]);
    assert_eq!(g.player.position, 10);
    let (hit, cmds) = g.fire();
    assert_eq!(hit, None);
    assert_eq!(
        cmds,
        vec![
            cmd(10, 9, '|'),
            cmd(10, 9, ' '),
            cmd(10, 6, '|'),
            cmd(10, 6, ' '),
            cmd(10, 3, '|'),
            cmd(10, 3, ' '),
        ]
    );
}

#[test]
fn tick_wraps_left_edge_enemy() {
    // An enemy at (2, 5) has reached the left boundary: it wraps to
    // x == width and drops one or two rows.
    let mut g = Game::with_enemies(20, 10, vec![EnemySpaceShip::new((2, 5))]);
    let cmds = g.tick_enemies();
    let e = g.enemies[0];
    assert_eq!(e.position.0, 20);
    assert!(e.position.1 == 6 || e.position.1 == 7);
    assert_eq!(cmds.len(), 2);
    assert_eq!(cmds[0], cmd(2, 5, ' '));
    assert_eq!(cmds[1], cmd(e.position.0, e.position.1, '*'));
}

#[test]
fn tick_left_drift_stays_on_row() {
    // An enemy away from the boundary drifts one to five columns left
    // and keeps its row.
    let mut g = Game::with_enemies(20, 10, vec![EnemySpaceShip::new((10, 4))]);
    g.tick_enemies();
    let e = g.enemies[0];
    assert!(5 <= e.position.0 && e.position.0 <= 9);
    assert_eq!(e.position.1, 4);
}

#[test]
fn two_right_moves() {
    // Two presses of Right step the player from 10 to 16, each with its
    // own erase/redraw pair, in order.
    let mut g = Game::with_enemies(20, 10, vec![]);
    let out1 = g.frame(Some(InputKey::Right));
    assert!(!out1.quit);
    assert_eq!(g.player.position, 13);
    assert_eq!(out1.cmds, vec![cmd(10, 10, ' '), cmd(13, 10, '^')]);
    let out2 = g.frame(Some(InputKey::Right));
    assert!(!out2.quit);
    assert_eq!(g.player.position, 16);
    assert_eq!(out2.cmds, vec![cmd(13, 10, ' '), cmd(16, 10, '^')]);
}

#[test]
fn move_left_commands() {
    let mut g = Game::with_enemies(20, 10, vec![]);
    let cmds = g.move_left();
    assert_eq!(g.player.position, 7);
    assert_eq!(cmds, vec![cmd(10, 10, ' '), cmd(7, 10, '^')]);
}

#[test]
fn ordering_higher_y_first_then_lower_x() {
    let a = EnemySpaceShip::new((5, 2));
    let b = EnemySpaceShip::new((3, 2));
    let c = EnemySpaceShip::new((9, 3));
    // Same row: the lower x comes first.
    assert_eq!(a.partial_cmp(&b), Some(std::cmp::Ordering::Greater));
    assert_eq!(b.partial_cmp(&a), Some(std::cmp::Ordering::Less));
    // The higher y comes first, whatever the x.
    assert_eq!(c.partial_cmp(&a), Some(std::cmp::Ordering::Less));
    assert_eq!(a.partial_cmp(&c), Some(std::cmp::Ordering::Greater));
    assert_eq!(a.partial_cmp(&a), Some(std::cmp::Ordering::Equal));
}

#[test]
fn sort_orders_higher_y_then_lower_x() {
    let mut g = Game::with_enemies(
        20,
        10,
        vec![
            EnemySpaceShip::new((5, 0)),
            EnemySpaceShip::new((9, 2)),
            EnemySpaceShip::new((1, 2)),
            EnemySpaceShip::new((0, 1)),
            EnemySpaceShip::new((9, 2)),
        ],
    );
    g.sort_enemies();
    let positions: Vec<(u16, u16)> = g.enemies.iter().map(|e| e.position).collect();
    assert_eq!(positions, vec![(1, 2), (9, 2), (9, 2), (0, 1), (5, 0)]);
}

#[test]
fn fire_hits_first_in_order() {
    // Two enemies share the player's column; the first in the processing
    // order (the lower one on the screen) is the one removed.
    let mut g = Game::with_enemies(
        8,
        10,
        vec![EnemySpaceShip::new((4, 1)), EnemySpaceShip::new((4, 2))],
    );
    assert_eq!(g.player.position, 4);
    g.sort_enemies();
    let (hit, cmds) = g.fire();
    assert_eq!(hit, Some((4, 2)));
    assert_eq!(g.enemies.len(), 1);
    assert_eq!(g.enemies[0].position, (4, 1));
    // The erase of the struck enemy comes before the travel animation.
    assert_eq!(cmds[0], cmd(4, 2, ' '));
    assert_eq!(cmds[1], cmd(4, 9, '|'));
}

#[test]
fn fire_misses_other_columns() {
    let mut g = Game::with_enemies(8, 10, vec![EnemySpaceShip::new((3, 1))]);
    let (hit, _cmds) = g.fire();
    assert_eq!(hit, None);
    assert_eq!(g.enemies.len(), 1);
    assert_eq!(g.enemies[0].position, (3, 1));
}

#[test]
fn frame_timeout_ticks_only() {
    // A timed-out poll leaves the player alone; the enemies change only
    // by the unconditional tick.
    let mut g = Game::with_enemies(20, 10, vec![EnemySpaceShip::new((10, 1))]);
    let out = g.frame(None);
    assert!(!out.quit);
    assert_eq!(g.player.position, 10);
    assert_eq!(g.enemies.len(), 1);
    let e = g.enemies[0];
    assert!(5 <= e.position.0 && e.position.0 <= 9);
    assert_eq!(e.position.1, 1);
    assert_eq!(out.cmds.len(), 2);
    assert_eq!(out.cmds[0], cmd(10, 1, ' '));
}

#[test]
fn quit_key_reports_quit() {
    let mut g = Game::with_enemies(20, 10, vec![EnemySpaceShip::new((10, 1))]);
    let out = g.frame(Some(InputKey::Char('q')));
    assert!(out.quit);
    assert!(out.cmds.is_empty());
    assert_eq!(g.player.position, 10);
    assert_eq!(g.enemies.len(), 1);
}

#[test]
fn ignored_keys_tick_only() {
    let mut g = Game::with_enemies(20, 10, vec![]);
    let out1 = g.frame(Some(InputKey::Char('x')));
    assert!(!out1.quit);
    assert_eq!(g.player.position, 10);
    assert!(out1.cmds.is_empty());
    let out2 = g.frame(Some(InputKey::Other));
    assert!(!out2.quit);
    assert_eq!(g.player.position, 10);
    assert!(out2.cmds.is_empty());
}

#[test]
fn frame_fires_on_space() {
    let mut g = Game::with_enemies(8, 10, vec![EnemySpaceShip::new((4, 1))]);
    let out = g.frame(Some(InputKey::Char(' ')));
    assert!(!out.quit);
    // The enemy in the player's column is gone, so nothing is ticked.
    assert_eq!(g.enemies.len(), 0);
    // Erase of the enemy, then the travel animation over rows 9, 6, 3.
    assert_eq!(out.cmds.len(), 7);
    assert_eq!(out.cmds[0], cmd(4, 1, ' '));
    assert_eq!(out.cmds[1], cmd(4, 9, '|'));
    assert_eq!(out.cmds[6], cmd(4, 3, ' '));
}

#[test]
fn new_game_spawns_in_band() {
    let g = Game::new(20, 10);
    assert_eq!(g.board.width, 20);
    assert_eq!(g.board.height, 10);
    assert_eq!(g.player.position, 10);
    assert!(g.enemies.len() < 60);
    for e in g.enemies.iter() {
        assert!(e.position.0 < 20);
        assert!(e.position.1 < 3);
    }
    assert!(matches!(g.game_result(), GameResult::InProgress));
}

#[test]
fn player_new_keeps_position() {
    let p = invaders::Player::new(7);
    assert_eq!(p.position, 7);
    let e = EnemySpaceShip::new((3, 1));
    assert_eq!(e.position, (3, 1));
    let b = invaders::Board::new(20, 10);
    assert_eq!(b.width, 20);
    assert_eq!(b.height, 10);
}
