use river::input::Command;
use river::render::render;
use river::world::World;

fn uniform_world(maxc: u16, rows: u16, edges: (u16, u16), target: (u16, u16)) -> World {
    let mut map = Vec::new();
    for _ in 0..rows {
        map.push(edges);
    }
    World {
        player_c: maxc / 2,
        player_l: rows - 1,
        map,
        maxc,
        deid: false,
        next_start: target.0,
        next_end: target.1,
    }
}

#[test]
fn new_world_centres_player_and_channel() {
    let w = World::new(40, 10);
    assert_eq!(w.player_c, 20);
    assert_eq!(w.player_l, 9);
    assert_eq!(w.maxc, 40);
    assert!(!w.deid);
    assert_eq!(w.map.len(), 10);
    for row in &w.map {
        assert_eq!(*row, (15, 25));
    }
    assert_eq!(w.next_start, 10);
    assert_eq!(w.next_end, 30);
}

#[test]
fn scroll_shifts_every_row_down() {
    let mut w = uniform_world(40, 5, (15, 25), (10, 30));
    w.map = vec![(10, 20), (11, 21), (12, 22), (13, 23), (14, 24)];
    let w = w.scroll();
    assert_eq!(w.map, vec![(10, 20), (10, 20), (11, 21), (12, 22), (13, 23)]);
}

#[test]
fn easing_moves_each_edge_one_step_toward_target() {
    let mut w = uniform_world(40, 5, (12, 28), (10, 30));
    w.map[0] = (12, 28);
    let w = w.ease();
    assert_eq!(w.map[0], (11, 29));
    assert_eq!(w.map[1], (12, 28));
}

#[test]
fn easing_stops_exactly_on_the_target() {
    let w = uniform_world(40, 5, (11, 29), (10, 30));
    let w = w.ease();
    assert_eq!(w.map[0], (10, 30));
    let w = w.ease();
    assert_eq!(w.map[0], (10, 30));
}

#[test]
fn easing_narrows_toward_an_inner_target() {
    let w = uniform_world(40, 5, (10, 30), (14, 26));
    let w = w.ease();
    assert_eq!(w.map[0], (11, 29));
}

#[test]
fn collision_on_left_edge_sets_the_flag() {
    let mut w = uniform_world(40, 5, (15, 25), (15, 25));
    w.player_c = 15;
    let w = w.check_collision();
    assert!(w.deid);
}

#[test]
fn collision_on_right_edge_sets_the_flag() {
    let mut w = uniform_world(40, 5, (15, 25), (15, 25));
    w.player_c = 25;
    let w = w.check_collision();
    assert!(w.deid);
}

#[test]
fn no_collision_strictly_inside_the_channel() {
    let mut w = uniform_world(40, 5, (15, 25), (15, 25));
    w.player_c = 16;
    let w = w.check_collision();
    assert!(!w.deid);
    let mut w = uniform_world(40, 5, (15, 25), (15, 25));
    w.player_c = 24;
    let w = w.check_collision();
    assert!(!w.deid);
}

#[test]
fn regeneration_keeps_a_wide_draw() {
    let w = uniform_world(40, 5, (15, 25), (15, 25));
    let w = w.regenerate(12, 28);
    assert_eq!(w.next_start, 12);
    assert_eq!(w.next_end, 28);
    assert!(w.next_end - w.next_start > 3);
}

#[test]
fn regeneration_widens_a_narrow_draw() {
    let w = uniform_world(40, 5, (15, 25), (15, 25));
    let w = w.regenerate(20, 21);
    assert_eq!(w.next_end, 21);
    assert_eq!(w.next_start, 17);
    assert!(w.next_end - w.next_start > 3);
}

#[test]
fn regeneration_widens_a_crossed_draw() {
    let w = uniform_world(40, 5, (10, 30), (10, 30));
    let w = w.regenerate(30, 20);
    assert_eq!(w.next_end, 20);
    assert_eq!(w.next_start, 16);
    assert!(w.next_end - w.next_start > 3);
}

#[test]
fn regeneration_near_the_left_boundary_stays_in_the_grid() {
    let w = uniform_world(40, 5, (2, 10), (2, 10));
    let w = w.regenerate(0, 7);
    assert_eq!(w.next_start, 0);
    assert_eq!(w.next_end, 7);
    assert!(w.next_end - w.next_start > 3);
}

#[test]
fn steady_tick_leaves_channel_and_player_alone() {
    let w = uniform_world(40, 10, (15, 25), (15, 25));
    assert_eq!(w.player_c, 20);
    let w = w.physics();
    assert!(!w.deid);
    assert_eq!(w.player_c, 20);
    for row in &w.map {
        assert_eq!(*row, (15, 25));
    }
}

#[test]
fn tick_detects_collision_before_the_scroll() {
    let mut w = uniform_world(40, 5, (15, 25), (15, 25));
    w.map[4] = (20, 30);
    w.player_c = 20;
    let w = w.physics();
    assert!(w.deid);
    assert_eq!(w.map[4], (15, 25));
}

#[test]
fn many_random_ticks_keep_the_target_navigable() {
    let mut w = World::new(40, 10);
    for _ in 0..500 {
        w = w.physics();
        assert!(w.next_start + 3 < w.next_end);
        assert!(w.next_end <= w.maxc);
        for row in &w.map {
            assert!(row.0 < row.1);
            assert!(row.1 <= w.maxc);
        }
    }
}

#[test]
fn quit_command_requests_exit_and_changes_nothing() {
    let w = uniform_world(40, 5, (15, 25), (10, 30));
    let (w, quit) = w.apply_command(Command::Quit);
    assert!(quit);
    assert_eq!(w.player_c, 20);
    assert_eq!(w.player_l, 4);
    assert!(!w.deid);
    let mut w = w;
    w.deid = true;
    let (w, quit) = w.apply_command(Command::Quit);
    assert!(quit);
    assert!(w.deid);
}

#[test]
fn movement_commands_shift_and_clamp_the_player() {
    let w = uniform_world(40, 5, (15, 25), (10, 30));
    let (w, quit) = w.apply_command(Command::Left);
    assert!(!quit);
    assert_eq!(w.player_c, 19);
    let (w, _) = w.apply_command(Command::Right);
    let (w, _) = w.apply_command(Command::Right);
    assert_eq!(w.player_c, 21);
    let (w, _) = w.apply_command(Command::Up);
    assert_eq!(w.player_l, 3);
    let (w, _) = w.apply_command(Command::Down);
    assert_eq!(w.player_l, 4);
    let (w, _) = w.apply_command(Command::Down);
    assert_eq!(w.player_l, 4);
    let mut w = w;
    w.player_c = 1;
    let (w, _) = w.apply_command(Command::Left);
    assert_eq!(w.player_c, 1);
    let mut w = w;
    w.player_c = 39;
    let (w, _) = w.apply_command(Command::Right);
    assert_eq!(w.player_c, 39);
    let mut w = w;
    w.player_l = 1;
    let (w, _) = w.apply_command(Command::Up);
    assert_eq!(w.player_l, 1);
}

#[test]
fn keys_map_to_commands() {
    assert_eq!(river::input::command_of_key('w'), Some(Command::Up));
    assert_eq!(river::input::command_of_key('s'), Some(Command::Down));
    assert_eq!(river::input::command_of_key('a'), Some(Command::Left));
    assert_eq!(river::input::command_of_key('d'), Some(Command::Right));
    assert_eq!(river::input::command_of_key('q'), Some(Command::Quit));
    assert_eq!(river::input::command_of_key('x'), None);
    assert_eq!(river::input::command_of_key(' '), None);
}

#[test]
fn render_draws_walls_channel_and_player() {
    let mut w = uniform_world(20, 2, (5, 15), (5, 15));
    w.player_c = 10;
    w.player_l = 1;
    let grid = render(&w);
    let lines: Vec<String> = grid.iter().map(|row| row.iter().collect()).collect();
    assert_eq!(lines.len(), 2);
    assert_eq!(lines[0], "*****          *****");
    assert_eq!(lines[1], "*****     P    *****");
}

#[test]
fn render_twice_gives_identical_grids() {
    let w = World::new(40, 10);
    let first = render(&w);
    let second = render(&w);
    assert_eq!(first, second);
    assert_eq!(w.player_c, 20);
    assert_eq!(w.map[0], (15, 25));
}

#[test]
fn render_covers_the_whole_grid() {
    let w = World::new(41, 7);
    let grid = render(&w);
    assert_eq!(grid.len(), 7);
    for row in &grid {
        assert_eq!(row.len(), 41);
    }
}
