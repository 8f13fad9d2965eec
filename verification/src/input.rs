use vstd::prelude::*;

use crate::world::{wf, World, WorldModel};

verus! {

/// The commands the game recognises: the four directions and quit. Any other
/// key is ignored by the sampler.
#[derive(Clone, Copy, PartialEq, Eq, Structural, Debug)]
pub enum Command {
    Up,
    Down,
    Left,
    Right,
    Quit,
}

/// The key map: 'w', 's', 'a', 'd' move, 'q' quits, anything else is no
/// command.
pub open spec fn command_of_key_spec(key: char) -> Option<Command> {
    if key == 'w' {
        Some(Command::Up)
    } else if key == 's' {
        Some(Command::Down)
    } else if key == 'a' {
        Some(Command::Left)
    } else if key == 'd' {
        Some(Command::Right)
    } else if key == 'q' {
        Some(Command::Quit)
    } else {
        None
    }
}

/// Translate one pressed character into a command, exactly as the key map
/// says.
pub fn command_of_key(key: char) -> (cmd: Option<Command>)
    ensures
        cmd == command_of_key_spec(key),
{
    match key {
        'w' => Some(Command::Up),
        's' => Some(Command::Down),
        'a' => Some(Command::Left),
        'd' => Some(Command::Right),
        'q' => Some(Command::Quit),
        _ => None,
    }
}

/// What one command does to the world: each move shifts the player one cell,
/// clamped so the player never reaches column 0, column `maxc`, row 0, or a
/// row past the bottom; quit leaves the world untouched (the loop exits
/// instead).
pub open spec fn apply_m(m: WorldModel, cmd: Command) -> WorldModel {
    match cmd {
        Command::Up => if m.player_l > 1 {
            WorldModel { player_l: (m.player_l - 1) as u16, ..m }
        } else {
            m
        },
        Command::Down => if m.player_l + 1 < m.map.len() {
            WorldModel { player_l: (m.player_l + 1) as u16, ..m }
        } else {
            m
        },
        Command::Left => if m.player_c > 1 {
            WorldModel { player_c: (m.player_c - 1) as u16, ..m }
        } else {
            m
        },
        Command::Right => if m.player_c + 1 < m.maxc {
            WorldModel { player_c: (m.player_c + 1) as u16, ..m }
        } else {
            m
        },
        Command::Quit => m,
    }
}

impl World {
    /// Apply one sampled command. Returns the updated world and whether the
    /// command asks the game to quit; a quit request changes nothing else,
    /// whatever the collision state.
    pub fn apply_command(self, cmd: Command) -> (r: (World, bool))
        requires
            wf(self@),
        ensures
            r.0@ == apply_m(self@, cmd),
            wf(r.0@),
            r.1 == (cmd == Command::Quit),
    {
        let mut world = self;
        let mut quit = false;
        match cmd {
            Command::Up => {
                if world.player_l > 1 {
                    world.player_l = world.player_l - 1;
                }
            },
            Command::Down => {
                if (world.player_l as usize) + 1 < world.map.len() {
                    world.player_l = world.player_l + 1;
                }
            },
            Command::Left => {
                if world.player_c > 1 {
                    world.player_c = world.player_c - 1;
                }
            },
            Command::Right => {
                if world.player_c + 1 < world.maxc {
                    world.player_c = world.player_c + 1;
                }
            },
            Command::Quit => {
                quit = true;
            },
        }
        (world, quit)
    }
}

} // verus!
