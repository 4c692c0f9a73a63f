use mars_rover::Command;
use mars_rover::Direction;
use mars_rover::MissionError;
use mars_rover::Planet;
use mars_rover::Position;
use mars_rover::Rover;
use mars_rover::execute;
use mars_rover::execute_commands;

#[test]
fn rotate_right_command() {
    let planet = Planet::without_obstacles(4, 5);
    let rover = Rover::new(0, 0, "N");
    let rover = execute(Command::TurnRight, &planet, rover);

    assert_eq!(rover, Ok(Rover::new(0, 0, "E")));
}

#[test]
fn rotate_left_command() {
    let planet = Planet::without_obstacles(4, 5);
    let rover = Rover::new(0, 0, "N");
    let rover = execute(Command::TurnLeft, &planet, rover);

    assert_eq!(rover, Ok(Rover::new(0, 0, "W")));
}

#[test]
fn move_forward_command() {
    let planet = Planet::without_obstacles(4, 5);
    let rover = Rover::new(0, 0, "N");
    let rover = execute(Command::MoveForward, &planet, rover);

    assert_eq!(rover, Ok(Rover::new(0, 1, "N")));
}

#[test]
fn move_backward_command() {
    let planet = Planet::without_obstacles(4, 5);
    let rover = Rover::new(0, 1, "N");
    let rover = execute(Command::MoveBackward, &planet, rover);

    assert_eq!(rover, Ok(Rover::new(0, 0, "N")));
}

#[test]
fn pacman_effect_north_forward() {
    let planet = Planet::without_obstacles(4, 5);
    let rover = Rover::new(0, 4, "N");
    let rover = execute(Command::MoveForward, &planet, rover);

    assert_eq!(rover, Ok(Rover::new(0, 0, "N")));
}

#[test]
fn pacman_effect_sud_forward() {
    let planet = Planet::without_obstacles(4, 5);
    let rover = Rover::new(0, 0, "S");
    let rover = execute(Command::MoveForward, &planet, rover);

    assert_eq!(rover, Ok(Rover::new(0, 4, "S")));
}

#[test]
fn pacman_effect_east_forward() {
    let planet = Planet::without_obstacles(4, 5);
    let rover = Rover::new(3, 0, "E");
    let rover = execute(Command::MoveForward, &planet, rover);

    assert_eq!(rover, Ok(Rover::new(0, 0, "E")));
}

#[test]
fn pacman_effect_west_forward() {
    let planet = Planet::without_obstacles(4, 5);
    let rover = Rover::new(0, 0, "W");
    let rover = execute(Command::MoveForward, &planet, rover);

    assert_eq!(rover, Ok(Rover::new(3, 0, "W")));
}

#[test]
fn pacman_effect_north_backward() {
    let planet = Planet::without_obstacles(4, 5);
    let rover = Rover::new(0, 4, "S");
    let rover = execute(Command::MoveBackward, &planet, rover);

    assert_eq!(rover, Ok(Rover::new(0, 0, "S")));
}

#[test]
fn pacman_effect_south_backward() {
    let planet = Planet::without_obstacles(4, 5);
    let rover = Rover::new(0, 0, "N");
    let rover = execute(Command::MoveBackward, &planet, rover);

    assert_eq!(rover, Ok(Rover::new(0, 4, "N")));
}

#[test]
fn pacman_effect_east_backward() {
    let planet = Planet::without_obstacles(4, 5);
    let rover = Rover::new(3, 0, "W");
    let rover = execute(Command::MoveBackward, &planet, rover);

    assert_eq!(rover, Ok(Rover::new(0, 0, "W")));
}

#[test]
fn pacman_effect_west_backward() {
    let planet = Planet::without_obstacles(4, 5);
    let rover = Rover::new(0, 0, "E");
    let rover = execute(Command::MoveBackward, &planet, rover);

    assert_eq!(rover, Ok(Rover::new(3, 0, "E")));
}

#[test]
fn go_to_opposite_angle() {
    let planet = Planet::without_obstacles(5, 4);
    let rover = Rover::new(0, 0, "N");
    let rover = execute_commands("LFRB", planet, rover);

    assert_eq!(rover, Ok(Rover::new(4, 3, "N")));
}

#[test]
fn empty_command_string() {
    let planet = Planet::without_obstacles(5, 4);
    let rover = Rover::new(0, 0, "N");
    let rover = execute_commands("", planet, rover);

    assert_eq!(rover, Ok(Rover::new(0, 0, "N")));
}

#[test]
fn invalid_command_string() {
    let planet = Planet::without_obstacles(5, 4);
    let rover = Rover::new(0, 0, "N");
    let rover = execute_commands("RBXRF", planet, rover);

    assert_eq!(rover, Err(MissionError::InvalidCommand("RBXRF".to_string())));
}

#[test]
fn hit_obstacle_during_command_executions() {
    let obstacles = vec![Position::new(2, 0), Position::new(0, 3), Position::new(3, 2)];
    let planet = Planet::new(5, 4, obstacles);
    let rover = Rover::new(0, 0, "N");
    let rover = execute_commands("RFF", planet, rover);

    assert_eq!(rover, Err(MissionError::HitObstacle(Position { x: 1, y: 0 })));
}

#[test]
fn four_left_turns_return_to_start() {
    let planet = Planet::without_obstacles(5, 4);
    let rover = Rover::new(2, 1, "E");
    let rover = execute_commands("LLLL", planet, rover);

    assert_eq!(rover, Ok(Rover::new(2, 1, "E")));
}

#[test]
fn four_right_turns_return_to_start() {
    let planet = Planet::without_obstacles(5, 4);
    let rover = Rover::new(2, 1, "S");
    let rover = execute_commands("RRRR", planet, rover);

    assert_eq!(rover, Ok(Rover::new(2, 1, "S")));
}

#[test]
fn forward_then_backward_returns_to_start() {
    let planet = Planet::without_obstacles(5, 4);
    for d in ["N", "E", "S", "W"] {
        let rover = Rover::new(0, 0, d);
        let rover = execute_commands("FB", planet.clone(), rover);
        assert_eq!(rover, Ok(Rover::new(0, 0, d)));
    }
}

#[test]
fn single_cell_planet_wraps_to_itself() {
    let planet = Planet::without_obstacles(1, 1);
    let rover = Rover::new(0, 0, "N");
    let rover = execute_commands("FFBLFR", planet, rover);

    assert_eq!(rover, Ok(Rover::new(0, 0, "N")));
}

#[test]
fn forward_into_obstacle_reports_safe_position() {
    let planet = Planet::new(5, 4, vec![Position::new(0, 1)]);
    let rover = Rover::new(0, 0, "N");
    let rover = execute(Command::MoveForward, &planet, rover);

    assert_eq!(rover, Err(MissionError::HitObstacle(Position::new(0, 0))));
}

#[test]
fn backward_into_obstacle_keeps_heading_in_error() {
    let planet = Planet::new(5, 4, vec![Position::new(0, 3)]);
    let rover = Rover::new(0, 0, "N");
    let rover = execute(Command::MoveBackward, &planet, rover);

    assert_eq!(rover, Err(MissionError::HitObstacle(Position::new(0, 0))));
}

#[test]
fn invalid_command_runs_nothing_even_before_collision() {
    let planet = Planet::new(5, 4, vec![Position::new(1, 0)]);
    let rover = Rover::new(0, 0, "E");
    let rover = execute_commands("FX", planet, rover);

    assert_eq!(rover, Err(MissionError::InvalidCommand("FX".to_string())));
}

#[test]
fn command_new_maps_each_letter() {
    assert!(matches!(Command::new('F'), Command::MoveForward));
    assert!(matches!(Command::new('B'), Command::MoveBackward));
    assert!(matches!(Command::new('L'), Command::TurnLeft));
    assert!(matches!(Command::new('R'), Command::TurnRight));
}

#[test]
fn turns_alternate_headings() {
    let planet = Planet::without_obstacles(3, 3);
    let rover = Rover::new(1, 1, "N");
    assert_eq!(
        execute(Command::TurnLeft, &planet, rover),
        Ok(Rover::new(1, 1, "W"))
    );
    let rover = Rover::new(1, 1, "W");
    assert_eq!(
        execute(Command::TurnLeft, &planet, rover),
        Ok(Rover::new(1, 1, "S"))
    );
    let rover = Rover::new(1, 1, "S");
    assert_eq!(
        execute(Command::TurnRight, &planet, rover),
        Ok(Rover::new(1, 1, "W"))
    );
    let rover = Rover::new(1, 1, "W");
    assert_eq!(
        execute(Command::TurnRight, &planet, rover),
        Ok(Rover::new(1, 1, "N"))
    );
}

#[test]
fn direction_is_kept_through_moves() {
    let planet = Planet::without_obstacles(10, 10);
    let rover = Rover::new(5, 5, "E");
    let rover = execute_commands("FFBF", planet, rover);

    assert_eq!(rover, Ok(Rover::new(7, 5, "E")));
}
