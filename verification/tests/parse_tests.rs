use mars_rover::Direction;
use mars_rover::MissionError;
use mars_rover::Planet;
use mars_rover::Position;
use mars_rover::Rover;
use mars_rover::parse_commands;
use mars_rover::parse_dimensions;
use mars_rover::parse_direction;
use mars_rover::parse_obstacles;
use mars_rover::parse_planet;
use mars_rover::parse_position;
use mars_rover::parse_rover;

#[test]
fn parse_planet_with_valid_and_invalid_arguments() {
    assert_eq!(parse_planet("5x4", ""), Ok(Planet::new(5, 4, vec![])));
    assert_eq!(parse_planet("10x4000", ""), Ok(Planet::new(10, 4000, vec![])));
    assert_eq!(parse_planet("5x4x6", ""), Err(String::from("invalid dimensions `5x4x6`")));
    assert_eq!(parse_planet("AAAx4000", ""), Err(String::from("invalid dimensions `AAAx4000`")));
    assert_eq!(parse_planet("10xAAA", ""), Err(String::from("invalid dimensions `10xAAA`")));
    assert_eq!(parse_planet("x4000", ""), Err(String::from("invalid dimensions `x4000`")));
    assert_eq!(parse_planet("asdads", ""), Err(String::from("invalid dimensions `asdads`")));
    assert_eq!(parse_planet("10x", ""), Err(String::from("invalid dimensions `10x`")));
    assert_eq!(parse_planet("134", ""), Err(String::from("invalid dimensions `134`")));
}

#[test]
fn parse_planet_with_obstacles() {
    assert_eq!(
        parse_planet("5x4", "2,1 0,2"),
        Ok(Planet::new(5, 4, vec![Position::new(2, 1), Position::new(0, 2)]))
    );
    assert_eq!(
        parse_planet("5x4", "turbofish"),
        Err(String::from("invalid coordinates `turbofish`"))
    );
    assert_eq!(parse_planet("5x4", "2,1,4"), Err(String::from("invalid coordinates `2,1,4`")));
    assert_eq!(parse_planet("5x4", "2 1,4"), Err(String::from("invalid coordinates `2 1,4`")));
}

#[test]
fn parse_rover_with_valid_and_invalid_arguments() {
    assert_eq!(parse_rover("0,0", "N"), Ok(Rover::new(0, 0, "N")));
    assert_eq!(
        parse_rover("AAAA", "N"),
        Err(vec![MissionError::InvalidCoordinates(String::from("AAAA"))])
    );
    assert_eq!(
        parse_rover("1,1", "invalid"),
        Err(vec![MissionError::InvalidDirection(String::from("invalid"))])
    );
    assert_eq!(
        parse_rover("AAA", "invalid"),
        Err(vec![
            MissionError::InvalidCoordinates(String::from("AAA")),
            MissionError::InvalidDirection(String::from("invalid")),
        ])
    );
}

#[test]
fn parse_dimensions_accepts_number_pairs() {
    assert_eq!(parse_dimensions("5x4"), Ok((5, 4)));
    assert_eq!(parse_dimensions("+5x+4"), Ok((5, 4)));
    assert_eq!(parse_dimensions("007x2"), Ok((7, 2)));
    assert_eq!(parse_dimensions("1x1"), Ok((1, 1)));
}

#[test]
fn parse_dimensions_rejects_everything_else() {
    assert_eq!(
        parse_dimensions(""),
        Err(MissionError::InvalidDimensions(String::from("")))
    );
    assert_eq!(
        parse_dimensions("5x-4"),
        Err(MissionError::InvalidDimensions(String::from("5x-4")))
    );
    assert_eq!(
        parse_dimensions("5 x 4"),
        Err(MissionError::InvalidDimensions(String::from("5 x 4")))
    );
    assert_eq!(
        parse_dimensions("99999999999999999999999x4"),
        Err(MissionError::InvalidDimensions(String::from("99999999999999999999999x4")))
    );
}

#[test]
fn parse_position_reads_coordinate_pairs() {
    assert_eq!(parse_position("3,1"), Ok(Position::new(3, 1)));
    assert_eq!(parse_position("0,0"), Ok(Position::new(0, 0)));
    assert_eq!(
        parse_position("3,1,2"),
        Err(MissionError::InvalidCoordinates(String::from("3,1,2")))
    );
    assert_eq!(parse_position("3"), Err(MissionError::InvalidCoordinates(String::from("3"))));
    assert_eq!(parse_position(""), Err(MissionError::InvalidCoordinates(String::from(""))));
}

#[test]
fn parse_obstacles_skips_extra_spaces() {
    assert_eq!(parse_obstacles(""), Ok(vec![]));
    assert_eq!(parse_obstacles("   "), Ok(vec![]));
    assert_eq!(
        parse_obstacles("2,0  0,3"),
        Ok(vec![Position::new(2, 0), Position::new(0, 3)])
    );
    assert_eq!(
        parse_obstacles(" 2,0"),
        Ok(vec![Position::new(2, 0)])
    );
}

#[test]
fn parse_obstacles_reports_the_whole_input() {
    assert_eq!(
        parse_obstacles("2,0 nope 0,3"),
        Err(MissionError::InvalidCoordinates(String::from("2,0 nope 0,3")))
    );
}

#[test]
fn parse_direction_reads_each_letter() {
    assert_eq!(parse_direction("N"), Ok(Direction::North));
    assert_eq!(parse_direction("E"), Ok(Direction::East));
    assert_eq!(parse_direction("S"), Ok(Direction::South));
    assert_eq!(parse_direction("W"), Ok(Direction::West));
    assert_eq!(
        parse_direction("NE"),
        Err(MissionError::InvalidDirection(String::from("NE")))
    );
    assert_eq!(
        parse_direction("n"),
        Err(MissionError::InvalidDirection(String::from("n")))
    );
}

#[test]
fn parse_commands_hands_back_the_characters() {
    assert_eq!(parse_commands("LFRB"), Ok(vec!['L', 'F', 'R', 'B']));
    assert_eq!(parse_commands(""), Ok(vec![]));
    assert_eq!(
        parse_commands("LFrB"),
        Err(MissionError::InvalidCommand(String::from("LFrB")))
    );
}

#[test]
fn messages_name_the_offending_input() {
    assert_eq!(
        MissionError::InvalidDimensions(String::from("5x4x6")).message(),
        "invalid dimensions `5x4x6`"
    );
    assert_eq!(
        MissionError::InvalidCoordinates(String::from("turbofish")).message(),
        "invalid coordinates `turbofish`"
    );
    assert_eq!(
        MissionError::InvalidDirection(String::from("Q")).message(),
        "invalid direction `Q`"
    );
    assert_eq!(
        MissionError::InvalidCommand(String::from("RBXRF")).message(),
        "invalid command `RBXRF`"
    );
    assert_eq!(MissionError::HitObstacle(Position::new(1, 0)).message(), "rover hit obstacle");
    assert_eq!(
        MissionError::FileError(String::from("Unable to open file planet.txt")).message(),
        "Unable to open file planet.txt"
    );
}
