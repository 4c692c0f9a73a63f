//! Parsers for the mission's textual inputs: planet dimensions (`5x4`),
//! obstacle lists (`2,0 0,3`), rover positions (`0,0`), headings (`N`) and
//! command strings (`LFRB`). Each parser's contract says exactly which texts
//! it accepts and which error it returns for the rest.

use vstd::prelude::*;
use vstd::string::StrSliceExecFns;

use crate::domain::Direction;
use crate::domain::MissionError;
use crate::domain::Planet;
use crate::domain::Position;
use crate::domain::Rover;
use crate::domain::direction_of;
use crate::domain::invalid_coordinates_message;
use crate::domain::invalid_dimensions_message;
use crate::domain::is_command_char;
use crate::domain::valid_commands;
use crate::text::chars_of;
use crate::text::parse_usize;
use crate::text::split_chars;
use crate::text::split_spec;
use crate::text::usize_lit;
use crate::text::views;

verus! {

/// The position written as two comma-separated numbers, `None` for any
/// other shape of text.
pub open spec fn position_of(s: Seq<char>) -> Option<Position> {
    let ps = split_spec(s, ',');
    if ps.len() == 2 {
        match (usize_lit(ps[0]), usize_lit(ps[1])) {
            (Some(x), Some(y)) => Some(Position { x, y }),
            _ => None,
        }
    } else {
        None
    }
}

/// The width and height written as two `x`-separated numbers, `None` for
/// any other shape of text.
pub open spec fn dims_of(s: Seq<char>) -> Option<(usize, usize)> {
    let ps = split_spec(s, 'x');
    if ps.len() == 2 {
        match (usize_lit(ps[0]), usize_lit(ps[1])) {
            (Some(w), Some(h)) => Some((w, h)),
            _ => None,
        }
    } else {
        None
    }
}

/// The positions named by a sequence of text pieces, empty pieces skipped;
/// `None` as soon as one non-empty piece is not a position.
pub open spec fn positions_of(pieces: Seq<Seq<char>>) -> Option<Seq<Position>>
    decreases pieces.len(),
{
    if pieces.len() == 0 {
        Some(Seq::<Position>::empty())
    } else {
        let rest = positions_of(pieces.drop_last());
        if pieces.last().len() == 0 {
            rest
        } else {
            match (rest, position_of(pieces.last())) {
                (Some(r), Some(p)) => Some(r.push(p)),
                _ => None,
            }
        }
    }
}

/// The obstacle list written as space-separated positions; extra spaces are
/// harmless, and an empty text yields no obstacles.
pub open spec fn obstacles_of(s: Seq<char>) -> Option<Seq<Position>> {
    positions_of(split_spec(s, ' '))
}

/// Once a prefix of the pieces has failed, the whole list fails.
proof fn lemma_positions_of_none(pieces: Seq<Seq<char>>, i: int)
    requires
        0 <= i <= pieces.len(),
        positions_of(pieces.take(i)) is None,
    ensures
        positions_of(pieces) is None,
    decreases pieces.len() - i,
{
    if i == pieces.len() {
        assert(pieces.take(i) =~= pieces);
    } else {
        assert(pieces.take(i + 1).drop_last() =~= pieces.take(i));
        assert(pieces.take(i + 1).last() == pieces[i]);
        lemma_positions_of_none(pieces, i + 1);
    }
}

/// Reads a heading: one of the letters `N`, `E`, `S`, `W`.
pub fn parse_direction(direction: &str) -> (r: Result<Direction, MissionError>)
    ensures
        ({
            match direction_of(direction@) {
                Some(d) => r == Ok::<Direction, MissionError>(d),
                None => r matches Err(MissionError::InvalidDirection(t)) && t@ == direction@,
            }
        }),
{
    if direction.unicode_len() == 1 {
        let c = direction.get_char(0);
        if c == 'N' {
            return Ok(Direction::North);
        }
        if c == 'E' {
            return Ok(Direction::East);
        }
        if c == 'S' {
            return Ok(Direction::South);
        }
        if c == 'W' {
            return Ok(Direction::West);
        }
    }
    Err(MissionError::InvalidDirection(direction.to_owned()))
}

fn position_of_chars(v: &Vec<char>) -> (r: Option<Position>)
    ensures
        r == position_of(v@),
{
    let pieces = split_chars(v, ',');
    proof {
        assert(views(pieces@).len() == pieces@.len());
        assert(views(pieces@)[0] == pieces@[0]@);
    }
    if pieces.len() == 2 {
        proof {
            assert(views(pieces@)[1] == pieces@[1]@);
        }
        let x = match parse_usize(&pieces[0]) {
            Some(x) => x,
            None => {
                return None;
            },
        };
        let y = match parse_usize(&pieces[1]) {
            Some(y) => y,
            None => {
                return None;
            },
        };
        Some(Position::new(x, y))
    } else {
        None
    }
}

/// Reads a position: two comma-separated coordinates, as in `3,1`.
pub fn parse_position(position: &str) -> (r: Result<Position, MissionError>)
    ensures
        ({
            match position_of(position@) {
                Some(p) => r == Ok::<Position, MissionError>(p),
                None => r matches Err(MissionError::InvalidCoordinates(t)) && t@ == position@,
            }
        }),
{
    let cs = chars_of(position);
    match position_of_chars(&cs) {
        Some(p) => Ok(p),
        None => Err(MissionError::InvalidCoordinates(position.to_owned())),
    }
}

/// Reads the planet's dimensions: width and height separated by an `x`, as
/// in `5x4`.
pub fn parse_dimensions(dimensions: &str) -> (r: Result<(usize, usize), MissionError>)
    ensures
        ({
            match dims_of(dimensions@) {
                Some(wh) => r == Ok::<(usize, usize), MissionError>(wh),
                None => r matches Err(MissionError::InvalidDimensions(t)) && t@ == dimensions@,
            }
        }),
{
    let cs = chars_of(dimensions);
    let pieces = split_chars(&cs, 'x');
    proof {
        assert(views(pieces@).len() == pieces@.len());
        assert(views(pieces@)[0] == pieces@[0]@);
    }
    if pieces.len() == 2 {
        proof {
            assert(views(pieces@)[1] == pieces@[1]@);
        }
        let w = match parse_usize(&pieces[0]) {
            Some(w) => w,
            None => {
                return Err(MissionError::InvalidDimensions(dimensions.to_owned()));
            },
        };
        let h = match parse_usize(&pieces[1]) {
            Some(h) => h,
            None => {
                return Err(MissionError::InvalidDimensions(dimensions.to_owned()));
            },
        };
        Ok((w, h))
    } else {
        Err(MissionError::InvalidDimensions(dimensions.to_owned()))
    }
}

/// Reads the obstacle list: zero or more positions separated by spaces, as
/// in `2,0 0,3 3,2`.
pub fn parse_obstacles(obstacles: &str) -> (r: Result<Vec<Position>, MissionError>)
    ensures
        ({
            match obstacles_of(obstacles@) {
                Some(ps) => r matches Ok(v) && v@ == ps,
                None => r matches Err(MissionError::InvalidCoordinates(t)) && t@ == obstacles@,
            }
        }),
{
    let cs = chars_of(obstacles);
    let pieces = split_chars(&cs, ' ');
    let ghost pv = views(pieces@);
    let mut acc: Vec<Position> = Vec::new();
    let mut i: usize = 0;
    while i < pieces.len()
        invariant
            i <= pieces@.len(),
            pv == views(pieces@),
            pv == split_spec(obstacles@, ' '),
            positions_of(pv.take(i as int)) == Some(acc@),
        decreases pieces@.len() - i,
    {
        proof {
            assert(pv.take(i as int + 1).drop_last() =~= pv.take(i as int));
            assert(pv.take(i as int + 1).last() == pv[i as int]);
            assert(pv[i as int] == pieces@[i as int]@);
        }
        let piece = &pieces[i];
        if piece.len() > 0 {
            match position_of_chars(piece) {
                Some(p) => {
                    acc.push(p);
                },
                None => {
                    proof {
                        lemma_positions_of_none(pv, i as int + 1);
                    }
                    return Err(MissionError::InvalidCoordinates(obstacles.to_owned()));
                },
            }
        }
        i += 1;
    }
    proof {
        assert(pv.take(pieces@.len() as int) =~= pv);
    }
    Ok(acc)
}

/// Reads the planet: its dimensions and its obstacle list. A rejected input
/// is reported as the corresponding error's diagnostic line.
pub fn parse_planet(dimensions: &str, obstacles: &str) -> (r: Result<Planet, String>)
    ensures
        ({
            match dims_of(dimensions@) {
                None => r matches Err(m) && m@ == invalid_dimensions_message(dimensions@),
                Some((w, h)) => match obstacles_of(obstacles@) {
                    None => r matches Err(m) && m@ == invalid_coordinates_message(obstacles@),
                    Some(ps) => r matches Ok(p) && p.w == w && p.h == h && p.obstacles@ == ps,
                },
            }
        }),
{
    let wh = match parse_dimensions(dimensions) {
        Ok(wh) => wh,
        Err(e) => {
            return Err(e.message());
        },
    };
    let obstacles = match parse_obstacles(obstacles) {
        Ok(o) => o,
        Err(e) => {
            return Err(e.message());
        },
    };
    Ok(Planet::new(wh.0, wh.1, obstacles))
}

/// Relies on multi_try's `MultiTry::and_try` for `Result`: two `Ok` values
/// combine into a pair; otherwise the errors that occurred are collected,
/// left argument's first.
#[verifier::external_body]
fn combine_results(a: Result<Position, MissionError>, b: Result<Direction, MissionError>) -> (r:
    Result<(Position, Direction), Vec<MissionError>>)
    ensures
        ({
            match (a, b) {
                (Ok(av), Ok(bv)) => r == Ok::<(Position, Direction), Vec<MissionError>>((av, bv)),
                (Ok(_), Err(eb)) => r matches Err(v) && v@ == seq![eb],
                (Err(ea), Ok(_)) => r matches Err(v) && v@ == seq![ea],
                (Err(ea), Err(eb)) => r matches Err(v) && v@ == seq![ea, eb],
            }
        }),
{
    multi_try::MultiTry::and_try(a, b)
}

/// Reads a rover start state from a position text and a direction text.
/// When both are rejected, both errors are reported, position's first.
pub fn parse_rover(position: &str, direction: &str) -> (r: Result<Rover, Vec<MissionError>>)
    ensures
        ({
            match (position_of(position@), direction_of(direction@)) {
                (Some(p), Some(d)) => r == Ok::<Rover, Vec<MissionError>>(
                    Rover { position: p, direction: d },
                ),
                (None, Some(_)) => r matches Err(v) && v@.len() == 1 && (
                v@[0] matches MissionError::InvalidCoordinates(t) && t@ == position@),
                (Some(_), None) => r matches Err(v) && v@.len() == 1 && (
                v@[0] matches MissionError::InvalidDirection(t) && t@ == direction@),
                (None, None) => r matches Err(v) && v@.len() == 2 && (
                v@[0] matches MissionError::InvalidCoordinates(t) && t@ == position@) && (
                v@[1] matches MissionError::InvalidDirection(u) && u@ == direction@),
            }
        }),
{
    match combine_results(parse_position(position), parse_direction(direction)) {
        Ok(pd) => Ok(Rover { position: pd.0, direction: pd.1 }),
        Err(v) => Err(v),
    }
}

/// Checks that every character of the command string names a command and
/// hands the characters back; any stray character rejects the whole string
/// before anything is executed.
pub fn parse_commands(commands: &str) -> (r: Result<Vec<char>, MissionError>)
    ensures
        valid_commands(commands@) ==> (r matches Ok(v) && v@ == commands@),
        !valid_commands(commands@) ==> (r matches Err(MissionError::InvalidCommand(t)) && t@
            == commands@),
{
    let n = commands.unicode_len();
    let mut v: Vec<char> = Vec::new();
    let mut i: usize = 0;
    while i < n
        invariant
            i <= n,
            n == commands@.len(),
            v@ == commands@.take(i as int),
            forall|j: int| 0 <= j < i ==> is_command_char(#[trigger] commands@[j]),
        decreases n - i,
    {
        let c = commands.get_char(i);
        if !(c == 'L' || c == 'R' || c == 'F' || c == 'B') {
            proof {
                assert(!is_command_char(commands@[i as int]));
            }
            return Err(MissionError::InvalidCommand(commands.to_owned()));
        }
        v.push(c);
        proof {
            assert(v@ =~= commands@.take(i as int + 1));
        }
        i += 1;
    }
    proof {
        assert(commands@.take(n as int) =~= commands@);
    }
    Ok(v)
}

} // verus!
