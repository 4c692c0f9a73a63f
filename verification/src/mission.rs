//! The command sequencer: validates a command string as a whole, then folds
//! it through the rover state machine, stopping at the first collision.

use vstd::prelude::*;

use crate::domain::Command;
use crate::domain::MissionError;
use crate::domain::Planet;
use crate::domain::Rover;
use crate::domain::command_of_char;
use crate::domain::execute;
use crate::domain::execute_spec;
use crate::domain::is_command_char;
use crate::domain::left_of;
use crate::domain::lemma_next_position_on_grid;
use crate::domain::lemma_prev_of_next;
use crate::domain::opposite_of;
use crate::domain::right_of;
use crate::domain::valid_commands;
use crate::parse::parse_commands;

verus! {

/// The commands named by the characters of `s`, meaningful when
/// `valid_commands(s)` holds.
pub open spec fn commands_of(s: Seq<char>) -> Seq<Command> {
    s.map_values(|c: char| command_of_char(c))
}

/// The mission's course: the commands applied to the rover in order, each
/// from the state the previous one produced, stopping at the first failure.
pub open spec fn run_commands(cmds: Seq<Command>, planet: Planet, rover: Rover) -> Result<
    Rover,
    MissionError,
> decreases cmds.len(),
{
    if cmds.len() == 0 {
        Ok(rover)
    } else {
        match execute_spec(cmds[0], planet, rover) {
            Ok(r2) => run_commands(cmds.drop_first(), planet, r2),
            Err(e) => Err(e),
        }
    }
}

/// Runs a whole command string against the planet, starting from the given
/// rover. The string is validated before anything is executed: one stray
/// character rejects the whole mission with the untouched command string,
/// and no partial movement ever shows. An empty string is a valid mission
/// that returns the rover unchanged.
pub fn execute_commands(commands: &str, planet: Planet, rover: Rover) -> (r: Result<
    Rover,
    MissionError,
>)
    requires
        planet.wf(),
        planet.on_grid(rover.position),
    ensures
        valid_commands(commands@) ==> r == run_commands(commands_of(commands@), planet, rover),
        !valid_commands(commands@) ==> (r matches Err(MissionError::InvalidCommand(t)) && t@
            == commands@),
        commands@.len() == 0 ==> r == Ok::<Rover, MissionError>(rover),
{
    let chars = match parse_commands(commands) {
        Ok(v) => v,
        Err(e) => {
            return Err(e);
        },
    };
    let ghost cmds = commands_of(commands@);
    proof {
        assert(cmds.skip(0) =~= cmds);
    }
    let mut cur = rover;
    let mut i: usize = 0;
    while i < chars.len()
        invariant
            planet.wf(),
            planet.on_grid(cur.position),
            i <= chars@.len(),
            chars@ == commands@,
            valid_commands(commands@),
            cmds == commands_of(commands@),
            run_commands(cmds, planet, rover) == run_commands(cmds.skip(i as int), planet, cur),
        decreases chars@.len() - i,
    {
        let c = chars[i];
        proof {
            assert(is_command_char(commands@[i as int]));
            assert(cmds[i as int] == command_of_char(commands@[i as int]));
            assert(cmds.skip(i as int)[0] == cmds[i as int]);
            assert(cmds.skip(i as int).drop_first() =~= cmds.skip(i as int + 1));
        }
        let cmd = Command::new(c);
        match execute(cmd, &planet, cur) {
            Ok(r2) => {
                cur = r2;
            },
            Err(e) => {
                return Err(e);
            },
        }
        i += 1;
    }
    proof {
        assert(cmds.skip(chars@.len() as int) =~= Seq::<Command>::empty());
    }
    Ok(cur)
}

/// Identity on empty input: a mission with no commands returns the rover
/// unchanged.
pub proof fn lemma_empty_commands_identity(planet: Planet, rover: Rover)
    ensures
        run_commands(Seq::<Command>::empty(), planet, rover) == Ok::<Rover, MissionError>(rover),
{
}

/// Turn cycle closure: four consecutive left turns, or four consecutive
/// right turns, return the rover to its original heading and leave its
/// position unchanged.
pub proof fn lemma_turn_cycle(planet: Planet, rover: Rover)
    ensures
        run_commands(
            seq![Command::TurnLeft, Command::TurnLeft, Command::TurnLeft, Command::TurnLeft],
            planet,
            rover,
        ) == Ok::<Rover, MissionError>(rover),
        run_commands(
            seq![Command::TurnRight, Command::TurnRight, Command::TurnRight, Command::TurnRight],
            planet,
            rover,
        ) == Ok::<Rover, MissionError>(rover),
{
    let lt = Command::TurnLeft;
    let rt = Command::TurnRight;
    assert(seq![lt, lt, lt, lt].drop_first() =~= seq![lt, lt, lt]);
    assert(seq![lt, lt, lt].drop_first() =~= seq![lt, lt]);
    assert(seq![lt, lt].drop_first() =~= seq![lt]);
    assert(seq![lt].drop_first() =~= Seq::<Command>::empty());
    assert(seq![rt, rt, rt, rt].drop_first() =~= seq![rt, rt, rt]);
    assert(seq![rt, rt, rt].drop_first() =~= seq![rt, rt]);
    assert(seq![rt, rt].drop_first() =~= seq![rt]);
    assert(seq![rt].drop_first() =~= Seq::<Command>::empty());
    let r1 = Rover { position: rover.position, direction: left_of(rover.direction) };
    let r2 = Rover { position: rover.position, direction: left_of(r1.direction) };
    let r3 = Rover { position: rover.position, direction: left_of(r2.direction) };
    assert(run_commands(seq![lt, lt, lt, lt], planet, rover) == run_commands(
        seq![lt, lt, lt],
        planet,
        r1,
    ));
    assert(run_commands(seq![lt, lt, lt], planet, r1) == run_commands(seq![lt, lt], planet, r2));
    assert(run_commands(seq![lt, lt], planet, r2) == run_commands(seq![lt], planet, r3));
    let q1 = Rover { position: rover.position, direction: right_of(rover.direction) };
    let q2 = Rover { position: rover.position, direction: right_of(q1.direction) };
    let q3 = Rover { position: rover.position, direction: right_of(q2.direction) };
    assert(run_commands(seq![rt, rt, rt, rt], planet, rover) == run_commands(
        seq![rt, rt, rt],
        planet,
        q1,
    ));
    assert(run_commands(seq![rt, rt, rt], planet, q1) == run_commands(seq![rt, rt], planet, q2));
    assert(run_commands(seq![rt, rt], planet, q2) == run_commands(seq![rt], planet, q3));
    let r4 = Rover { position: rover.position, direction: left_of(r3.direction) };
    let q4 = Rover { position: rover.position, direction: right_of(q3.direction) };
    assert(run_commands(seq![lt], planet, r3) == run_commands(Seq::<Command>::empty(), planet, r4));
    assert(run_commands(seq![rt], planet, q3) == run_commands(Seq::<Command>::empty(), planet, q4));
    assert(r4 == rover);
    assert(q4 == rover);
}

/// Symmetry of forward and backward: with no obstacles on the planet,
/// moving forward and then backward returns the rover to its original
/// position and heading.
pub proof fn lemma_forward_backward(planet: Planet, rover: Rover)
    requires
        planet.wf(),
        planet.on_grid(rover.position),
        planet.obstacles@.len() == 0,
    ensures
        run_commands(seq![Command::MoveForward, Command::MoveBackward], planet, rover)
            == Ok::<Rover, MissionError>(rover),
{
    let f = Command::MoveForward;
    let b = Command::MoveBackward;
    assert(seq![f, b].drop_first() =~= seq![b]);
    assert(seq![b].drop_first() =~= Seq::<Command>::empty());
    lemma_next_position_on_grid(planet, rover.position, rover.direction);
    lemma_prev_of_next(planet, rover.position, rover.direction);
    let np = planet.next_position_spec(rover.position, rover.direction);
    assert(!planet.blocked(np));
    assert(!planet.blocked(rover.position));
    let r1 = Rover { position: np, direction: rover.direction };
    assert(run_commands(seq![f, b], planet, rover) == run_commands(seq![b], planet, r1));
    assert(planet.next_position_spec(np, opposite_of(rover.direction)) == rover.position);
    let r2 = Rover { position: rover.position, direction: rover.direction };
    assert(run_commands(seq![b], planet, r1) == run_commands(Seq::<Command>::empty(), planet, r2));
    assert(r2 == rover);
}

} // verus!
