//! A host for the snake game: where the game finds its program, its input and its random
//! numbers in memory, where it leaves its picture, and the loop that feeds it.

use vstd::prelude::*;
use crate::bus::Bus;
use crate::clock::Clock;
use crate::cpu::Cpu;
use crate::instruction::{CpuError, Diagnostic};
use crate::machine::{Machine, Run};
use crate::word::{join, word};

verus! {

/// Where the program is loaded, and where a processor in its reset state starts.
pub const PROGRAM_START: u16 = 0x0200;

/// The longest program that fits between [`PROGRAM_START`] and the end of memory.
pub const PROGRAM_LIMIT: usize = 0xfe00;

/// The cell that the host clears after every instruction.
pub const CLEARED_CELL: u16 = 0x0000;

/// The cell in which the host leaves a fresh random byte after every instruction.
pub const RANDOM_CELL: u16 = 0x0001;

/// The cell that holds the direction in which the snake moves.
pub const DIRECTION_CELL: u16 = 0x00ff;

/// The page that holds the picture: one byte for each tile, row by row.
pub const SCREEN_PAGE: u8 = 0xfd;

/// The page in which the game keeps the snake.
pub const SNAKE_PAGE: u8 = 0xfe;

/// The number of tiles in a row and in a column of the picture.
pub const GRID: u8 = 16;

/// The width and height of a tile, in pixels.
pub const TILE_SIZE: i32 = 32;

/// A direction in which the snake can move.
#[derive(Debug, Clone, Copy, PartialEq, Eq, Structural)]
pub enum Direction {
    Down,
    Left,
    Right,
    Up,
}

impl Direction {
    /// The byte that stands for this direction in the direction cell.
    pub open spec fn spec_code(self) -> u8 {
        match self {
            Direction::Down => 0,
            Direction::Left => 1,
            Direction::Right => 2,
            Direction::Up => 3,
        }
    }

    /// The byte that stands for this direction in the direction cell.
    #[verifier::when_used_as_spec(spec_code)]
    pub fn code(self) -> (code: u8)
        ensures
            code == self.spec_code(),
    {
        match self {
            Direction::Down => 0,
            Direction::Left => 1,
            Direction::Right => 2,
            Direction::Up => 3,
        }
    }

    /// The direction that points the other way.
    pub open spec fn spec_opposite(self) -> Direction {
        match self {
            Direction::Down => Direction::Up,
            Direction::Left => Direction::Right,
            Direction::Right => Direction::Left,
            Direction::Up => Direction::Down,
        }
    }

    /// The direction that points the other way.
    #[verifier::when_used_as_spec(spec_opposite)]
    pub fn opposite(self) -> (opposite: Direction)
        ensures
            opposite == self.spec_opposite(),
            opposite.code() == 3 - self.code(),
    {
        match self {
            Direction::Down => Direction::Up,
            Direction::Left => Direction::Right,
            Direction::Right => Direction::Left,
            Direction::Up => Direction::Down,
        }
    }
}

/// The colour of a tile.
#[derive(Debug, Clone, Copy, PartialEq, Eq, Structural)]
pub enum Shade {
    Black,
    Green,
    Red,
    Blue,
}

/// The colour that the byte `cell` of the picture stands for: its two low bits decide.
pub open spec fn spec_shade(cell: u8) -> Shade {
    if cell % 4 == 0 {
        Shade::Black
    } else if cell % 4 == 1 {
        Shade::Green
    } else if cell % 4 == 2 {
        Shade::Red
    } else {
        Shade::Blue
    }
}

/// The colour that the byte `cell` of the picture stands for: its two low bits decide.
#[verifier::when_used_as_spec(spec_shade)]
pub fn shade(cell: u8) -> (shade: Shade)
    ensures
        shade == spec_shade(cell),
{
    assert(cell & 0x03 == cell % 4) by (bit_vector);
    let v = cell & 0x03;
    if v == 0 {
        Shade::Black
    } else if v == 1 {
        Shade::Green
    } else if v == 2 {
        Shade::Red
    } else {
        Shade::Blue
    }
}

/// The upper left corner of the tile that byte `index` of the screen page paints, in pixels
/// from the upper left corner of the picture: 16 tiles make a row.
pub fn tile(index: u8) -> (corner: (i32, i32))
    ensures
        corner.0 == (index % 16) * TILE_SIZE,
        corner.1 == (index / 16) * TILE_SIZE,
{
    assert(index & 0x0f == index % 16 && index >> 4 == index / 16) by (bit_vector);
    ((index & 0x0f) as i32 * TILE_SIZE, (index >> 4) as i32 * TILE_SIZE)
}

/// `memory` after `bytes` were written to consecutive addresses from `start` on.
pub open spec fn with_bytes(memory: Map<u16, u8>, start: u16, bytes: Seq<u8>) -> Map<u16, u8>
    decreases bytes.len(),
{
    if bytes.len() == 0 {
        memory
    } else {
        with_bytes(memory, start, bytes.drop_last()).insert(
            (start + bytes.len() - 1) as u16,
            bytes.last(),
        )
    }
}

/// Writing bytes to consecutive addresses puts each byte at its address and leaves every
/// other address alone.
pub proof fn lemma_with_bytes(memory: Map<u16, u8>, start: u16, bytes: Seq<u8>, addr: u16)
    requires
        start + bytes.len() <= 0x10000,
    ensures
        with_bytes(memory, start, bytes)[addr] == if start <= addr < start + bytes.len() {
            bytes[addr - start]
        } else {
            memory[addr]
        },
    decreases bytes.len(),
{
    if bytes.len() > 0 {
        lemma_with_bytes(memory, start, bytes.drop_last(), addr);
    }
}

/// Copies `program` into memory from [`PROGRAM_START`] on. A program that does not fit below
/// the end of memory is not loaded at all.
pub fn load_program<B: Bus>(bus: &mut B, program: &[u8]) -> (loaded: bool)
    ensures
        loaded == (program@.len() <= PROGRAM_LIMIT),
        final(bus)@ == if loaded {
            with_bytes(old(bus)@, PROGRAM_START, program@)
        } else {
            old(bus)@
        },
{
    if program.len() > PROGRAM_LIMIT {
        return false;
    }
    let mut i: usize = 0;
    while i < program.len()
        invariant
            i <= program@.len() <= PROGRAM_LIMIT,
            bus@ == with_bytes(old(bus)@, PROGRAM_START, program@.take(i as int)),
        decreases program.len() - i,
    {
        bus.store(PROGRAM_START + i as u16, program[i]);
        i = i + 1;
        proof {
            assert(program@.take(i as int).drop_last() =~= program@.take(i - 1));
        }
    }
    proof {
        assert(program@.take(i as int) =~= program@);
    }
    true
}

/// The 256 bytes of page `number`, in the order of their addresses.
pub fn page<B: Bus>(bus: &B, number: u8) -> (bytes: Vec<u8>)
    ensures
        bytes@.len() == 256,
        forall|i: int| 0 <= i < 256 ==> bytes@[i] == bus@[word(i as u8, number)],
{
    let mut bytes: Vec<u8> = Vec::new();
    let mut i: u16 = 0;
    while i < 256
        invariant
            i <= 256,
            bytes@.len() == i,
            forall|k: int| 0 <= k < i ==> bytes@[k] == bus@[word(k as u8, number)],
        decreases 256 - i,
    {
        bytes.push(bus.load(join(i as u8, number)));
        i = i + 1;
    }
    bytes
}

/// Turns the snake: writes `direction` to the direction cell, unless the snake is moving the
/// opposite way, in which case nothing changes.
pub fn steer<B: Bus>(bus: &mut B, direction: Direction)
    ensures
        final(bus)@ == if old(bus)@[DIRECTION_CELL] == direction.opposite().code() {
            old(bus)@
        } else {
            old(bus)@.insert(DIRECTION_CELL, direction.code())
        },
{
    let previous = bus.load(DIRECTION_CELL);
    if direction.opposite().code() != previous {
        bus.store(DIRECTION_CELL, direction.code());
    }
}

/// `memory` after the host has cleared the cleared cell and left `random` in the random cell.
pub open spec fn refreshed(memory: Map<u16, u8>, random: u8) -> Map<u16, u8> {
    memory.insert(CLEARED_CELL, 0).insert(RANDOM_CELL, random)
}

/// Clears the cleared cell and leaves `random` in the random cell.
pub fn refresh<B: Bus>(bus: &mut B, random: u8)
    ensures
        final(bus)@ == refreshed(old(bus)@, random),
{
    bus.store(CLEARED_CELL, 0);
    bus.store(RANDOM_CELL, random);
}

/// The result of one instruction under the host: the processor steps, and unless that ended
/// the run the host refreshes its cells with the byte `random`.
pub open spec fn advanced(machine: Machine, random: u8) -> Run {
    let step = machine.step();
    if step.outcome == Ok::<bool, CpuError>(false) {
        Run {
            machine: Machine { memory: refreshed(step.machine.memory, random), ..step.machine },
            ..step
        }
    } else {
        step
    }
}

/// The result of a run under the host, which draws its random bytes from `randoms`, first
/// byte first: instructions are carried out until BRK was executed, an error occurred or
/// `budget` instructions were executed.
pub open spec fn played(machine: Machine, budget: nat, randoms: Seq<u8>) -> Run
    decreases budget,
{
    if budget == 0 {
        Run { machine, reports: Seq::empty(), outcome: Ok(false) }
    } else {
        let first = advanced(machine, randoms[0]);
        if first.outcome == Ok::<bool, CpuError>(false) {
            let rest = played(first.machine, (budget - 1) as nat, randoms.skip(1));
            Run { reports: first.reports + rest.reports, ..rest }
        } else {
            first
        }
    }
}

/// A byte from the generator of random numbers that the thread owns, through
/// `rand::random::<u8>()`.
///
/// Nothing is claimed of the byte. The call panics where the operating system gives the
/// generator no seed.
#[verifier::external_body]
fn random_byte() -> (byte: u8) {
    rand::random::<u8>()
}

/// Fills the whole memory with random bytes, from address 0 upwards.
pub fn scramble<B: Bus>(bus: &mut B)
    ensures
        exists|noise: Seq<u8>|
            noise.len() == 0x10000 && final(bus)@ == #[trigger] with_bytes(old(bus)@, 0, noise),
{
    let ghost mut noise: Seq<u8> = Seq::empty();
    let mut count: u32 = 0;
    while count < 0x10000
        invariant
            count <= 0x10000,
            noise.len() == count,
            bus@ == with_bytes(old(bus)@, 0, noise),
        decreases 0x10000 - count,
    {
        let byte = random_byte();
        bus.store(count as u16, byte);
        proof {
            assert(noise.push(byte).drop_last() =~= noise);
            noise = noise.push(byte);
        }
        count = count + 1;
    }
}

/// Whether `cpu`, having returned `halted`, is what `outcome` leaves of a processor whose
/// clock had been told `reported`.
pub open spec fn left_as<B: Bus, C: Clock>(
    cpu: Cpu<B, C>,
    halted: Result<bool, CpuError>,
    reported: Seq<u8>,
    outcome: Run,
) -> bool {
    &&& halted == outcome.outcome
    &&& cpu@ == outcome.machine
    &&& cpu.clock.reports() == reported + outcome.reports
}

/// A run under the host is its first instruction followed by a run of what is left on the
/// random bytes that are left, unless the first instruction ends it.
///
/// `reported` stands for what the clock was told before the run.
pub proof fn lemma_played_unfolds(
    machine: Machine,
    budget: nat,
    randoms: Seq<u8>,
    reported: Seq<u8>,
)
    ensures
        budget == 0 ==> played(machine, budget, randoms) == (Run {
            machine,
            reports: Seq::empty(),
            outcome: Ok(false),
        }),
        budget > 0 && machine.step().outcome != Ok::<bool, CpuError>(false) ==> played(
            machine,
            budget,
            randoms,
        ) == machine.step(),
        budget > 0 && machine.step().outcome == Ok::<bool, CpuError>(false) ==> ({
            let first = advanced(machine, randoms[0]);
            let rest = played(first.machine, (budget - 1) as nat, randoms.skip(1));
            &&& played(machine, budget, randoms).machine == rest.machine
            &&& played(machine, budget, randoms).outcome == rest.outcome
            &&& reported + played(machine, budget, randoms).reports == (reported
                + first.reports) + rest.reports
        }),
        reported + Seq::<u8>::empty() == reported,
{
    let first = advanced(machine, randoms[0]);
    let rest = played(first.machine, (budget - 1) as nat, randoms.skip(1));
    assert((reported + first.reports) + rest.reports =~= reported + (first.reports
        + rest.reports));
    assert(reported + Seq::<u8>::empty() =~= reported);
}

/// What one instruction under the host came to.
#[derive(Debug, Clone, Copy, PartialEq, Eq, Structural)]
pub struct Advance {
    /// Whether the instruction was BRK.
    pub halted: bool,
    /// What the instruction gives the host to warn of.
    pub diagnostic: Option<Diagnostic>,
}

/// What the next instruction of `machine` gives a host to warn of, if it is carried out.
pub open spec fn diagnosis(machine: Machine) -> Option<Diagnostic> {
    match machine.fetch().outcome {
        Ok(instruction) => if instruction.is_legal() {
            instruction.opcode.diagnostic()
        } else {
            None
        },
        Err(_) => None,
    }
}

/// Carries out one instruction under the host, and tells which random byte it drew, if it
/// drew one.
fn advance_drawing<B: Bus, C: Clock>(cpu: &mut Cpu<B, C>) -> (result: (
    Result<Advance, CpuError>,
    Ghost<u8>,
))
    ensures
        left_as(
            *final(cpu),
            match result.0 {
                Ok(advance) => Ok(advance.halted),
                Err(error) => Err(error),
            },
            old(cpu).clock.reports(),
            advanced(old(cpu)@, result.1@),
        ),
        result.0 matches Ok(advance) ==> advance.diagnostic == diagnosis(old(cpu)@),
        old(cpu)@.well_formed() ==> final(cpu)@.well_formed(),
{
    let ghost mut drawn: u8 = 0;
    let instruction = match cpu.fetch() {
        Ok(instruction) => instruction,
        Err(error) => {
            proof {
                assert(cpu.clock.reports() + Seq::<u8>::empty() =~= cpu.clock.reports());
            }
            return (Err(error), Ghost(drawn));
        },
    };
    let halted = match cpu.execute(instruction) {
        Ok(halted) => halted,
        Err(error) => {
            return (Err(error), Ghost(drawn));
        },
    };
    if !halted {
        let random = random_byte();
        refresh(&mut cpu.bus, random);
        proof {
            drawn = random;
        }
    }
    (Ok(Advance { halted, diagnostic: instruction.opcode.diagnostic() }), Ghost(drawn))
}

/// Carries out one instruction under the host: the processor fetches and executes it, and
/// unless that ended the run, the host refreshes its cells with a fresh random byte.
pub fn advance<B: Bus, C: Clock>(cpu: &mut Cpu<B, C>) -> (result: Result<Advance, CpuError>)
    ensures
        exists|random: u8|
            left_as(
                *final(cpu),
                match result {
                    Ok(advance) => Ok(advance.halted),
                    Err(error) => Err(error),
                },
                old(cpu).clock.reports(),
                #[trigger] advanced(old(cpu)@, random),
            ),
        result matches Ok(advance) ==> advance.diagnostic == diagnosis(old(cpu)@),
        old(cpu)@.well_formed() ==> final(cpu)@.well_formed(),
{
    let (result, Ghost(random)) = advance_drawing(cpu);
    proof {
        assert(left_as(
            *cpu,
            match result {
                Ok(advance) => Ok(advance.halted),
                Err(error) => Err(error),
            },
            old(cpu).clock.reports(),
            advanced(old(cpu)@, random),
        ));
    }
    result
}

/// Carries out instructions under the host until a BRK was executed, an error occurred or
/// `budget` instructions were executed. Returns whether the last instruction was BRK.
pub fn run<B: Bus, C: Clock>(cpu: &mut Cpu<B, C>, budget: u64) -> (halted: Result<
    bool,
    CpuError,
>)
    ensures
        exists|randoms: Seq<u8>|
            left_as(
                *final(cpu),
                halted,
                old(cpu).clock.reports(),
                #[trigger] played(old(cpu)@, budget as nat, randoms),
            ),
        old(cpu)@.well_formed() ==> final(cpu)@.well_formed(),
{
    let ghost mut drawn: Seq<u8> = Seq::empty();
    let mut remaining = budget;
    proof {
        assert forall|rest: Seq<u8>| drawn + rest == rest by {
            assert(drawn + rest =~= rest);
        }
    }
    while remaining > 0
        invariant
            forall|rest: Seq<u8>|
                {
                    let whole = played(old(cpu)@, budget as nat, drawn + rest);
                    let tail = #[trigger] played(cpu@, remaining as nat, rest);
                    &&& whole.outcome == tail.outcome
                    &&& whole.machine == tail.machine
                    &&& old(cpu).clock.reports() + whole.reports == cpu.clock.reports()
                        + tail.reports
                },
            old(cpu)@.well_formed() ==> cpu@.well_formed(),
        decreases remaining,
    {
        let ghost before = cpu@;
        let ghost reported = cpu.clock.reports();
        let (result, Ghost(random)) = advance_drawing(cpu);
        let halted = match result {
            Ok(advance) => Ok(advance.halted),
            Err(error) => Err(error),
        };
        match halted {
            Ok(false) => {
                proof {
                    assert forall|rest: Seq<u8>|
                        {
                            let whole = played(
                                old(cpu)@,
                                budget as nat,
                                drawn.push(random) + rest,
                            );
                            let tail = #[trigger] played(cpu@, (remaining - 1) as nat, rest);
                            &&& whole.outcome == tail.outcome
                            &&& whole.machine == tail.machine
                            &&& old(cpu).clock.reports() + whole.reports == cpu.clock.reports()
                                + tail.reports
                        } by {
                        let longer = seq![random] + rest;
                        assert(longer.skip(1) =~= rest);
                        assert(drawn + longer =~= drawn.push(random) + rest);
                        lemma_played_unfolds(before, remaining as nat, longer, reported);
                    }
                    drawn = drawn.push(random);
                }
                remaining = remaining - 1;
            },
            _ => {
                proof {
                    let rest = Seq::<u8>::empty();
                    assert(drawn + rest =~= drawn);
                    lemma_played_unfolds(before, remaining as nat, rest, reported);
                    assert(left_as(
                        *cpu,
                        halted,
                        old(cpu).clock.reports(),
                        played(old(cpu)@, budget as nat, drawn),
                    ));
                }
                return halted;
            },
        }
    }
    proof {
        let rest = Seq::<u8>::empty();
        assert(drawn + rest =~= drawn);
        lemma_played_unfolds(cpu@, 0, rest, cpu.clock.reports());
        assert(left_as(
            *cpu,
            Ok(false),
            old(cpu).clock.reports(),
            played(old(cpu)@, budget as nat, drawn),
        ));
    }
    Ok(false)
}

} // verus!
