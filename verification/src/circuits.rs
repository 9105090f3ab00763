//! Refrigerant circuit monitoring setup: the P499 pressure transducers of up to four
//! circuits, the temperature sources, the input boards they are read from, and the
//! commands that read them. The circuits and the temperature sources are lists in a
//! fixed order, in place of maps keyed by circuit number and by source name.
use vstd::prelude::*;
use crate::alarms::opt_view;
use crate::text::{append_decimal, append_str, decimal, owned, same_text, strings_view};

verus! {

/// Where a pressure transducer is read: on which board, on which input (from 0), and
/// which model it is.
#[derive(Debug, Clone)]
pub struct TransducerConfig {
    pub enabled: bool,
    pub board_id: Option<String>,
    pub input_channel: Option<usize>,
    pub transducer_model: String,
}

/// The contents of a [`TransducerConfig`].
pub struct TransducerView {
    pub enabled: bool,
    pub board_id: Option<Seq<char>>,
    pub input_channel: Option<usize>,
    pub transducer_model: Seq<char>,
}

impl View for TransducerConfig {
    type V = TransducerView;

    open spec fn view(&self) -> TransducerView {
        TransducerView {
            enabled: self.enabled,
            board_id: opt_view(self.board_id),
            input_channel: self.input_channel,
            transducer_model: self.transducer_model@,
        }
    }
}

/// One refrigerant circuit, numbered from 1, with its suction, discharge and (optional)
/// liquid-line transducers.
#[derive(Debug, Clone)]
pub struct CircuitConfig {
    pub circuit_id: usize,
    pub enabled: bool,
    pub suction: TransducerConfig,
    pub discharge: TransducerConfig,
    pub liquid: TransducerConfig,
}

/// The transducer model a new circuit is set up with.
pub const DEFAULT_TRANSDUCER_MODEL: &'static str = "P499VCS-404C";

/// A disabled transducer of the default model on no board, read on `channel`.
pub open spec fn unassigned(channel: Option<usize>) -> TransducerView {
    TransducerView { enabled: false, board_id: None, input_channel: channel, transducer_model: DEFAULT_TRANSDUCER_MODEL@ }
}

fn unassigned_transducer(channel: Option<usize>) -> (t: TransducerConfig)
    ensures
        t@ == unassigned(channel),
{
    TransducerConfig { enabled: false, board_id: None, input_channel: channel, transducer_model: owned(DEFAULT_TRANSDUCER_MODEL) }
}

/// Circuit `n` (from 1) as set up at start: only circuit 1 enabled; its suction
/// transducer on input `2(n-1)`, its discharge transducer on the next input, its liquid
/// transducer on none; all transducers disabled, on no board.
pub open spec fn initial_circuit(c: CircuitConfig, n: int) -> bool {
    &&& c.circuit_id == n
    &&& c.enabled == (n == 1)
    &&& c.suction@ == unassigned(Some((2 * (n - 1)) as usize))
    &&& c.discharge@ == unassigned(Some((2 * (n - 1) + 1) as usize))
    &&& c.liquid@ == unassigned(None)
}

/// The four circuits as set up at start, in order of their numbers.
pub fn init_circuits() -> (v: Vec<CircuitConfig>)
    ensures
        v@.len() == 4,
        forall|i: int| 0 <= i < 4 ==> initial_circuit(#[trigger] v@[i], i + 1),
{
    let mut v: Vec<CircuitConfig> = Vec::new();
    let mut n: usize = 1;
    while n <= 4
        invariant
            1 <= n <= 5,
            v@.len() == n - 1,
            forall|i: int| 0 <= i < v@.len() ==> initial_circuit(#[trigger] v@[i], i + 1),
        decreases 5 - n,
    {
        v.push(CircuitConfig {
            circuit_id: n,
            enabled: n == 1,
            suction: unassigned_transducer(Some((n - 1) * 2)),
            discharge: unassigned_transducer(Some((n - 1) * 2 + 1)),
            liquid: unassigned_transducer(None),
        });
        n = n + 1;
    }
    v
}

/// Where a temperature is read from.
#[derive(Debug, Clone)]
pub struct TempSourceConfig {
    pub source: String,
    pub enabled: bool,
    pub board_id: Option<String>,
    pub input_channel: Option<usize>,
}

/// The temperatures a diagnosis uses.
pub open spec fn temperature_sources() -> Seq<Seq<char>> {
    seq!["suction"@, "discharge"@, "liquid"@, "return_air"@, "supply_air"@]
}

fn unassigned_source(source: &str) -> (t: TempSourceConfig)
    ensures
        t.source@ == source@,
        !t.enabled,
        t.board_id is None,
        t.input_channel is None,
{
    TempSourceConfig { source: owned(source), enabled: false, board_id: None, input_channel: None }
}

/// The temperature sources as set up at start: one per temperature a diagnosis uses,
/// each disabled and on no board.
pub fn init_temp_sources() -> (v: Vec<TempSourceConfig>)
    ensures
        v@.len() == temperature_sources().len(),
        forall|i: int| 0 <= i < v@.len() ==> (#[trigger] v@[i]).source@ == temperature_sources()[i]
            && !v@[i].enabled && v@[i].board_id is None && v@[i].input_channel is None,
{
    let v = vec![
        unassigned_source("suction"),
        unassigned_source("discharge"),
        unassigned_source("liquid"),
        unassigned_source("return_air"),
        unassigned_source("supply_air"),
    ];
    assert(v@.len() == 5);
    v
}

/// An input board a transducer can be read from.
#[derive(Debug, Clone)]
pub struct InputBoard {
    pub board_id: String,
    pub board_type: String,
    pub stack_level: usize,
    pub universal_inputs: usize,
}

fn input_board(board_id: &str, board_type: &str, stack_level: usize, universal_inputs: usize) -> (b: InputBoard)
    ensures
        b.board_id@ == board_id@,
        b.board_type@ == board_type@,
        b.stack_level == stack_level,
        b.universal_inputs == universal_inputs,
{
    InputBoard { board_id: owned(board_id), board_type: owned(board_type), stack_level, universal_inputs }
}

/// The boards transducers can be read from: the MegaBAS (8 inputs) and two stacked
/// 16-input boards.
pub fn pressure_input_boards() -> (v: Vec<InputBoard>)
    ensures
        v@.len() == 3,
        v@[0].board_id@ == "megabas_0"@ && v@[0].board_type@ == "MegaBAS"@ && v@[0].stack_level == 0 && v@[0].universal_inputs == 8,
        v@[1].board_id@ == "16univin_1"@ && v@[1].board_type@ == "16-Universal Input"@ && v@[1].stack_level == 1 && v@[1].universal_inputs == 16,
        v@[2].board_id@ == "16univin_2"@ && v@[2].board_type@ == "16-Universal Input"@ && v@[2].stack_level == 2 && v@[2].universal_inputs == 16,
{
    vec![
        input_board("megabas_0", "MegaBAS", 0, 8),
        input_board("16univin_1", "16-Universal Input", 1, 16),
        input_board("16univin_2", "16-Universal Input", 2, 16),
    ]
}

/// `i` is the first position in `boards` of a board with id `id`.
pub open spec fn first_board(boards: Seq<InputBoard>, id: Seq<char>, i: int) -> bool {
    &&& 0 <= i < boards.len()
    &&& boards[i].board_id@ == id
    &&& forall|j: int| 0 <= j < i ==> boards[j].board_id@ != id
}

/// The first board in `boards` with id `id`, if any.
pub open spec fn board_named(boards: Seq<InputBoard>, id: Seq<char>) -> Option<InputBoard> {
    if exists|i: int| first_board(boards, id, i) {
        Some(boards[choose|i: int| first_board(boards, id, i)])
    } else {
        None
    }
}

/// The number of inputs of the board `board_id` names: that of the first board with
/// that id, or the MegaBAS's 8 when no board is named or none has the id.
pub open spec fn input_count(boards: Seq<InputBoard>, board_id: Option<Seq<char>>) -> int {
    match board_id {
        Some(id) => match board_named(boards, id) {
            Some(b) => b.universal_inputs as int,
            None => 8,
        },
        None => 8,
    }
}

proof fn lemma_first_board(boards: Seq<InputBoard>, id: Seq<char>, i: int)
    requires
        first_board(boards, id, i),
    ensures
        board_named(boards, id) == Some(boards[i]),
{
    let c = choose|c: int| first_board(boards, id, c);
    if c < i {
        assert(boards[c].board_id@ != id);
    } else if i < c {
        assert(boards[i].board_id@ != id);
    }
}

/// The position of the first board in `boards` with id `id`.
fn find_board(boards: &Vec<InputBoard>, id: &str) -> (r: Option<usize>)
    ensures
        r matches Some(i) ==> i < boards@.len() && board_named(boards@, id@) == Some(boards@[i as int]),
        r is None ==> board_named(boards@, id@) is None,
{
    let mut i: usize = 0;
    while i < boards.len()
        invariant
            i <= boards@.len(),
            forall|j: int| 0 <= j < i ==> boards@[j].board_id@ != id@,
        decreases boards@.len() - i,
    {
        if same_text(boards[i].board_id.as_str(), id) {
            proof {
                lemma_first_board(boards@, id@, i as int);
            }
            return Some(i);
        }
        i = i + 1;
    }
    proof {
        if exists|c: int| first_board(boards@, id@, c) {
            let c = choose|c: int| first_board(boards@, id@, c);
            assert(boards@[c].board_id@ != id@);
        }
    }
    None
}

/// The number of inputs of the board `board_id` names.
pub fn board_input_count(boards: &Vec<InputBoard>, board_id: &Option<String>) -> (n: usize)
    ensures
        n == input_count(boards@, opt_view(*board_id)),
{
    match board_id {
        Some(id) => match find_board(boards, id.as_str()) {
            Some(i) => boards[i].universal_inputs,
            None => 8,
        },
        None => 8,
    }
}

/// The highest input a transducer on the board `board_id` names can be read on.
pub fn max_input_channel(boards: &Vec<InputBoard>, board_id: &Option<String>) -> (n: usize)
    ensures
        n == if input_count(boards@, opt_view(*board_id)) == 0 { 0 } else { input_count(boards@, opt_view(*board_id)) - 1 },
{
    board_input_count(boards, board_id).saturating_sub(1)
}

/// The command that reads the voltage of input `channel` (from 0) of a board of type
/// `board_type` at stack level `stack`: `megabas <stack> ain <n>` or
/// `16univin <stack> in <n>` with inputs numbered from 1; empty for any other type.
pub open spec fn read_command(board_type: Seq<char>, stack: nat, channel: nat) -> Seq<char> {
    if board_type == "megabas"@ {
        "megabas "@ + decimal(stack) + " ain "@ + decimal(channel + 1)
    } else if board_type == "16univin"@ {
        "16univin "@ + decimal(stack) + " in "@ + decimal(channel + 1)
    } else {
        Seq::empty()
    }
}

/// The command that reads a transducer's input.
pub fn transducer_read_command(board_type: &str, stack: u32, channel: u32) -> (c: String)
    ensures
        c@ == read_command(board_type@, stack as nat, channel as nat),
{
    let (name, verb) = if same_text(board_type, "megabas") {
        ("megabas ", " ain ")
    } else if same_text(board_type, "16univin") {
        ("16univin ", " in ")
    } else {
        return String::new();
    };
    let mut c = owned(name);
    append_decimal(&mut c, stack as u64);
    append_str(&mut c, verb);
    append_decimal(&mut c, channel as u64 + 1);
    c
}

/// The command tool of a board type: `megabas` for the MegaBAS, `16univin` for a
/// 16-input board, none for any other.
pub open spec fn command_tool(board_type: Seq<char>) -> Seq<char> {
    if board_type == "MegaBAS"@ {
        "megabas"@
    } else if board_type == "16-Universal Input"@ {
        "16univin"@
    } else {
        Seq::empty()
    }
}

/// The command that reads transducer `t`: that of its input on the first board with its
/// board id; empty when it names no board or no input, when no board has the id, or when
/// the board or the input number is beyond what the commands take.
pub open spec fn transducer_command(boards: Seq<InputBoard>, t: TransducerView) -> Seq<char> {
    match (t.board_id, t.input_channel) {
        (Some(id), Some(ch)) => match board_named(boards, id) {
            Some(b) => if b.stack_level <= u32::MAX && ch <= u32::MAX {
                read_command(command_tool(b.board_type@), b.stack_level as nat, ch as nat)
            } else {
                Seq::empty()
            },
            None => Seq::empty(),
        },
        _ => Seq::empty(),
    }
}

/// The command that reads transducer `t` from its board.
pub fn transducer_command_of(boards: &Vec<InputBoard>, t: &TransducerConfig) -> (c: String)
    ensures
        c@ == transducer_command(boards@, t@),
{
    let id = match &t.board_id {
        Some(id) => id,
        None => return String::new(),
    };
    let ch = match t.input_channel {
        Some(ch) => ch,
        None => return String::new(),
    };
    match find_board(boards, id.as_str()) {
        Some(i) => {
            let b = &boards[i];
            if b.stack_level > 4294967295 || ch > 4294967295 {
                return String::new();
            }
            let tool = if same_text(b.board_type.as_str(), "MegaBAS") {
                "megabas"
            } else if same_text(b.board_type.as_str(), "16-Universal Input") {
                "16univin"
            } else {
                ""
            };
            proof {
                reveal_strlit("megabas");
                reveal_strlit("16univin");
                reveal_strlit("");
            }
            assert(tool@ == command_tool(b.board_type@));
            transducer_read_command(tool, b.stack_level as u32, ch as u32)
        },
        None => String::new(),
    }
}

/// The refrigerants a system can be set to.
pub open spec fn refrigerant_names() -> Seq<Seq<char>> {
    seq!["R-410A"@, "R-22"@, "R-134a"@, "R-404A"@, "R-407C"@, "R-32"@,
        "R-290"@, "R-600a"@, "R-717"@, "R-744"@, "R-1234yf"@, "R-1234ze"@]
}

/// The refrigerants a system can be set to.
pub fn refrigerant_choices() -> (v: Vec<String>)
    ensures
        strings_view(v@) == refrigerant_names(),
{
    let v = vec![
        owned("R-410A"), owned("R-22"), owned("R-134a"), owned("R-404A"), owned("R-407C"), owned("R-32"),
        owned("R-290"), owned("R-600a"), owned("R-717"), owned("R-744"), owned("R-1234yf"), owned("R-1234ze"),
    ];
    assert(strings_view(v@) =~= refrigerant_names());
    v
}

/// The P499 transducer models a circuit can use.
pub open spec fn transducer_model_names() -> Seq<Seq<char>> {
    seq!["P499VCS-404C"@, "P499VCS-410A"@, "P499VBS-100K"@, "P499VBS-200K"@,
        "P499VBS-300K"@, "P499VBS-500K"@, "P499VCS-HFC"@, "P499VCS-CFC"@]
}

/// The P499 transducer models a circuit can use.
pub fn transducer_models() -> (v: Vec<String>)
    ensures
        strings_view(v@) == transducer_model_names(),
{
    let v = vec![
        owned("P499VCS-404C"), owned("P499VCS-410A"), owned("P499VBS-100K"), owned("P499VBS-200K"),
        owned("P499VBS-300K"), owned("P499VBS-500K"), owned("P499VCS-HFC"), owned("P499VCS-CFC"),
    ];
    assert(strings_view(v@) =~= transducer_model_names());
    v
}

/// The number of diagnoses the monitor keeps.
pub const DIAGNOSIS_HISTORY_LIMIT: usize = 100;

/// The number of graph points the monitor keeps (two minutes at one every two seconds).
pub const GRAPH_POINT_LIMIT: usize = 60;

} // verus!
