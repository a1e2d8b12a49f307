//! The decisions of a virtual-machine run, apart from the machine itself.
//!
//! The program is run by an execution engine that this library does not
//! hold. What the library decides is how a run goes on after each interrupt
//! of the engine, and what is reported where a run cannot start or ends.

use vstd::prelude::*;

verus! {

/// Number of registers that a run starts with and reports: twelve general
/// ones and the program counter.
pub const REGISTER_COUNT: usize = 13;

/// How a run ended.
#[derive(Debug, Clone, Copy, PartialEq, Eq)]
pub enum ExecutionStatus {
    /// The program finished.
    Success,
    /// The engine could not be made.
    EngineError,
    /// The program does not parse.
    ProgramError,
    /// No module could be made from the program.
    ModuleError,
    /// The module could not be instantiated.
    InstantiationError,
    /// A page could not be written or protected.
    MemoryError,
    /// The program trapped.
    Trap,
    /// The gas ran out.
    OutOfGas,
    /// The program touched a page that is not there.
    Segfault,
    /// The engine failed while running.
    InstanceRunError,
    /// Anything else.
    UnknownError,
}

impl ExecutionStatus {
    /// The number that stands for the status at the foreign surface.
    pub open spec fn spec_code(&self) -> u32 {
        match *self {
            ExecutionStatus::Success => 0,
            ExecutionStatus::EngineError => 1,
            ExecutionStatus::ProgramError => 2,
            ExecutionStatus::ModuleError => 3,
            ExecutionStatus::InstantiationError => 4,
            ExecutionStatus::MemoryError => 5,
            ExecutionStatus::Trap => 6,
            ExecutionStatus::OutOfGas => 7,
            ExecutionStatus::Segfault => 8,
            ExecutionStatus::InstanceRunError => 9,
            ExecutionStatus::UnknownError => 10,
        }
    }

    /// The number that stands for the status at the foreign surface.
    pub fn code(&self) -> (code: u32)
        ensures
            code == self.spec_code(),
    {
        match self {
            ExecutionStatus::Success => 0,
            ExecutionStatus::EngineError => 1,
            ExecutionStatus::ProgramError => 2,
            ExecutionStatus::ModuleError => 3,
            ExecutionStatus::InstantiationError => 4,
            ExecutionStatus::MemoryError => 5,
            ExecutionStatus::Trap => 6,
            ExecutionStatus::OutOfGas => 7,
            ExecutionStatus::Segfault => 8,
            ExecutionStatus::InstanceRunError => 9,
            ExecutionStatus::UnknownError => 10,
        }
    }
}

/// A page of memory: where it starts, what it holds, and whether the
/// program may write to it. Its size is the length of its data.
pub struct MemoryPage {
    /// Address of the page's first byte.
    pub address: u32,
    /// The page's bytes.
    pub data: Vec<u8>,
    /// Whether the program may write to the page.
    pub is_writable: bool,
}

/// What a run reports.
pub struct ExecutionResult {
    /// How the run ended.
    pub status: ExecutionStatus,
    /// The program counter at the end.
    pub final_pc: u32,
    /// The pages that could be read back.
    pub pages: Vec<MemoryPage>,
    /// The registers at the end.
    pub registers: [u64; 13],
    /// The gas that is left.
    pub gas_remaining: i64,
    /// The page address of the fault, where the run ended in one.
    pub segfault_address: u32,
}

/// Why the engine handed control back.
#[derive(Debug, Clone, Copy, PartialEq, Eq)]
pub enum Interrupt {
    /// The program finished.
    Finished,
    /// The program trapped.
    Trap,
    /// The gas ran out.
    NotEnoughGas,
    /// The program touched a missing page at this page address.
    Segfault(u32),
    /// One instruction was executed.
    Step,
    /// The program called out to the host.
    Ecalli,
}

/// What a run keeps between interrupts.
#[derive(Debug, Clone, Copy, PartialEq, Eq)]
pub struct RunState {
    /// The program counter after the last step.
    pub current_pc: u32,
    /// The page address of the last fault.
    pub segfault_address: u32,
}

/// The state of a run before its first interrupt.
pub fn initial_state() -> (state: RunState)
    ensures
        state == (RunState { current_pc: 0, segfault_address: 0 }),
{
    RunState { current_pc: 0, segfault_address: 0 }
}

/// The status that an interrupt ends the run with, if it ends it.
pub open spec fn ending_status(interrupt: Interrupt) -> Option<ExecutionStatus> {
    match interrupt {
        Interrupt::Finished => Some(ExecutionStatus::Success),
        Interrupt::Trap => Some(ExecutionStatus::Trap),
        Interrupt::NotEnoughGas => Some(ExecutionStatus::OutOfGas),
        Interrupt::Segfault(_) => Some(ExecutionStatus::Segfault),
        Interrupt::Step => None,
        Interrupt::Ecalli => None,
    }
}

/// The state of a run after an interrupt: a step takes over the engine's
/// program counter, or zero where the engine has none; a fault records its
/// page address; nothing else changes anything.
pub open spec fn state_after(
    state: RunState,
    interrupt: Interrupt,
    program_counter: Option<u32>,
) -> RunState {
    match interrupt {
        Interrupt::Step => RunState {
            current_pc: match program_counter {
                Some(counter) => counter,
                None => 0,
            },
            segfault_address: state.segfault_address,
        },
        Interrupt::Segfault(address) => RunState {
            current_pc: state.current_pc,
            segfault_address: address,
        },
        _ => state,
    }
}

/// Decides how a run goes on after an interrupt: the state to go on with,
/// and the status where the run is over. A step and a call to the host let
/// the run go on; every other interrupt ends it.
pub fn on_interrupt(state: RunState, interrupt: Interrupt, program_counter: Option<u32>) -> (next: (
    RunState,
    Option<ExecutionStatus>,
))
    ensures
        next.0 == state_after(state, interrupt, program_counter),
        next.1 == ending_status(interrupt),
{
    match interrupt {
        Interrupt::Finished => (state, Some(ExecutionStatus::Success)),
        Interrupt::Trap => (state, Some(ExecutionStatus::Trap)),
        Interrupt::NotEnoughGas => (state, Some(ExecutionStatus::OutOfGas)),
        Interrupt::Segfault(address) => (
            RunState { current_pc: state.current_pc, segfault_address: address },
            Some(ExecutionStatus::Segfault),
        ),
        Interrupt::Step => {
            let current_pc = match program_counter {
                Some(counter) => counter,
                None => 0,
            };
            (RunState { current_pc, segfault_address: state.segfault_address }, None)
        },
        Interrupt::Ecalli => (state, None),
    }
}

/// A gas limit as the signed amount that the engine counts in: the same
/// number where it fits, and the number less 2^64 where it does not.
pub open spec fn signed_gas(gas_limit: u64) -> int {
    if gas_limit <= i64::MAX {
        gas_limit as int
    } else {
        gas_limit - 0x1_0000_0000_0000_0000
    }
}

/// A gas limit as the signed amount that the engine counts in.
pub fn gas_from_limit(gas_limit: u64) -> (gas: i64)
    ensures
        gas == signed_gas(gas_limit),
{
    if gas_limit <= 0x7fff_ffff_ffff_ffff {
        gas_limit as i64
    } else {
        let over: u64 = gas_limit - 0x8000_0000_0000_0000;
        (over as i64) + i64::MIN
    }
}

/// What is reported where a run cannot start, or where the engine fails in
/// the middle of it: the status and the program counter, no pages, all
/// registers zero, the whole gas limit left, and no fault.
pub fn failure_result(status: ExecutionStatus, final_pc: u32, gas_limit: u64) -> (result:
    ExecutionResult)
    ensures
        result.status == status,
        result.final_pc == final_pc,
        result.pages@.len() == 0,
        result.registers@ == Seq::new(REGISTER_COUNT as nat, |i: int| 0u64),
        result.gas_remaining == signed_gas(gas_limit),
        result.segfault_address == 0,
{
    let registers = [0u64; 13];
    assert(registers@ =~= Seq::new(REGISTER_COUNT as nat, |i: int| 0u64));
    ExecutionResult {
        status,
        final_pc,
        pages: Vec::new(),
        registers,
        gas_remaining: gas_from_limit(gas_limit),
        segfault_address: 0,
    }
}

/// What is reported at the end of a run that the engine carried through.
pub fn finished_result(
    status: ExecutionStatus,
    state: RunState,
    final_pc: u32,
    pages: Vec<MemoryPage>,
    registers: [u64; 13],
    gas_remaining: i64,
) -> (result: ExecutionResult)
    ensures
        result.status == status,
        result.final_pc == final_pc,
        result.pages == pages,
        result.registers == registers,
        result.gas_remaining == gas_remaining,
        result.segfault_address == state.segfault_address,
{
    ExecutionResult {
        status,
        final_pc,
        pages,
        registers,
        gas_remaining,
        segfault_address: state.segfault_address,
    }
}

} // verus!
