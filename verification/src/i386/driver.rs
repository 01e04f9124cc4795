//! Running a fragment of code for the one who walks the records of a
//! shape: the fragment runs until it hands control back to the walk.

use super::interp::{spec_code, ExitInfo, Interpreter};
use super::machine::{spec_reg_set, spec_run, ExitView, MachineView};
use super::memory::RuntimeError;
use super::operand::Reg;
use vstd::prelude::*;

verus! {

/// What an outside function answers when a fragment calls it.
pub struct Return {
    pub name: String,
    pub value: u32,
}

/// Why a fragment did not hand control back to the walk.
#[derive(Clone, Copy, Debug, PartialEq, Eq, Structural)]
pub enum DriveError {
    /// The machine stopped with a fault.
    Fault(RuntimeError),
    /// The fragment called a function that is not known.
    UnknownTrampoline,
    /// The fragment ended, or called a second function, where it had to
    /// hand control back; or it handed control back without saying where
    /// the walk is to go on.
    UnexpectedExit,
    /// The fragment did not come to an end within the steps it was given.
    StepLimit,
}

/// How a fragment ended.
#[derive(Clone, Copy, Debug, PartialEq, Eq, Structural)]
pub enum DriveExit {
    /// The machine ran out of instructions: the walk ends.
    OutOfInstructions,
    /// The fragment handed control back: the walk goes on at this address.
    Resume(u32),
}

/// The value of the last of the first `n` entries with the name `name`.
pub open spec fn spec_return(answers: Seq<Return>, name: Seq<char>, n: int) -> Option<u32>
    decreases n,
{
    if n <= 0 {
        None
    } else if answers[n - 1].name@ == name {
        Some(answers[n - 1].value)
    } else {
        spec_return(answers, name, n - 1)
    }
}

/// What the second run of a fragment ends the drive with: it has to hand
/// control back to the walk, with one word.
pub open spec fn spec_second(
    run: Result<(MachineView, Option<ExitView>), RuntimeError>,
    sentinel: Seq<char>,
) -> Result<DriveExit, DriveError> {
    match run {
        Err(e) => Err(DriveError::Fault(e)),
        Ok((_, None)) => Err(DriveError::StepLimit),
        Ok((_, Some(ExitView::OutOfInstructions))) => Err(DriveError::UnexpectedExit),
        Ok((_, Some(ExitView::Trampoline(name, args)))) => if name == sentinel && args.len()
            == 1 {
            Ok(DriveExit::Resume(args[0]))
        } else {
            Err(DriveError::UnexpectedExit)
        },
    }
}

/// How the drive of a fragment from the address `at` ends.
///
/// The fragment runs for at most `max_steps` steps. Where it runs out of
/// instructions, the walk ends. Where it enters the trampoline with the
/// name `sentinel`, the walk goes on at the first word that the
/// trampoline took. Where it enters the trampoline of a function that
/// `answers` knows, the value of the function is written to EAX and the
/// fragment runs on behind the call, again for at most `max_steps` steps,
/// and then has to enter the sentinel with one word.
pub open spec fn spec_drive(
    code: Seq<super::bytecode::ByteCodeView>,
    m: MachineView,
    at: u32,
    sentinel: Seq<char>,
    answers: Seq<Return>,
    max_steps: nat,
) -> Result<DriveExit, DriveError> {
    match spec_run(code, MachineView { eip: at, ..m }, max_steps) {
        Err(e) => Err(DriveError::Fault(e)),
        Ok((_, None)) => Err(DriveError::StepLimit),
        Ok((_, Some(ExitView::OutOfInstructions))) => Ok(DriveExit::OutOfInstructions),
        Ok((after, Some(ExitView::Trampoline(name, args)))) => if name == sentinel {
            if args.len() >= 1 {
                Ok(DriveExit::Resume(args[0]))
            } else {
                Err(DriveError::UnexpectedExit)
            }
        } else {
            match spec_return(answers, name, answers.len() as int) {
                None => Err(DriveError::UnknownTrampoline),
                Some(value) => spec_second(
                    spec_run(
                        code,
                        MachineView {
                            registers: spec_reg_set(after.registers, Reg::EAX, value),
                            ..after
                        },
                        max_steps,
                    ),
                    sentinel,
                ),
            }
        },
    }
}

fn same_text(a: &String, b: &String) -> (r: bool)
    ensures
        r == (a@ == b@),
{
    *a == *b
}

/// What the function `name` answers, as the last entry with that name
/// says.
pub fn return_value(answers: &Vec<Return>, name: &String) -> (r: Option<u32>)
    ensures
        r == spec_return(answers@, name@, answers@.len() as int),
{
    let mut n: usize = answers.len();
    while n > 0
        invariant
            n <= answers@.len(),
            spec_return(answers@, name@, n as int) == spec_return(
                answers@,
                name@,
                answers@.len() as int,
            ),
        decreases n,
    {
        if same_text(&answers[n - 1].name, name) {
            return Some(answers[n - 1].value);
        }
        n -= 1;
    }
    None
}

/// The functions that shapes call, and what each answers: one hardpoint
/// loaded, and an angle of 256 for a hardpoint and for a wing.
pub fn known_returns() -> (r: Vec<Return>)
    ensures
        r@.len() == 3,
        r@[0].name@ == "@HARDNumLoaded@8"@ && r@[0].value == 1,
        r@[1].name@ == "@HardpointAngle@4"@ && r@[1].value == 256,
        r@[2].name@ == "_InsectWingAngle@0"@ && r@[2].value == 256,
{
    let mut v: Vec<Return> = Vec::new();
    v.push(Return { name: "@HARDNumLoaded@8".to_owned(), value: 1 });
    v.push(Return { name: "@HardpointAngle@4".to_owned(), value: 256 });
    v.push(Return { name: "_InsectWingAngle@0".to_owned(), value: 256 });
    v
}

impl Interpreter {
    /// Runs the fragment at the address `at` until it hands control back
    /// to the walk over the records, as `spec_drive` says. After a failure
    /// the state of the machine is not defined.
    pub fn drive(
        &mut self,
        at: u32,
        sentinel: &str,
        answers: &Vec<Return>,
        max_steps: usize,
    ) -> (r: Result<DriveExit, DriveError>)
        requires
            old(self).wf(),
        ensures
            final(self).code == old(self).code,
            r == spec_drive(
                spec_code(old(self).code@),
                old(self)@,
                at,
                sentinel@,
                answers@,
                max_steps as nat,
            ),
    {
        let wanted: String = sentinel.to_owned();
        let first = match self.interpret(at, max_steps) {
            Err(e) => {
                return Err(DriveError::Fault(e));
            },
            Ok(None) => {
                return Err(DriveError::StepLimit);
            },
            Ok(Some(exit)) => exit,
        };
        let (name, args) = match first {
            ExitInfo::OutOfInstructions => {
                return Ok(DriveExit::OutOfInstructions);
            },
            ExitInfo::Trampoline(name, args) => (name, args),
        };
        if same_text(&name, &wanted) {
            if args.len() >= 1 {
                return Ok(DriveExit::Resume(args[0]));
            }
            return Err(DriveError::UnexpectedExit);
        }
        let value: u32 = match return_value(answers, &name) {
            None => {
                return Err(DriveError::UnknownTrampoline);
            },
            Some(value) => value,
        };
        self.set_register_value(Reg::EAX, value);
        let behind: u32 = self.eip();
        let ghost resumed = self@;
        assert(resumed == (MachineView { eip: behind, ..resumed }));
        let second = match self.interpret(behind, max_steps) {
            Err(e) => {
                return Err(DriveError::Fault(e));
            },
            Ok(None) => {
                return Err(DriveError::StepLimit);
            },
            Ok(Some(exit)) => exit,
        };
        match second {
            ExitInfo::OutOfInstructions => Err(DriveError::UnexpectedExit),
            ExitInfo::Trampoline(name, args) => {
                if same_text(&name, &wanted) && args.len() == 1 {
                    Ok(DriveExit::Resume(args[0]))
                } else {
                    Err(DriveError::UnexpectedExit)
                }
            },
        }
    }
}

} // verus!
