//! The application: a command line and a wallet, and the choice of what an
//! instruction sets in motion.

use crate::cli::command_traits::{flags_view, Command, CommandParam};
use crate::cli::{same_text, Cli, Instruction, InstructionView};
use crate::text::{decimal, decimal_text, texts_view};
use crate::crypto::valid_private_key;
use crate::wallet;
use crate::wallet::commands::{
    CreateTx, GetBalance, GetNewAddress, ListUnspent, SendTx, ShowPending, SignTx,
};
use crate::wallet::error::{Error, ErrorView};
use vstd::prelude::*;
use vstd::string::StringExecFns;

verus! {

/// A failed instruction.
#[derive(Debug, Clone, PartialEq, Eq)]
pub enum AppError {
    WalletError(Error),
}

impl AppError {
    /// The line that tells the user of the failure.
    pub open spec fn message_text(&self) -> Seq<char> {
        match self {
            AppError::WalletError(e) => e@.message(),
        }
    }

    /// The line that tells the user of the failure.
    pub fn message(&self) -> (text: String)
        ensures
            text@ == self.message_text(),
    {
        match self {
            AppError::WalletError(e) => e.message(),
        }
    }
}

impl vstd::std_specs::convert::FromSpecImpl<Error> for AppError {
    open spec fn obeys_from_spec() -> bool {
        true
    }

    open spec fn from_spec(err: Error) -> AppError {
        AppError::WalletError(err)
    }
}

impl From<Error> for AppError {
    fn from(err: Error) -> (e: AppError) {
        AppError::WalletError(err)
    }
}

/// What an instruction sets in motion.
#[derive(Clone, Copy, Debug, PartialEq, Eq, Structural)]
pub enum Action {
    /// The command is to be carried out, with the arguments of the
    /// instruction.
    Run(Command),
    /// The application ends.
    Exit,
    /// The instruction names no command: nothing happens.
    Nothing,
}

/// The position of the first of `flags` that is not among `valid`, if there
/// is one.
pub open spec fn first_unknown_flag(flags: Seq<Seq<char>>, valid: Seq<Seq<char>>) -> Option<int>
    decreases flags.len(),
{
    if flags.len() == 0 {
        None
    } else {
        match first_unknown_flag(flags.drop_last(), valid) {
            Some(k) => Some(k),
            None => if valid.contains(flags.last()) {
                None
            } else {
                Some(flags.len() - 1)
            },
        }
    }
}

/// Whether the instruction has the number of arguments that the command `T`
/// takes, and only flags that it knows. Too few arguments are found first,
/// then too many, then the first unknown flag.
pub open spec fn checked<T: CommandParam>(instruction: InstructionView) -> Result<(), ErrorView> {
    if instruction.args.len() < T::MIN_ARG_LENGTH {
        Err(
            ErrorView::NotEnoughArgsError(
                decimal_text(T::MIN_ARG_LENGTH as nat) + " arguments are required"@,
            ),
        )
    } else if T::max_arg_length_spec() is Some && instruction.args.len()
        > T::max_arg_length_spec().unwrap() {
        Err(ErrorView::UnvalidArgsCountError(instruction.command, T::max_arg_length_spec().unwrap()))
    } else {
        match first_unknown_flag(instruction.flags, T::valid_flags_spec()) {
            Some(k) => Err(ErrorView::UnrecognizedFlag(instruction.flags[k])),
            None => Ok(()),
        }
    }
}

/// The command `T`, if the instruction is one that it takes.
pub open spec fn run_checked<T: CommandParam>(instruction: InstructionView) -> Result<
    Action,
    ErrorView,
> {
    match checked::<T>(instruction) {
        Ok(()) => Ok(Action::Run(T::COMMAND)),
        Err(e) => Err(e),
    }
}

/// What an instruction sets in motion, by the name of its command.
pub open spec fn action_of(instruction: InstructionView) -> Result<Action, ErrorView> {
    let name = instruction.command;
    if name == "getnewaddress"@ {
        run_checked::<GetNewAddress>(instruction)
    } else if name == "getbalance"@ {
        run_checked::<GetBalance>(instruction)
    } else if name == "createtx"@ {
        run_checked::<CreateTx>(instruction)
    } else if name == "signtx"@ {
        run_checked::<SignTx>(instruction)
    } else if name == "sendtx"@ {
        run_checked::<SendTx>(instruction)
    } else if name == "showpending"@ {
        run_checked::<ShowPending>(instruction)
    } else if name == "listunspent"@ {
        run_checked::<ListUnspent>(instruction)
    } else if name == "exit"@ {
        Ok(Action::Exit)
    } else {
        Ok(Action::Nothing)
    }
}

/// Once a flag is unknown, more flags do not help.
pub proof fn lemma_unknown_flag_stays(flags: Seq<Seq<char>>, valid: Seq<Seq<char>>, n: int, m: int)
    requires
        0 <= n <= m <= flags.len(),
        first_unknown_flag(flags.subrange(0, n), valid) is Some,
    ensures
        first_unknown_flag(flags.subrange(0, m), valid) == first_unknown_flag(
            flags.subrange(0, n),
            valid,
        ),
    decreases m - n,
{
    if n < m {
        lemma_unknown_flag_stays(flags, valid, n, m - 1);
        assert(flags.subrange(0, m).drop_last() =~= flags.subrange(0, m - 1));
    }
}

/// Whether `flag` is one of `valid`.
pub fn is_valid_flag(flag: &str, valid: &Vec<&'static str>) -> (found: bool)
    ensures
        found == flags_view(valid@).contains(flag@),
{
    let mut i: usize = 0;
    while i < valid.len()
        invariant
            i <= valid@.len(),
            forall|k: int| 0 <= k < i ==> flags_view(valid@)[k] != flag@,
        decreases valid@.len() - i,
    {
        if same_text(valid[i], flag) {
            assert(flags_view(valid@)[i as int] == flag@);
            return true;
        }
        i += 1;
    }
    false
}

/// The answer of a check, as a mathematical value.
pub open spec fn check_view(r: Result<(), Error>) -> Result<(), ErrorView> {
    match r {
        Ok(()) => Ok(()),
        Err(e) => Err(e@),
    }
}

/// The answer of the choice of an action, as a mathematical value.
pub open spec fn choice_view(r: Result<Action, AppError>) -> Result<Action, ErrorView> {
    match r {
        Ok(action) => Ok(action),
        Err(AppError::WalletError(e)) => Err(e@),
    }
}

/// Whether `instruction` has the number of arguments that the command `T`
/// takes, and only flags that it knows.
pub fn check_instruction<T: CommandParam>(instruction: &Instruction) -> (r: Result<(), Error>)
    ensures
        check_view(r) == checked::<T>(instruction@),
{
    let args_len = instruction.get_arguments().len();
    if args_len < T::MIN_ARG_LENGTH {
        let mut text = decimal(T::MIN_ARG_LENGTH);
        text.append(" arguments are required");
        return Err(Error::NotEnoughArgsError(text));
    }
    match T::max_arg_length() {
        Some(max) => {
            if args_len > max {
                let command = String::from_str(instruction.get_command());
                return Err(Error::UnvalidArgsCountError(command, max));
            }
        },
        None => {},
    }
    let flags = instruction.get_flags();
    let valid = T::valid_flags();
    let ghost all = instruction@.flags;
    let mut i: usize = 0;
    while i < flags.len()
        invariant
            i <= flags@.len(),
            all == texts_view(flags@),
            all == instruction@.flags,
            instruction@.args.len() >= T::MIN_ARG_LENGTH,
            T::max_arg_length_spec() is Some ==> instruction@.args.len()
                <= T::max_arg_length_spec().unwrap(),
            flags_view(valid@) == T::valid_flags_spec(),
            first_unknown_flag(all.subrange(0, i as int), T::valid_flags_spec()) is None,
        decreases flags@.len() - i,
    {
        assert(all.subrange(0, i + 1).drop_last() =~= all.subrange(0, i as int));
        if !is_valid_flag(flags[i].as_str(), &valid) {
            proof {
                lemma_unknown_flag_stays(all, T::valid_flags_spec(), i + 1, all.len() as int);
                assert(all.subrange(0, all.len() as int) =~= all);
            }
            return Err(Error::UnrecognizedFlag(flags[i].clone()));
        }
        i += 1;
    }
    assert(all.subrange(0, i as int) =~= all);
    Ok(())
}

/// The command `T`, if `instruction` is one that it takes.
pub fn run_command<T: CommandParam>(instruction: &Instruction) -> (r: Result<Action, AppError>)
    ensures
        choice_view(r) == run_checked::<T>(instruction@),
{
    match check_instruction::<T>(instruction) {
        Ok(()) => Ok(Action::Run(T::COMMAND)),
        Err(e) => Err(AppError::WalletError(e)),
    }
}

pub struct App {
    pub cli: Cli,
    pub wallet: wallet::Wallet,
}

impl App {
    /// An application with the name `app_name` before its prompt, and a
    /// wallet with a fresh key and nothing pending.
    pub fn new(app_name: String) -> (app: App)
        ensures
            app.cli.name() == app_name@,
            app.cli.history().len() == 0,
            app.cli.history_size() == 200,
            valid_private_key(app.wallet.private_key()),
            app.wallet.pending().len() == 0,
    {
        let wallet = wallet::Wallet::new();
        App { cli: Cli::new(app_name), wallet }
    }

    /// What `instruction` sets in motion: a command of the wallet, if its
    /// arguments and flags are what the command takes; the end of the
    /// application; or nothing, for a name that is no command.
    pub fn parse_command(&self, instruction: &Instruction) -> (r: Result<Action, AppError>)
        ensures
            choice_view(r) == action_of(instruction@),
    {
        let name = instruction.get_command();
        if same_text(name, "getnewaddress") {
            run_command::<GetNewAddress>(instruction)
        } else if same_text(name, "getbalance") {
            run_command::<GetBalance>(instruction)
        } else if same_text(name, "createtx") {
            run_command::<CreateTx>(instruction)
        } else if same_text(name, "signtx") {
            run_command::<SignTx>(instruction)
        } else if same_text(name, "sendtx") {
            run_command::<SendTx>(instruction)
        } else if same_text(name, "showpending") {
            run_command::<ShowPending>(instruction)
        } else if same_text(name, "listunspent") {
            run_command::<ListUnspent>(instruction)
        } else if same_text(name, "exit") {
            Ok(Action::Exit)
        } else {
            Ok(Action::Nothing)
        }
    }
}

} // verus!
