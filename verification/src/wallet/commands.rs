//! The commands of the wallet.

use crate::cli::command_traits::{flags_view, Command, CommandParam};
use vstd::prelude::*;

verus! {

pub struct GetNewAddress;

pub struct GetBalance;

pub struct CreateTx;

pub struct SignTx;

pub struct SendTx;

pub struct ShowPending;

pub struct ListUnspent;

/// The flags that every command takes: `h` and `help`.
pub open spec fn help_flags() -> Seq<Seq<char>> {
    seq!["h"@, "help"@]
}

fn help_flag_list() -> (flags: Vec<&'static str>)
    ensures
        flags_view(flags@) == help_flags(),
{
    let mut flags: Vec<&'static str> = Vec::new();
    flags.push("h");
    flags.push("help");
    flags
}

impl CommandParam for GetNewAddress {
    const COMMAND: Command = Command::GETNEWADDRESS;

    const MIN_ARG_LENGTH: usize = 0;

    open spec fn max_arg_length_spec() -> Option<usize> {
        Some(0)
    }

    fn max_arg_length() -> (max: Option<usize>) {
        Some(0)
    }

    open spec fn valid_flags_spec() -> Seq<Seq<char>> {
        help_flags()
    }

    fn valid_flags() -> (flags: Vec<&'static str>) {
        help_flag_list()
    }
}

impl CommandParam for GetBalance {
    const COMMAND: Command = Command::GETBALANCE;

    const MIN_ARG_LENGTH: usize = 0;

    open spec fn max_arg_length_spec() -> Option<usize> {
        Some(0)
    }

    fn max_arg_length() -> (max: Option<usize>) {
        Some(0)
    }

    open spec fn valid_flags_spec() -> Seq<Seq<char>> {
        help_flags()
    }

    fn valid_flags() -> (flags: Vec<&'static str>) {
        help_flag_list()
    }
}

impl CommandParam for CreateTx {
    const COMMAND: Command = Command::CREATETX;

    const MIN_ARG_LENGTH: usize = 2;

    open spec fn max_arg_length_spec() -> Option<usize> {
        None
    }

    fn max_arg_length() -> (max: Option<usize>) {
        None
    }

    open spec fn valid_flags_spec() -> Seq<Seq<char>> {
        help_flags()
    }

    fn valid_flags() -> (flags: Vec<&'static str>) {
        help_flag_list()
    }
}

impl CommandParam for SignTx {
    const COMMAND: Command = Command::SIGNTX;

    const MIN_ARG_LENGTH: usize = 0;

    open spec fn max_arg_length_spec() -> Option<usize> {
        Some(1)
    }

    fn max_arg_length() -> (max: Option<usize>) {
        Some(1)
    }

    open spec fn valid_flags_spec() -> Seq<Seq<char>> {
        help_flags()
    }

    fn valid_flags() -> (flags: Vec<&'static str>) {
        help_flag_list()
    }
}

impl CommandParam for SendTx {
    const COMMAND: Command = Command::SENDTX;

    const MIN_ARG_LENGTH: usize = 0;

    open spec fn max_arg_length_spec() -> Option<usize> {
        Some(0)
    }

    fn max_arg_length() -> (max: Option<usize>) {
        Some(0)
    }

    open spec fn valid_flags_spec() -> Seq<Seq<char>> {
        help_flags()
    }

    fn valid_flags() -> (flags: Vec<&'static str>) {
        help_flag_list()
    }
}

impl CommandParam for ShowPending {
    const COMMAND: Command = Command::SHOWPENDING;

    const MIN_ARG_LENGTH: usize = 0;

    open spec fn max_arg_length_spec() -> Option<usize> {
        Some(0)
    }

    fn max_arg_length() -> (max: Option<usize>) {
        Some(0)
    }

    open spec fn valid_flags_spec() -> Seq<Seq<char>> {
        help_flags()
    }

    fn valid_flags() -> (flags: Vec<&'static str>) {
        help_flag_list()
    }
}

impl CommandParam for ListUnspent {
    const COMMAND: Command = Command::LISTUNSPENT;

    const MIN_ARG_LENGTH: usize = 0;

    open spec fn max_arg_length_spec() -> Option<usize> {
        Some(0)
    }

    fn max_arg_length() -> (max: Option<usize>) {
        Some(0)
    }

    open spec fn valid_flags_spec() -> Seq<Seq<char>> {
        help_flags()
    }

    fn valid_flags() -> (flags: Vec<&'static str>) {
        help_flag_list()
    }
}

} // verus!
