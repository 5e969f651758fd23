//! The commands, and what each of them takes.

use vstd::prelude::*;

verus! {

#[derive(Clone, Copy, Debug, PartialEq, Eq, Structural)]
pub enum Command {
    GETNEWADDRESS,
    GETBALANCE,
    CREATETX,
    SIGNTX,
    SENDTX,
    SHOWPENDING,
    LISTUNSPENT,
}

/// Flags as mathematical values.
pub open spec fn flags_view(texts: Seq<&'static str>) -> Seq<Seq<char>> {
    Seq::new(texts.len(), |i: int| texts[i]@)
}

/// What a command takes: how many arguments, and which flags.
pub trait CommandParam {
    const COMMAND: Command;

    const MIN_ARG_LENGTH: usize;

    /// The largest number of arguments, if there is one.
    spec fn max_arg_length_spec() -> Option<usize>;

    fn max_arg_length() -> (max: Option<usize>)
        ensures
            max == Self::max_arg_length_spec(),
    ;

    /// The flags, without dashes.
    spec fn valid_flags_spec() -> Seq<Seq<char>>;

    fn valid_flags() -> (flags: Vec<&'static str>)
        ensures
            flags_view(flags@) == Self::valid_flags_spec(),
    ;
}

pub trait Help {
    const HELP_DESC: &'static str;
}

} // verus!
