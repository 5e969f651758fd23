//! The arguments of a payment: words that come in pairs of an amount and an
//! address.

use crate::crypto::base58_decoding;
use crate::transaction::{TransactionView, TxOut};
use crate::wallet::address::output_for;
use crate::wallet::error::{Error, ErrorView};
use crate::wallet::Wallet;
use vstd::prelude::*;
use vstd::string::StringExecFns;

verus! {

/// One argument of a command that pays: the word itself, and what reading
/// the word as an amount gave, the four bytes of a 32-bit float in the byte
/// order of the machine or the description of the failure to read one.
#[derive(Debug, PartialEq, Eq)]
pub struct TxArgument {
    pub text: String,
    pub amount: Result<[u8; 4], String>,
}

/// A `TxArgument` as a mathematical value.
pub struct TxArgumentView {
    pub text: Seq<char>,
    pub amount: Result<[u8; 4], Seq<char>>,
}

impl View for TxArgument {
    type V = TxArgumentView;

    open spec fn view(&self) -> TxArgumentView {
        TxArgumentView {
            text: self.text@,
            amount: match self.amount {
                Ok(bytes) => Ok(bytes),
                Err(description) => Err(description@),
            },
        }
    }
}

/// The arguments as mathematical values.
pub open spec fn arguments_view(args: Seq<TxArgument>) -> Seq<TxArgumentView> {
    Seq::new(args.len(), |i: int| args[i]@)
}

/// Amounts and addresses as mathematical values.
pub open spec fn pairs_view(pairs: Seq<([u8; 4], String)>) -> Seq<([u8; 4], Seq<char>)> {
    Seq::new(pairs.len(), |i: int| (pairs[i].0, pairs[i].1@))
}

/// The first `n` pairs of amount and address in `args`, or the failure to
/// read the first amount among them that is no number.
pub open spec fn pairs_upto(args: Seq<TxArgumentView>, n: nat) -> Result<
    Seq<([u8; 4], Seq<char>)>,
    ErrorView,
>
    decreases n,
{
    if n == 0 {
        Ok(Seq::empty())
    } else {
        match pairs_upto(args, (n - 1) as nat) {
            Err(e) => Err(e),
            Ok(pairs) => match args[2 * (n - 1)].amount {
                Err(description) => Err(ErrorView::ParseFloatError(description)),
                Ok(amount) => Ok(pairs.push((amount, args[2 * (n - 1) + 1].text))),
            },
        }
    }
}

/// The pairs of amount and address that the arguments of a payment spell:
/// there must be arguments, an even number of them, and every first of two
/// must be an amount.
pub open spec fn pairs_of(args: Seq<TxArgumentView>) -> Result<
    Seq<([u8; 4], Seq<char>)>,
    ErrorView,
> {
    if args.len() == 0 || args.len() % 2 != 0 {
        Err(
            ErrorView::NotEnoughArgsError(
                "amount/address missing, or arguments were not correctly formated."@,
            ),
        )
    } else {
        pairs_upto(args, args.len() / 2)
    }
}

/// The outputs, each as amount and public key hash, that the first `n` of
/// `pairs` pay, or the failure to decode the first address among them that
/// is none.
pub open spec fn outputs_upto(pairs: Seq<([u8; 4], Seq<char>)>, n: nat) -> Result<
    Seq<([u8; 4], Seq<u8>)>,
    ErrorView,
>
    decreases n,
{
    if n == 0 {
        Ok(Seq::empty())
    } else {
        match outputs_upto(pairs, (n - 1) as nat) {
            Err(e) => Err(e),
            Ok(outputs) => match output_for(pairs[n - 1].0, base58_decoding(pairs[n - 1].1)) {
                Err(e) => Err(e),
                Ok(output) => Ok(outputs.push(output)),
            },
        }
    }
}

/// The outputs of the transaction that the arguments of a payment ask for.
pub open spec fn outputs_of(args: Seq<TxArgumentView>) -> Result<
    Seq<([u8; 4], Seq<u8>)>,
    ErrorView,
> {
    match pairs_of(args) {
        Err(e) => Err(e),
        Ok(pairs) => outputs_upto(pairs, pairs.len()),
    }
}

/// Outputs as amounts and public key hashes.
pub open spec fn outputs_view(vout: Seq<TxOut>) -> Seq<([u8; 4], Seq<u8>)> {
    Seq::new(vout.len(), |i: int| (vout[i].value, vout[i].public_key_hash@))
}

/// Once an amount is no number, more arguments do not help.
pub proof fn lemma_pairs_failure_stays(args: Seq<TxArgumentView>, n: nat, m: nat)
    requires
        n <= m,
        pairs_upto(args, n) is Err,
    ensures
        pairs_upto(args, m) == pairs_upto(args, n),
    decreases m,
{
    if n < m {
        lemma_pairs_failure_stays(args, n, (m - 1) as nat);
    }
}

/// An empty list of arguments, and one of odd length, is refused for the
/// number of its arguments, whatever the arguments are.
pub proof fn lemma_argument_count_is_checked(args: Seq<TxArgumentView>)
    requires
        args.len() == 0 || args.len() % 2 == 1,
    ensures
        pairs_of(args) matches Err(e) && e == ErrorView::NotEnoughArgsError(
            "amount/address missing, or arguments were not correctly formated."@,
        ),
        outputs_of(args) matches Err(e) && e == ErrorView::NotEnoughArgsError(
            "amount/address missing, or arguments were not correctly formated."@,
        ),
{
}

/// The view of converted arguments.
pub open spec fn pairs_result(r: Result<Vec<([u8; 4], String)>, Error>) -> Result<
    Seq<([u8; 4], Seq<char>)>,
    ErrorView,
> {
    match r {
        Ok(pairs) => Ok(pairs_view(pairs@)),
        Err(e) => Err(e@),
    }
}

/// Once an address does not decode, more pairs do not help.
pub proof fn lemma_outputs_failure_stays(pairs: Seq<([u8; 4], Seq<char>)>, n: nat, m: nat)
    requires
        n <= m,
        outputs_upto(pairs, n) is Err,
    ensures
        outputs_upto(pairs, m) == outputs_upto(pairs, n),
    decreases m,
{
    if n < m {
        lemma_outputs_failure_stays(pairs, n, (m - 1) as nat);
    }
}

/// Whether `tx` has no inputs and pays `outputs`.
pub open spec fn pays(tx: TransactionView, outputs: Seq<([u8; 4], Seq<u8>)>) -> bool {
    tx.vin.len() == 0 && outputs_view(tx.vout) == outputs
}

impl Wallet {
    /// The pairs of amount and address that the arguments spell.
    pub fn convert_vout_args_to_tuples(args: &Vec<TxArgument>) -> (r: Result<
        Vec<([u8; 4], String)>,
        Error,
    >)
        ensures
            pairs_result(r) == pairs_of(arguments_view(args@)),
    {
        let mut data: Vec<([u8; 4], String)> = Vec::new();
        if args.len() == 0 || args.len() % 2 != 0 {
            return Err(
                Error::NotEnoughArgsError(
                    String::from_str(
                        "amount/address missing, or arguments were not correctly formated.",
                    ),
                ),
            );
        }
        let ghost views = arguments_view(args@);
        let count: usize = args.len() / 2;
        let mut k: usize = 0;
        assert(pairs_view(data@) =~= Seq::empty());
        while k < count
            invariant
                k <= count,
                count * 2 == args@.len(),
                args@.len() <= usize::MAX,
                views == arguments_view(args@),
                pairs_upto(views, k as nat) == Ok::<Seq<([u8; 4], Seq<char>)>, ErrorView>(
                    pairs_view(data@),
                ),
            decreases count - k,
        {
            let amount = match &args[2 * k].amount {
                Ok(amount) => *amount,
                Err(description) => {
                    proof {
                        lemma_pairs_failure_stays(views, (k + 1) as nat, count as nat);
                    }
                    return Err(Error::ParseFloatError(description.clone()));
                },
            };
            let ghost before = data@;
            data.push((amount, args[2 * k + 1].text.clone()));
            assert(pairs_view(data@) =~= pairs_view(before).push((amount, views[2 * k + 1].text)));
            k += 1;
        }
        Ok(data)
    }
}

} // verus!
