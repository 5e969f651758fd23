//! The wallet: a signing key, the transactions that wait to be signed, and
//! the commands that work on them.

pub mod address;
pub mod arguments;
pub mod commands;
pub mod error;

use crate::crypto;
use crate::crypto::{
    address_text, ecdsa_signature, hash160, sec1_public_key, signing_result, valid_private_key,
    KeyError,
};
use crate::text::{
    decimal, decimal_text, hex_encode, hex_text, parse_usize, push_char, texts_view,
    usize_reading, usize_refusal,
};
use crate::transaction::{Transaction, TransactionView, TxOut};
use crate::wallet::address::reads_as;
use crate::wallet::arguments::{
    arguments_view, lemma_outputs_failure_stays, outputs_of, outputs_upto, outputs_view, pairs_of,
    pairs_view, pays, TxArgument,
};
use crate::wallet::error::{Error, ErrorView};
use vstd::prelude::*;
use vstd::string::StringExecFns;

verus! {

/// What `sign_tx` did.
#[derive(Debug, Clone, Copy, PartialEq, Eq)]
pub enum Signing {
    /// The transaction at `index` was handed to signing; `signed` tells
    /// whether that succeeded.
    Done { index: usize, signed: bool },
    /// No pending transaction has the index that was given.
    OutOfRange,
    /// No index was given: the user has to be asked for one.
    AskIndex,
}

/// What one reply of the user to the question for an index means.
#[derive(Debug, Clone, Copy, PartialEq, Eq)]
pub enum IndexReply {
    /// The pending transaction at this index is meant.
    Selected(usize),
    /// The user gave up.
    Quit,
    /// No pending transaction has this index: ask again.
    OutOfRange,
    /// The byte is no character: ask again.
    NotText,
}

/// A new key with what is kept and shown of it.
#[derive(Clone, Debug, PartialEq, Eq)]
pub struct NewAddress {
    pub private_key: Vec<u8>,
    /// The private key in hexadecimal: the line for the key file.
    pub key_line: String,
    /// The address of the public key, under the version byte 0.
    pub address: String,
}

impl NewAddress {
    /// The line and the address are those of the key.
    pub open spec fn wf(&self) -> bool {
        &&& self.key_line@ == hex_text(self.private_key@)
        &&& self.address@ == address_text(
            0,
            hash160(sec1_public_key(self.private_key@, true)),
        )
        &&& reads_as(self.address@, hash160(sec1_public_key(self.private_key@, true)))
    }
}

pub struct Wallet {
    default_private_key: Vec<u8>,
    pending_tx: Vec<Transaction>,
}

/// What reading `input` as the index of one of `pending` transactions gives:
/// the number that it spells, if a transaction has that index.
pub open spec fn index_reading(input: Seq<char>, pending: nat) -> Result<Option<usize>, ErrorView> {
    match usize_reading(input, usize_refusal(input)) {
        Err(description) => Err(ErrorView::ParseUsizeError(description)),
        Ok(index) => if index < pending {
            Ok(Some(index))
        } else {
            Ok(None)
        },
    }
}

/// What the reply `reply` to the question for an index means.
pub open spec fn reply_meaning(reply: u8, pending: nat) -> Result<IndexReply, ErrorView> {
    if reply >= 128 {
        Ok(IndexReply::NotText)
    } else if reply == 113 {
        Ok(IndexReply::Quit)
    } else {
        match index_reading(seq![reply as char], pending) {
            Err(e) => Err(e),
            Ok(Some(index)) => Ok(IndexReply::Selected(index)),
            Ok(None) => Ok(IndexReply::OutOfRange),
        }
    }
}

/// What signing the transaction at `index` answers, and what it makes of
/// the pending transactions: the one at `index` is signed if there is one.
pub open spec fn signing_at(key: Seq<u8>, pending: Seq<TransactionView>, index: usize) -> (
    Signing,
    Seq<TransactionView>,
) {
    if index < pending.len() {
        let tx = pending[index as int];
        let outcome = signing_result(key, ecdsa_signature(key, tx.hash()@));
        (
            Signing::Done { index, signed: outcome is Ok },
            pending.update(index as int, tx.signed(outcome)),
        )
    } else {
        (Signing::OutOfRange, pending)
    }
}

/// What `sign_tx` answers for its arguments, and what it makes of the
/// pending transactions.
pub open spec fn signing_of(key: Seq<u8>, pending: Seq<TransactionView>, args: Seq<Seq<char>>) -> (
    Result<Signing, ErrorView>,
    Seq<TransactionView>,
) {
    if args.len() == 0 {
        (Ok(Signing::AskIndex), pending)
    } else if args.len() == 1 {
        match index_reading(args[0], pending.len()) {
            Err(e) => (Err(e), pending),
            Ok(None) => (Ok(Signing::OutOfRange), pending),
            Ok(Some(index)) => (
                Ok(signing_at(key, pending, index).0),
                signing_at(key, pending, index).1,
            ),
        }
    } else {
        (Err(ErrorView::UnvalidArgsCountError("signtx"@, 1)), pending)
    }
}

/// The texts of the amounts of the outputs of every pending transaction, as
/// mathematical values.
pub open spec fn values_view(values: Seq<Vec<String>>) -> Seq<Seq<Seq<char>>> {
    Seq::new(values.len(), |i: int| texts_view(values[i]@))
}

/// The texts at position `i` of `values`, and none where there are none.
pub open spec fn texts_at(values: Seq<Seq<Seq<char>>>, i: int) -> Seq<Seq<char>> {
    if 0 <= i < values.len() {
        values[i]
    } else {
        Seq::empty()
    }
}

/// The pending transactions as they are shown: each under a line with its
/// index, and followed by an empty line.
pub open spec fn pending_text(pending: Seq<TransactionView>, values: Seq<Seq<Seq<char>>>) -> Seq<
    char,
>
    decreases pending.len(),
{
    if pending.len() == 0 {
        Seq::empty()
    } else {
        pending_text(pending.drop_last(), values) + "Pending tx: "@ + decimal_text(
            (pending.len() - 1) as nat,
        ) + "\n"@ + pending.last().text(texts_at(values, pending.len() - 1)) + "\n"@
    }
}

/// A result without a view of its own as a mathematical value.
pub open spec fn plain_result<T>(r: Result<T, Error>) -> Result<T, ErrorView> {
    match r {
        Ok(value) => Ok(value),
        Err(e) => Err(e@),
    }
}

impl Wallet {
    /// The key that the wallet signs with.
    pub closed spec fn private_key(&self) -> Seq<u8> {
        self.default_private_key@
    }

    /// The transactions that wait to be signed, oldest first.
    pub closed spec fn pending(&self) -> Seq<TransactionView> {
        Seq::new(self.pending_tx@.len(), |i: int| self.pending_tx@[i]@)
    }

    /// A wallet with a fresh key and nothing pending.
    pub fn new() -> (wallet: Wallet)
        ensures
            valid_private_key(wallet.private_key()),
            wallet.pending().len() == 0,
    {
        let pk = crypto::generate_signing_key();
        Wallet { default_private_key: pk, pending_tx: Vec::new() }
    }

    /// The transactions that wait to be signed, oldest first.
    pub fn pending_transactions(&self) -> (pending: &Vec<Transaction>)
        ensures
            pending@.len() == self.pending().len(),
            forall|i: int| 0 <= i < pending@.len() ==> (#[trigger] pending@[i])@ == self.pending()[i],
    {
        &self.pending_tx
    }

    /// What is kept and shown of the key `private_key`: its line for the key
    /// file, and the address of its compressed public key under the version
    /// byte 0.
    pub fn address_of_key(private_key: Vec<u8>) -> (r: Result<NewAddress, KeyError>)
        ensures
            r is Ok <==> valid_private_key(private_key@),
            r matches Ok(entry) ==> entry.private_key@ == private_key@ && entry.wf(),
            r matches Err(e) ==> e == KeyError::InvalidScalar,
    {
        match crypto::get_pub_key(private_key.as_slice(), true) {
            Ok(pub_key) => {
                let key_line = hex_encode(private_key.as_slice());
                let address = crypto::get_address(pub_key.as_slice(), 0);
                Ok(NewAddress { private_key, key_line, address })
            },
            Err(e) => Err(e),
        }
    }

    /// A new key with its line for the key file and its address. The key is
    /// drawn at random, and whichever key is drawn, this succeeds.
    pub fn get_new_address(&self) -> (r: Result<NewAddress, KeyError>)
        ensures
            r matches Ok(entry) && valid_private_key(entry.private_key@) && entry.wf(),
    {
        let private_key = crypto::generate_signing_key();
        Self::address_of_key(private_key)
    }

    pub fn get_balance(&self) -> (r: Result<(), Error>)
        ensures
            r is Ok,
    {
        Ok(())
    }

    /// Makes the transaction that the arguments ask for, amounts and
    /// addresses in turn, and puts it last among the pending ones. Nothing
    /// changes if an argument is refused; the first refusal is returned,
    /// amounts before addresses.
    pub fn create_tx(&mut self, args: &Vec<TxArgument>) -> (r: Result<(), Error>)
        ensures
            final(self).private_key() == old(self).private_key(),
            match outputs_of(arguments_view(args@)) {
                Ok(outputs) => {
                    &&& r is Ok
                    &&& final(self).pending().len() == old(self).pending().len() + 1
                    &&& final(self).pending().drop_last() == old(self).pending()
                    &&& pays(final(self).pending().last(), outputs)
                },
                Err(e) => {
                    &&& r matches Err(refusal)
                    &&& refusal@ == e
                    &&& final(self).pending() == old(self).pending()
                },
            },
    {
        let data = match Self::convert_vout_args_to_tuples(args) {
            Ok(data) => data,
            Err(e) => { return Err(e); },
        };
        let ghost pairs = pairs_view(data@);
        let mut vout: Vec<TxOut> = Vec::new();
        let mut i: usize = 0;
        assert(outputs_view(vout@) =~= Seq::empty());
        while i < data.len()
            invariant
                i <= data@.len(),
                pairs == pairs_view(data@),
                pairs_of(arguments_view(args@)) == Ok::<Seq<([u8; 4], Seq<char>)>, ErrorView>(
                    pairs,
                ),
                *self == *old(self),
                outputs_upto(pairs, i as nat) == Ok::<Seq<([u8; 4], Seq<u8>)>, ErrorView>(
                    outputs_view(vout@),
                ),
            decreases data@.len() - i,
        {
            let pair = (data[i].0, data[i].1.clone());
            match Self::create_vout(pair) {
                Ok(out) => {
                    let ghost before = vout@;
                    vout.push(out);
                    assert(outputs_view(vout@) =~= outputs_view(before).push(
                        (out.value, out.public_key_hash@),
                    ));
                },
                Err(e) => {
                    proof {
                        lemma_outputs_failure_stays(pairs, (i + 1) as nat, pairs.len());
                    }
                    return Err(e);
                },
            }
            i += 1;
        }
        let tx = Transaction::from_vout(vout);
        self.pending_tx.push(tx);
        Ok(())
    }

    /// Signs the pending transaction at `index` with the wallet's key, if
    /// there is one.
    pub fn sign_pending_tx(&mut self, index: usize) -> (done: Signing)
        ensures
            final(self).private_key() == old(self).private_key(),
            (done, final(self).pending()) == signing_at(
                old(self).private_key(),
                old(self).pending(),
                index,
            ),
    {
        if index < self.pending_tx.len() {
            let signed = self.pending_tx[index].sign(self.default_private_key.as_slice());
            Signing::Done { index, signed }
        } else {
            Signing::OutOfRange
        }
    }

    /// Signs the pending transaction that the one argument names by its
    /// index. Without an argument nothing is signed, and the answer is that
    /// the user has to be asked; more than one argument is refused.
    pub fn sign_tx(&mut self, args: &Vec<String>) -> (r: Result<Signing, Error>)
        ensures
            final(self).private_key() == old(self).private_key(),
            (plain_result(r), final(self).pending()) == signing_of(
                old(self).private_key(),
                old(self).pending(),
                texts_view(args@),
            ),
    {
        if args.len() == 0 {
            Ok(Signing::AskIndex)
        } else if args.len() == 1 {
            match self.parse_and_check_pending_tx_index(args[0].clone()) {
                Err(e) => Err(e),
                Ok(None) => Ok(Signing::OutOfRange),
                Ok(Some(index)) => Ok(self.sign_pending_tx(index)),
            }
        } else {
            Err(Error::UnvalidArgsCountError(String::from_str("signtx"), 1))
        }
    }

    /// The pending transactions as they are shown. The texts of the amounts
    /// are taken from `values`: one list for each transaction, by position,
    /// with one text for each of its outputs.
    pub fn show_pending_tx(&self, values: &Vec<Vec<String>>) -> (r: Result<String, Error>)
        ensures
            r matches Ok(text) && text@ == pending_text(self.pending(), values_view(values@)),
    {
        Ok(self.print_pending_transactions(values))
    }

    pub fn send_tx(&self) -> (r: Result<(), Error>)
        ensures
            r is Ok,
    {
        Ok(())
    }

    pub fn list_unspent(&self) -> (r: Result<(), Error>)
        ensures
            r is Ok,
    {
        Ok(())
    }

    /// What one reply of the user, a single byte, to the question for the
    /// index of a pending transaction means.
    pub fn get_pending_transaction_index(&self, reply: u8) -> (r: Result<IndexReply, Error>)
        ensures
            plain_result(r) == reply_meaning(reply, self.pending().len()),
    {
        if reply >= 128 {
            return Ok(IndexReply::NotText);
        }
        if reply == 113 {
            return Ok(IndexReply::Quit);
        }
        let mut input = String::new();
        push_char(&mut input, reply as char);
        match self.parse_and_check_pending_tx_index(input) {
            Err(e) => Err(e),
            Ok(Some(index)) => Ok(IndexReply::Selected(index)),
            Ok(None) => Ok(IndexReply::OutOfRange),
        }
    }

    /// The pending transactions as they are shown, each under its index.
    pub fn print_pending_transactions(&self, values: &Vec<Vec<String>>) -> (text: String)
        ensures
            text@ == pending_text(self.pending(), values_view(values@)),
    {
        let ghost shown = values_view(values@);
        let ghost pending = self.pending();
        let mut text = String::new();
        let none: Vec<String> = Vec::new();
        let mut i: usize = 0;
        while i < self.pending_tx.len()
            invariant
                i <= self.pending_tx@.len(),
                pending == self.pending(),
                shown == values_view(values@),
                texts_view(none@) == Seq::<Seq<char>>::empty(),
                text@ == pending_text(pending.subrange(0, i as int), shown),
            decreases self.pending_tx@.len() - i,
        {
            text.append("Pending tx: ");
            let index = decimal(i);
            text.append(index.as_str());
            text.append("\n");
            let piece = if i < values.len() {
                self.pending_tx[i].to_text(&values[i])
            } else {
                self.pending_tx[i].to_text(&none)
            };
            text.append(piece.as_str());
            text.append("\n");
            assert(pending.subrange(0, i + 1).drop_last() =~= pending.subrange(0, i as int));
            i += 1;
        }
        assert(pending.subrange(0, i as int) =~= pending);
        text
    }

    /// `input` read as the index of a pending transaction: `None` if it is a
    /// number and no pending transaction has it.
    pub fn parse_and_check_pending_tx_index(&self, input: String) -> (r: Result<
        Option<usize>,
        Error,
    >)
        ensures
            plain_result(r) == index_reading(input@, self.pending().len()),
    {
        match parse_usize(input.as_str()) {
            Err(description) => Err(Error::ParseUsizeError(description)),
            Ok(index) => {
                if index < self.pending_tx.len() {
                    Ok(Some(index))
                } else {
                    Ok(None)
                }
            },
        }
    }

}

} // verus!
