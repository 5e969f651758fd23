//! Transactions: inputs, outputs, the canonical bytes that are hashed and
//! signed, and signing.

use crate::crypto;
use crate::crypto::{ecdsa_signature, sha256_digest, signing_result};
use crate::text::{decimal, decimal_text, hex_encode, hex_text, texts_view};
use vstd::prelude::*;
use vstd::string::StringExecFns;

verus! {

/// A reference to an output of an earlier transaction, with the signature
/// that releases it.
#[derive(Clone, Debug, PartialEq, Eq)]
pub struct TxIn {
    pub signature: Vec<u8>,
    /// The transaction that holds the output.
    pub txid: [u8; crypto::SHA256_DIGEST_LENGTH],
    /// The position of the output in that transaction.
    pub n: u8,
}

/// An amount made payable to the holder of a key.
///
/// `value` holds the amount, a 32-bit float, as its four bytes in the byte
/// order of the machine: the form in which it enters the canonical bytes.
#[derive(Clone, Copy, Debug, PartialEq, Eq)]
pub struct TxOut {
    pub value: [u8; 4],
    pub public_key_hash: [u8; 20],
}

/// Inputs and outputs, each in an order that counts: it is the order of
/// the canonical bytes.
#[derive(Clone, Debug, PartialEq, Eq)]
pub struct Transaction {
    pub vin: Vec<TxIn>,
    pub vout: Vec<TxOut>,
}

/// An input as a mathematical value.
pub struct TxInView {
    pub signature: Seq<u8>,
    pub txid: [u8; 32],
    pub n: u8,
}

/// A transaction as a mathematical value.
pub struct TransactionView {
    pub vin: Seq<TxInView>,
    pub vout: Seq<TxOut>,
}

impl View for TxIn {
    type V = TxInView;

    open spec fn view(&self) -> TxInView {
        TxInView { signature: self.signature@, txid: self.txid, n: self.n }
    }
}

impl View for Transaction {
    type V = TransactionView;

    open spec fn view(&self) -> TransactionView {
        TransactionView {
            vin: Seq::new(self.vin@.len(), |i: int| self.vin@[i]@),
            vout: self.vout@,
        }
    }
}

impl TxInView {
    /// The bytes of an input that are hashed: the transaction id, then the
    /// position, without the signature.
    pub open spec fn canonical_bytes(self) -> Seq<u8> {
        self.txid@.push(self.n)
    }

    pub open spec fn with_signature(self, signature: Seq<u8>) -> TxInView {
        TxInView { signature, ..self }
    }
}

impl TxOut {
    /// The bytes of an output that are hashed: the value, then the public key
    /// hash.
    pub open spec fn canonical_bytes(self) -> Seq<u8> {
        self.value@ + self.public_key_hash@
    }
}

impl TxInView {
    /// An input as it is shown.
    pub open spec fn text(self) -> Seq<char> {
        "{\n"@ + "        Signature: "@ + hex_text(self.signature) + ",\n"@ + "        TxID: "@
            + hex_text(self.txid@) + ",\n"@ + "        n: "@ + decimal_text(self.n as nat)
            + ",\n"@ + "    }\n"@
    }
}

impl TxOut {
    /// An output as it is shown, with `value` for the text of its amount.
    pub open spec fn text(self, value: Seq<char>) -> Seq<char> {
        "{\n"@ + "        Value: "@ + value + "\n"@ + "        PubKeyHash: "@ + hex_text(
            self.public_key_hash@,
        ) + "\n"@ + "    }\n"@
    }

    /// An output as it is shown inside a transaction, with `value` for the
    /// text of its amount.
    pub open spec fn inner_text(self, value: Seq<char>) -> Seq<char> {
        "        {\n"@ + "            Value: "@ + value + "\n"@ + "            PubKeyHash: "@
            + hex_text(self.public_key_hash@) + "\n"@ + "        }\n"@
    }
}

/// The text at position `i` of `texts`, and the empty text where there is
/// none.
pub open spec fn text_at(texts: Seq<Seq<char>>, i: int) -> Seq<char> {
    if 0 <= i < texts.len() {
        texts[i]
    } else {
        Seq::empty()
    }
}

/// The inputs as they are shown, one after the other.
pub open spec fn inputs_text(vin: Seq<TxInView>) -> Seq<char>
    decreases vin.len(),
{
    if vin.len() == 0 {
        Seq::empty()
    } else {
        inputs_text(vin.drop_last()) + vin.last().text()
    }
}

/// The outputs as they are shown inside a transaction, one after the other,
/// each with the text of its amount from `values`.
pub open spec fn outputs_text(vout: Seq<TxOut>, values: Seq<Seq<char>>) -> Seq<char>
    decreases vout.len(),
{
    if vout.len() == 0 {
        Seq::empty()
    } else {
        outputs_text(vout.drop_last(), values) + vout.last().inner_text(
            text_at(values, vout.len() - 1),
        )
    }
}

/// The canonical bytes of the inputs, one after the other.
pub open spec fn inputs_bytes(vin: Seq<TxInView>) -> Seq<u8>
    decreases vin.len(),
{
    if vin.len() == 0 {
        Seq::empty()
    } else {
        inputs_bytes(vin.drop_last()) + vin.last().canonical_bytes()
    }
}

/// The canonical bytes of the outputs, one after the other.
pub open spec fn outputs_bytes(vout: Seq<TxOut>) -> Seq<u8>
    decreases vout.len(),
{
    if vout.len() == 0 {
        Seq::empty()
    } else {
        outputs_bytes(vout.drop_last()) + vout.last().canonical_bytes()
    }
}

impl TransactionView {
    /// The bytes that are hashed and signed: every input in order, then every
    /// output in order, with no lengths and no separators.
    pub open spec fn canonical_bytes(self) -> Seq<u8> {
        inputs_bytes(self.vin) + outputs_bytes(self.vout)
    }

    /// The SHA-256 digest of the canonical bytes.
    pub open spec fn hash(self) -> [u8; 32] {
        sha256_digest(self.canonical_bytes())
    }

    /// The transaction as it is shown, with the texts of the amounts of its
    /// outputs from `values`.
    pub open spec fn text(self, values: Seq<Seq<char>>) -> Seq<char> {
        "{\n"@ + "    vin {\n"@ + inputs_text(self.vin) + "    }\n"@ + "    vout {\n"@
            + outputs_text(self.vout, values) + "    }\n"@ + "}\n"@
    }

    /// The transaction with `signature` in every input.
    pub open spec fn with_signature(self, signature: Seq<u8>) -> TransactionView {
        TransactionView {
            vin: Seq::new(self.vin.len(), |i: int| self.vin[i].with_signature(signature)),
            vout: self.vout,
        }
    }

    /// The transaction after `Transaction::sign`, given what signing its hash
    /// gave: stamped on success, unchanged otherwise.
    pub open spec fn signed(self, outcome: Result<Seq<u8>, crypto::KeyError>) -> TransactionView {
        match outcome {
            Ok(signature) => self.with_signature(signature),
            Err(_) => self,
        }
    }
}

/// The canonical bytes hold nothing but the inputs and the outputs: 33
/// bytes for each input and 24 for each output.
pub proof fn lemma_canonical_length(tx: TransactionView)
    ensures
        tx.canonical_bytes().len() == 33 * tx.vin.len() + 24 * tx.vout.len(),
{
    lemma_inputs_length(tx.vin);
    lemma_outputs_length(tx.vout);
}

proof fn lemma_inputs_length(vin: Seq<TxInView>)
    ensures
        inputs_bytes(vin).len() == 33 * vin.len(),
    decreases vin.len(),
{
    if vin.len() > 0 {
        lemma_inputs_length(vin.drop_last());
    }
}

proof fn lemma_outputs_length(vout: Seq<TxOut>)
    ensures
        outputs_bytes(vout).len() == 24 * vout.len(),
    decreases vout.len(),
{
    if vout.len() > 0 {
        lemma_outputs_length(vout.drop_last());
    }
}

/// The canonical bytes of the inputs do not depend on their signatures.
pub proof fn lemma_inputs_bytes_ignore_signature(vin: Seq<TxInView>, signature: Seq<u8>)
    ensures
        inputs_bytes(Seq::new(vin.len(), |i: int| vin[i].with_signature(signature)))
            == inputs_bytes(vin),
    decreases vin.len(),
{
    let stamped = Seq::new(vin.len(), |i: int| vin[i].with_signature(signature));
    if vin.len() > 0 {
        let shorter = vin.drop_last();
        lemma_inputs_bytes_ignore_signature(shorter, signature);
        assert(stamped.drop_last() =~= Seq::new(
            shorter.len(),
            |i: int| shorter[i].with_signature(signature),
        ));
    }
}

/// Signing does not change what is hashed: the canonical bytes, and so the
/// hash, of a transaction are those of the same transaction with any
/// signature in its inputs.
pub proof fn lemma_hash_ignores_signatures(tx: TransactionView, signature: Seq<u8>)
    ensures
        tx.with_signature(signature).canonical_bytes() == tx.canonical_bytes(),
        tx.with_signature(signature).hash() == tx.hash(),
{
    lemma_inputs_bytes_ignore_signature(tx.vin, signature);
}

/// Whatever signing gave, the transaction afterwards hashes as before.
pub proof fn lemma_sign_keeps_hash(tx: TransactionView, outcome: Result<Seq<u8>, crypto::KeyError>)
    ensures
        tx.signed(outcome).hash() == tx.hash(),
{
    if let Ok(signature) = outcome {
        lemma_hash_ignores_signatures(tx, signature);
    }
}

impl TxOut {
    pub fn new(value: [u8; 4], public_key_hash: [u8; 20]) -> (out: TxOut)
        ensures
            out == (TxOut { value, public_key_hash }),
    {
        TxOut { value, public_key_hash }
    }

    /// The output as it is shown, with `value` for the text of its amount.
    pub fn to_text(&self, value: &str) -> (text: String)
        ensures
            text@ == self.text(value@),
    {
        let mut text = String::from_str("{\n");
        text.append("        Value: ");
        text.append(value);
        text.append("\n");
        text.append("        PubKeyHash: ");
        let hash = hex_encode(self.public_key_hash.as_slice());
        text.append(hash.as_str());
        text.append("\n");
        text.append("    }\n");
        text
    }

    /// The output as it is shown inside a transaction.
    pub fn to_inner_text(&self, value: &str) -> (text: String)
        ensures
            text@ == self.inner_text(value@),
    {
        let mut text = String::from_str("        {\n");
        text.append("            Value: ");
        text.append(value);
        text.append("\n");
        text.append("            PubKeyHash: ");
        let hash = hex_encode(self.public_key_hash.as_slice());
        text.append(hash.as_str());
        text.append("\n");
        text.append("        }\n");
        text
    }

    pub fn serialize(&self) -> (buffer: Vec<u8>)
        ensures
            buffer@ == self.canonical_bytes(),
    {
        let mut buffer: Vec<u8> = Vec::new();
        buffer.extend_from_slice(self.value.as_slice());
        buffer.extend_from_slice(self.public_key_hash.as_slice());
        buffer
    }
}

impl TxIn {
    pub fn new(txid: [u8; 32], n: u8) -> (input: TxIn)
        ensures
            input@ == (TxInView { signature: Seq::empty(), txid, n }),
    {
        TxIn { signature: Vec::new(), txid, n }
    }

    /// The input as it is shown.
    pub fn to_text(&self) -> (text: String)
        ensures
            text@ == self@.text(),
    {
        let mut text = String::from_str("{\n");
        text.append("        Signature: ");
        let signature = hex_encode(self.signature.as_slice());
        text.append(signature.as_str());
        text.append(",\n");
        text.append("        TxID: ");
        let txid = hex_encode(self.txid.as_slice());
        text.append(txid.as_str());
        text.append(",\n");
        text.append("        n: ");
        let n = decimal(self.n as usize);
        text.append(n.as_str());
        text.append(",\n");
        text.append("    }\n");
        text
    }

    pub fn serialize(&self) -> (buffer: Vec<u8>)
        ensures
            buffer@ == self@.canonical_bytes(),
    {
        let mut buffer: Vec<u8> = Vec::new();
        buffer.extend_from_slice(self.txid.as_slice());
        buffer.push(self.n);
        buffer
    }
}

impl Transaction {
    /// A transaction without inputs that pays `vout`, in the order given.
    pub fn from_vout(vout: Vec<TxOut>) -> (tx: Transaction)
        ensures
            tx@ == (TransactionView { vin: Seq::empty(), vout: vout@ }),
    {
        let tx = Transaction { vin: Vec::new(), vout };
        assert(tx@.vin =~= Seq::empty());
        tx
    }

    /// The transaction as it is shown. The text of the amount of each output
    /// is taken from `values`, by position; an output without one is shown
    /// with an empty amount.
    pub fn to_text(&self, values: &Vec<String>) -> (text: String)
        ensures
            text@ == self@.text(texts_view(values@)),
    {
        let ghost shown = texts_view(values@);
        let mut text = String::from_str("{\n");
        text.append("    vin {\n");
        let ghost head = text@;
        let mut i: usize = 0;
        while i < self.vin.len()
            invariant
                i <= self.vin@.len(),
                text@ == head + inputs_text(self@.vin.subrange(0, i as int)),
            decreases self.vin@.len() - i,
        {
            let piece = self.vin[i].to_text();
            text.append(piece.as_str());
            assert(self@.vin.subrange(0, i + 1).drop_last() =~= self@.vin.subrange(0, i as int));
            i += 1;
        }
        assert(self@.vin.subrange(0, i as int) =~= self@.vin);
        text.append("    }\n");
        text.append("    vout {\n");
        let ghost middle = text@;
        let mut j: usize = 0;
        while j < self.vout.len()
            invariant
                j <= self.vout@.len(),
                shown == texts_view(values@),
                text@ == middle + outputs_text(self.vout@.subrange(0, j as int), shown),
            decreases self.vout@.len() - j,
        {
            let piece = if j < values.len() {
                self.vout[j].to_inner_text(values[j].as_str())
            } else {
                self.vout[j].to_inner_text("")
            };
            proof {
                reveal_strlit("");
            }
            text.append(piece.as_str());
            assert(self.vout@.subrange(0, j + 1).drop_last() =~= self.vout@.subrange(0, j as int));
            j += 1;
        }
        assert(self.vout@.subrange(0, j as int) =~= self.vout@);
        text.append("    }\n");
        text.append("}\n");
        text
    }

    /// The canonical bytes of the transaction.
    pub fn serialize(&self) -> (buffer: Vec<u8>)
        ensures
            buffer@ == self@.canonical_bytes(),
    {
        let mut buffer: Vec<u8> = Vec::new();
        let mut i: usize = 0;
        while i < self.vin.len()
            invariant
                i <= self.vin@.len(),
                buffer@ == inputs_bytes(self@.vin.subrange(0, i as int)),
            decreases self.vin@.len() - i,
        {
            let mut piece = self.vin[i].serialize();
            buffer.append(&mut piece);
            assert(self@.vin.subrange(0, i + 1).drop_last() =~= self@.vin.subrange(0, i as int));
            i += 1;
        }
        assert(self@.vin.subrange(0, i as int) =~= self@.vin);
        let mut j: usize = 0;
        while j < self.vout.len()
            invariant
                j <= self.vout@.len(),
                buffer@ == inputs_bytes(self@.vin) + outputs_bytes(self.vout@.subrange(0, j as int)),
            decreases self.vout@.len() - j,
        {
            let mut piece = self.vout[j].serialize();
            buffer.append(&mut piece);
            assert(self.vout@.subrange(0, j + 1).drop_last() =~= self.vout@.subrange(0, j as int));
            j += 1;
        }
        assert(self.vout@.subrange(0, j as int) =~= self.vout@);
        buffer
    }

    /// The SHA-256 digest of the canonical bytes.
    pub fn serialize_and_hash(&self) -> (hash: [u8; crypto::SHA256_DIGEST_LENGTH])
        ensures
            hash == self@.hash(),
    {
        let buffer = self.serialize();
        crypto::sha256(buffer.as_slice())
    }

    /// Puts `signature` into every input.
    pub fn stamp(&mut self, signature: &Vec<u8>)
        ensures
            final(self)@ == old(self)@.with_signature(signature@),
    {
        let mut i: usize = 0;
        while i < self.vin.len()
            invariant
                i <= self.vin@.len(),
                self.vin@.len() == old(self).vin@.len(),
                self.vout == old(self).vout,
                forall|k: int|
                    0 <= k < i ==> (#[trigger] self.vin@[k])@ == old(self).vin@[k]@.with_signature(
                        signature@,
                    ),
                forall|k: int| i <= k < self.vin@.len() ==> #[trigger] self.vin@[k] == old(self).vin@[k],
            decreases self.vin@.len() - i,
        {
            self.vin[i].signature = signature.clone();
            i += 1;
        }
        assert(self@.vin =~= old(self)@.with_signature(signature@).vin);
    }

    /// Signs the hash of the transaction with `private_key` and puts the
    /// signature into every input. Returns whether signing succeeded; if it
    /// did not, the transaction is as it was.
    pub fn sign(&mut self, private_key: &[u8]) -> (signed: bool)
        ensures
            signed == (signing_result(
                private_key@,
                ecdsa_signature(private_key@, old(self)@.hash()@),
            ) is Ok),
            final(self)@ == old(self)@.signed(
                signing_result(private_key@, ecdsa_signature(private_key@, old(self)@.hash()@)),
            ),
            final(self)@.hash() == old(self)@.hash(),
    {
        let hash = self.serialize_and_hash();
        proof {
            lemma_sign_keeps_hash(
                self@,
                signing_result(private_key@, ecdsa_signature(private_key@, self@.hash()@)),
            );
        }
        match crypto::sign(private_key, hash.as_slice()) {
            Ok(signature) => {
                self.stamp(&signature);
                true
            },
            Err(_) => false,
        }
    }
}

} // verus!
