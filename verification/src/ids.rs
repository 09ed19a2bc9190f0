use vstd::prelude::*;

verus! {

/// The twelve bytes of a MongoDB object id.
#[derive(Debug, Clone, Copy, PartialEq, Eq)]
pub struct ObjectId {
    pub bytes: [u8; 12],
}

/// The lower-case hexadecimal digit of `d` (`0 <= d < 16`).
pub open spec fn hex_digit(d: nat) -> char {
    if d < 10 {
        ((d + 48) as u8) as char
    } else {
        ((d + 87) as u8) as char
    }
}

/// Two lower-case hexadecimal digits per byte, high half first.
pub open spec fn hex_text(bytes: Seq<u8>) -> Seq<char>
    decreases bytes.len(),
{
    if bytes.len() == 0 {
        Seq::empty()
    } else {
        hex_text(bytes.drop_last()) + seq![
            hex_digit((bytes.last() / 16) as nat),
            hex_digit((bytes.last() % 16) as nat),
        ]
    }
}

impl ObjectId {
    /// The id as 24 lower-case hexadecimal digits.
    ///
    /// Trusted: calls `bson::oid::ObjectId::to_hex`, which is `hex::encode`
    /// of the twelve bytes: two digits of `0123456789abcdef` per byte, the
    /// high half first. The contract states that text.
    #[verifier::external_body]
    pub(crate) fn to_hex(&self) -> (r: String)
        ensures
            r@ == hex_text(self.bytes@),
    {
        bson::oid::ObjectId::from_bytes(self.bytes).to_hex()
    }
}

proof fn lemma_hex_digit_injective(a: nat, b: nat)
    requires
        a < 16,
        b < 16,
        hex_digit(a) == hex_digit(b),
    ensures
        a == b,
{
}

/// Two hexadecimal digits stand for each byte: `hex_text(b)` has twice the
/// length of `b`.
pub proof fn lemma_hex_text_len(bytes: Seq<u8>)
    ensures
        hex_text(bytes).len() == 2 * bytes.len(),
    decreases bytes.len(),
{
    if bytes.len() > 0 {
        lemma_hex_text_len(bytes.drop_last());
    }
}

/// Different bytes of the same length give different texts: the
/// hexadecimal text of an object id identifies the id.
pub proof fn lemma_hex_text_injective(a: Seq<u8>, b: Seq<u8>)
    requires
        a.len() == b.len(),
        hex_text(a) == hex_text(b),
    ensures
        a == b,
    decreases a.len(),
{
    if a.len() > 0 {
        let ta = hex_text(a.drop_last());
        let tb = hex_text(b.drop_last());
        lemma_hex_text_len(a.drop_last());
        lemma_hex_text_len(b.drop_last());
        let n = ta.len() as int;
        let xa = seq![hex_digit((a.last() / 16) as nat), hex_digit((a.last() % 16) as nat)];
        let xb = seq![hex_digit((b.last() / 16) as nat), hex_digit((b.last() % 16) as nat)];
        assert(hex_text(a) == ta + xa);
        assert(hex_text(b) == tb + xb);
        assert((ta + xa)[n] == xa[0]);
        assert((tb + xb)[n] == xb[0]);
        assert((ta + xa)[n + 1] == xa[1]);
        assert((tb + xb)[n + 1] == xb[1]);
        lemma_hex_digit_injective((a.last() / 16) as nat, (b.last() / 16) as nat);
        lemma_hex_digit_injective((a.last() % 16) as nat, (b.last() % 16) as nat);
        assert(hex_text(a).take(n) =~= ta);
        assert(hex_text(b).take(n) =~= tb);
        lemma_hex_text_injective(a.drop_last(), b.drop_last());
        assert(a.last() == 16 * (a.last() / 16) + a.last() % 16);
        assert(b.last() == 16 * (b.last() / 16) + b.last() % 16);
        assert(a =~= a.drop_last().push(a.last()));
        assert(b =~= b.drop_last().push(b.last()));
    }
}

} // verus!
