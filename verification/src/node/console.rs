//! The pieces of the node's console lines: how a peer, a number, a key and a
//! message are written.
use crate::node::event::PeerId;
use vstd::prelude::*;

verus! {

/// What `bs58::encode(bytes).into_string()` gives: the Base58 text of
/// `bytes` in the Bitcoin alphabet. A peer is written by it.
pub uninterp spec fn base58(bytes: Seq<u8>) -> Seq<char>;

/// What `std::str::from_utf8` decodes from `bytes`, or `None` where they are
/// no UTF-8 text.
pub uninterp spec fn utf8_text(bytes: Seq<u8>) -> Option<Seq<char>>;

/// What `String::from_utf8_lossy` gives for `bytes`.
pub uninterp spec fn lossy_text(bytes: Seq<u8>) -> Seq<char>;

/// What `{:?}` writes for the string `s`: `s` quoted, with its special
/// characters escaped.
pub uninterp spec fn debug_text(s: Seq<char>) -> Seq<char>;

/// Calls `bs58::encode(bytes).into_string()`, which is what libp2p's
/// `PeerId::to_base58` applies to a peer's bytes. Claimed: the result is
/// `base58` of the bytes; the encoding into a growable string cannot fail.
#[verifier::external_body]
pub(crate) fn encode_base58(bytes: &[u8]) -> (r: String)
    ensures
        r@ == base58(bytes@),
{
    bs58::encode(bytes).into_string()
}

/// Calls `std::str::from_utf8`. Claimed: the text decoded, or `None`
/// exactly where `utf8_text` gives none, as a function of the bytes alone.
#[verifier::external_body]
pub(crate) fn decode_utf8(bytes: &[u8]) -> (r: Option<String>)
    ensures
        match r {
            Some(s) => utf8_text(bytes@) == Some(s@),
            None => utf8_text(bytes@) is None,
        },
{
    match std::str::from_utf8(bytes) {
        Ok(s) => Some(s.to_string()),
        Err(_) => None,
    }
}

/// Calls `String::from_utf8_lossy`. Claimed: the result is `lossy_text` of
/// the bytes.
#[verifier::external_body]
pub(crate) fn decode_utf8_lossy(bytes: &[u8]) -> (r: String)
    ensures
        r@ == lossy_text(bytes@),
{
    String::from_utf8_lossy(bytes).into_owned()
}

/// Writes `s` with `{:?}`. Claimed: the result is `debug_text` of `s`.
#[verifier::external_body]
pub(crate) fn debug_string(s: &str) -> (r: String)
    ensures
        r@ == debug_text(s@),
{
    format!("{:?}", s)
}

/// How a peer is written with `{:?}`: `PeerId("…")` around its Base58 text.
pub open spec fn peer_debug(p: PeerId) -> Seq<char> {
    "PeerId("@ + debug_text(base58(p.0@)) + ")"@
}

/// The decimal digit `d`.
pub open spec fn digit_char(d: int) -> char {
    seq!['0', '1', '2', '3', '4', '5', '6', '7', '8', '9'][d]
}

/// The decimal digits of `n`, most significant first, without leading zeros.
pub open spec fn decimal(n: nat) -> Seq<char>
    decreases n,
{
    if n < 10 {
        seq![digit_char(n as int)]
    } else {
        decimal(n / 10).push(digit_char((n % 10) as int))
    }
}

/// `p` as `{:?}` writes it.
pub fn peer_debug_string(p: &PeerId) -> (r: String)
    ensures
        r@ == peer_debug(*p),
{
    let b = encode_base58(p.0.as_slice());
    let d = debug_string(b.as_str());
    let mut s = String::from_str("PeerId(");
    s.append(d.as_str());
    s.append(")");
    s
}

fn digit_str(d: u128) -> (r: &'static str)
    requires
        d < 10,
    ensures
        r@ == seq![digit_char(d as int)],
{
    proof {
        reveal_strlit("0");
        reveal_strlit("1");
        reveal_strlit("2");
        reveal_strlit("3");
        reveal_strlit("4");
        reveal_strlit("5");
        reveal_strlit("6");
        reveal_strlit("7");
        reveal_strlit("8");
        reveal_strlit("9");
    }
    let r = match d {
        0 => "0",
        1 => "1",
        2 => "2",
        3 => "3",
        4 => "4",
        5 => "5",
        6 => "6",
        7 => "7",
        8 => "8",
        _ => "9",
    };
    assert(r@ =~= seq![digit_char(d as int)]);
    r
}

/// `n` in decimal, as `{}` writes it.
pub fn decimal_string(n: u128) -> (r: String)
    ensures
        r@ == decimal(n as nat),
    decreases n,
{
    if n < 10 {
        String::from_str(digit_str(n))
    } else {
        let mut s = decimal_string(n / 10);
        let d = digit_str(n % 10);
        s.append(d);
        assert(s@ =~= decimal((n / 10) as nat).push(digit_char((n % 10) as int)));
        s
    }
}

} // verus!
