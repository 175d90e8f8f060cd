//! SHA-256 digests of downloaded and packed assets, rendered as lower-case
//! hex the way the manifest records them.
use vstd::prelude::*;

use crate::text::push_char;

verus! {

/// A running SHA-256 computation (`sha2::Sha256`). The hasher is held
/// opaquely: Verus cannot be told the type behind the `sha2::Sha256`
/// alias, so what the contracts know of a state is the bytes it has
/// absorbed, [`sha256_absorbed`].
#[verifier::external_body]
pub struct Sha256State {
    inner: sha2::Sha256,
}

/// The bytes fed to a hasher since it was created.
pub uninterp spec fn sha256_absorbed(s: Sha256State) -> Seq<u8>;

/// The SHA-256 digest of `data`.
pub uninterp spec fn sha256_of(data: Seq<u8>) -> Seq<u8>;

/// `Sha256::new()`: a hasher that has absorbed nothing.
#[verifier::external_body]
fn sha256_start() -> (s: Sha256State)
    ensures
        sha256_absorbed(s) == Seq::<u8>::empty(),
{
    Sha256State { inner: <sha2::Sha256 as sha2::Digest>::new() }
}

/// `Digest::update`: the hasher absorbs `data` after what it already holds.
#[verifier::external_body]
fn sha256_absorb(s: &mut Sha256State, data: &[u8])
    ensures
        sha256_absorbed(*final(s)) == sha256_absorbed(*old(s)) + data@,
{
    sha2::Digest::update(&mut s.inner, data);
}

/// `Digest::finalize`: the 32-byte digest of everything absorbed.
#[verifier::external_body]
fn sha256_finish(s: Sha256State) -> (d: Vec<u8>)
    ensures
        d@ == sha256_of(sha256_absorbed(s)),
        d@.len() == 32,
{
    sha2::Digest::finalize(s.inner).to_vec()
}

pub const HEX_LOWER: [char; 16] = [
    '0', '1', '2', '3', '4', '5', '6', '7', '8', '9', 'a', 'b', 'c', 'd', 'e', 'f',
];

/// Lower-case hex of `data`, two digits per byte, high nibble first (the
/// `{:x}` rendering of a digest).
pub open spec fn hex_lower(data: Seq<u8>) -> Seq<char>
    decreases data.len(),
{
    if data.len() == 0 {
        seq![]
    } else {
        seq![HEX_LOWER@[(data[0] / 16) as int], HEX_LOWER@[(data[0] % 16) as int]] + hex_lower(data.drop_first())
    }
}

pub proof fn lemma_hex_len(data: Seq<u8>)
    ensures
        hex_lower(data).len() == 2 * data.len(),
    decreases data.len(),
{
    if data.len() > 0 {
        lemma_hex_len(data.drop_first());
    }
}

/// Every character of a hex rendering is a lower-case hex digit.
pub proof fn lemma_hex_digits(data: Seq<u8>)
    ensures
        forall|i: int| 0 <= i < hex_lower(data).len() ==> #[trigger] is_hex_digit(hex_lower(data)[i]),
    decreases data.len(),
{
    if data.len() > 0 {
        lemma_hex_digits(data.drop_first());
        let h = seq![HEX_LOWER@[(data[0] / 16) as int], HEX_LOWER@[(data[0] % 16) as int]];
        let t = hex_lower(data.drop_first());
        assert forall|i: int| 0 <= i < hex_lower(data).len() implies #[trigger] is_hex_digit(
            hex_lower(data)[i],
        ) by {
            if i >= 2 {
                assert(hex_lower(data)[i] == t[i - 2]);
            }
        }
    }
}

/// `c` is one of `0-9a-f`.
pub open spec fn is_hex_digit(c: char) -> bool {
    ('0' <= c && c <= '9') || ('a' <= c && c <= 'f')
}

/// The lower-case hex rendering of `data`.
pub fn to_hex_lower(data: &[u8]) -> (s: String)
    ensures
        s@ == hex_lower(data@),
{
    let mut s = String::new();
    let n = data.len();
    let mut i: usize = 0;
    assert(data@.skip(0) =~= data@);
    while i < n
        invariant
            n == data@.len(),
            i <= n,
            hex_lower(data@) == s@ + hex_lower(data@.skip(i as int)),
        decreases n - i,
    {
        let b = data[i];
        assert(data@.skip(i as int).drop_first() =~= data@.skip(i + 1));
        let hi = HEX_LOWER[(b / 16) as usize];
        let lo = HEX_LOWER[(b % 16) as usize];
        let ghost before = s@;
        push_char(&mut s, hi);
        push_char(&mut s, lo);
        assert(s@ =~= before + seq![hi, lo]);
        i = i + 1;
    }
    assert(data@.skip(n as int) =~= Seq::<u8>::empty());
    s
}

impl Sha256State {
    /// A fresh hasher.
    pub fn new() -> (s: Self)
        ensures
            sha256_absorbed(s) == Seq::<u8>::empty(),
    {
        sha256_start()
    }

    /// Feeds `data` to the hasher.
    pub fn update(&mut self, data: &[u8])
        ensures
            sha256_absorbed(*final(self)) == sha256_absorbed(*old(self)) + data@,
    {
        sha256_absorb(self, data);
    }

    /// The lower-case hex digest of everything fed to the hasher.
    pub fn finish_hex(self) -> (h: String)
        ensures
            h@ == hex_lower(sha256_of(sha256_absorbed(self))),
            h@.len() == 64,
    {
        let d = sha256_finish(self);
        proof {
            lemma_hex_len(d@);
        }
        to_hex_lower(d.as_slice())
    }
}

} // verus!
