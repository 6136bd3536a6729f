//! The protocol name that the upgrade advertises: the handshake's own name,
//! a slash, and the lowercase hexadecimal form of the version checksum.

use vstd::prelude::*;

verus! {

/// The digit that stands for a value below sixteen, in lowercase.
pub open spec fn hex_digit(v: u8) -> char {
    if v < 10 {
        ((v + 48) as u8) as char
    } else {
        ((v + 87) as u8) as char
    }
}

/// Lowercase hexadecimal form of a byte string: two digits for each byte,
/// the high half first.
pub open spec fn hex_of(b: Seq<u8>) -> Seq<char> {
    Seq::new(
        2 * b.len(),
        |i: int|
            if i % 2 == 0 {
                hex_digit(b[i / 2] / 16)
            } else {
                hex_digit(b[i / 2] % 16)
            },
    )
}

/// The name advertised for a base handshake name and a checksum.
pub open spec fn protocol_id_of(base: Seq<char>, checksum: Seq<u8>) -> Seq<char> {
    base + seq!['/'] + hex_of(checksum)
}

/// A version fingerprint: bytes that are compared and encoded, never read.
#[derive(Clone, Debug, PartialEq, Eq)]
pub struct Checksum {
    bytes: Vec<u8>,
}

impl View for Checksum {
    type V = Seq<u8>;

    closed spec fn view(&self) -> Seq<u8> {
        self.bytes@
    }
}

impl Checksum {
    pub fn new(bytes: Vec<u8>) -> (r: Checksum)
        ensures
            r@ == bytes@,
    {
        Checksum { bytes }
    }

    pub fn as_bytes(&self) -> (r: &[u8])
        ensures
            r@ == self@,
    {
        self.bytes.as_slice()
    }
}

/// Relies on hex::encode: each byte becomes two lowercase digits from the
/// table "0123456789abcdef", the high half first.
#[verifier::external_body]
fn encode_hex(data: &[u8]) -> (r: String)
    ensures
        r@ == hex_of(data@),
{
    hex::encode(data)
}

/// The name advertised for `base` and `checksum`: `base`, then `/`, then the
/// checksum in lowercase hexadecimal.
pub fn protocol_id(base: &str, checksum: &Checksum) -> (r: String)
    ensures
        r@ == protocol_id_of(base@, checksum@),
{
    let mut id = String::from_str(base);
    id.append("/");
    let digits = encode_hex(checksum.as_bytes());
    id.append(digits.as_str());
    proof {
        reveal_strlit("/");
        assert(id@ =~= protocol_id_of(base@, checksum@));
    }
    id
}

proof fn lemma_hex_digit_injective(a: u8, b: u8)
    requires
        a < 16,
        b < 16,
        hex_digit(a) == hex_digit(b),
    ensures
        a == b,
{
}

/// Two byte strings have the same hexadecimal form only if they are equal.
pub proof fn lemma_hex_of_injective(x: Seq<u8>, y: Seq<u8>)
    requires
        hex_of(x) == hex_of(y),
    ensures
        x == y,
{
    assert(hex_of(x).len() == 2 * x.len());
    assert(x.len() == y.len());
    assert forall|j: int| 0 <= j < x.len() implies x[j] == y[j] by {
        assert(hex_of(x)[2 * j] == hex_of(y)[2 * j]);
        assert(hex_of(x)[2 * j + 1] == hex_of(y)[2 * j + 1]);
        assert((2 * j) / 2 == j && (2 * j) % 2 == 0);
        assert((2 * j + 1) / 2 == j && (2 * j + 1) % 2 == 1);
        assert(hex_of(x)[2 * j] == hex_digit(x[j] / 16));
        assert(hex_of(y)[2 * j] == hex_digit(y[j] / 16));
        assert(hex_of(x)[2 * j + 1] == hex_digit(x[j] % 16));
        assert(hex_of(y)[2 * j + 1] == hex_digit(y[j] % 16));
        lemma_hex_digit_injective(x[j] / 16, y[j] / 16);
        lemma_hex_digit_injective(x[j] % 16, y[j] % 16);
    }
    assert(x =~= y);
}

/// The advertised name tells checksums apart: for one base name, two
/// checksums give the same name exactly when they are equal, so the name is
/// the same on every computation from the same checksum and differs for
/// different ones.
pub proof fn lemma_protocol_id_distinguishes_checksums(base: Seq<char>, c1: Seq<u8>, c2: Seq<u8>)
    ensures
        (protocol_id_of(base, c1) == protocol_id_of(base, c2)) <==> (c1 == c2),
{
    if protocol_id_of(base, c1) == protocol_id_of(base, c2) {
        let n = base.len() as int + 1;
        assert(protocol_id_of(base, c1).subrange(n, protocol_id_of(base, c1).len() as int)
            =~= hex_of(c1));
        assert(protocol_id_of(base, c2).subrange(n, protocol_id_of(base, c2).len() as int)
            =~= hex_of(c2));
        lemma_hex_of_injective(c1, c2);
    }
}

} // verus!
