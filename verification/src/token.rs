//! The tokens that manage files, and the hashes that name their data.

use crate::encoding::{base64_is_injective, base64_is_shaped, base64_text};
use crate::encoding::{is_base64_of, is_base64_shaped};
use crate::outside::{base64_bytes, xxh3_128_of};
use crate::outside::{base64_decode, base64_encode, random_bytes, xxh3_128, DecodeError};
use vstd::prelude::*;

verus! {

/// The bytes of what was decoded, which must be exactly `len`.
pub open spec fn exactly(decoded: Result<Seq<u8>, DecodeError>, len: nat) -> Result<
    Seq<u8>,
    DecodeError,
> {
    match decoded {
        Ok(bytes) => if bytes.len() == len {
            Ok(bytes)
        } else {
            Err(DecodeError::InvalidLength(bytes.len() as usize))
        },
        Err(e) => Err(e),
    }
}

/// The bytes of a text that must be the base64 of exactly `len` bytes.
pub open spec fn decoded_exactly(text: Seq<char>, len: nat) -> Result<Seq<u8>, DecodeError> {
    exactly(base64_bytes(text), len)
}

/// The bytes in what was decoded.
pub open spec fn bytes_in(decoded: Result<Vec<u8>, DecodeError>) -> Result<Seq<u8>, DecodeError> {
    match decoded {
        Ok(bytes) => Ok(bytes@),
        Err(e) => Err(e),
    }
}

/// Takes what was decoded, which must be exactly `N` bytes.
pub fn exact_bytes<const N: usize>(decoded: Result<Vec<u8>, DecodeError>) -> (bytes: Result<
    [u8; N],
    DecodeError,
>)
    ensures
        match bytes {
            Ok(b) => exactly(bytes_in(decoded), N as nat) == Ok::<Seq<u8>, DecodeError>(b@),
            Err(e) => exactly(bytes_in(decoded), N as nat) == Err::<Seq<u8>, DecodeError>(e),
        },
{
    let decoded = match decoded {
        Ok(decoded) => decoded,
        Err(e) => return Err(e),
    };
    if decoded.len() != N {
        return Err(DecodeError::InvalidLength(decoded.len()));
    }
    let mut bytes: [u8; N] = [0u8; N];
    let mut i: usize = 0;
    while i < N
        invariant
            i <= N,
            decoded@.len() == N,
            bytes@.len() == N,
            forall|j: int| 0 <= j < i ==> bytes@[j] == decoded@[j],
        decreases N - i,
    {
        bytes[i] = decoded[i];
        i = i + 1;
    }
    assert(bytes@ =~= decoded@);
    Ok(bytes)
}

/// Decodes a text that must be the base64 of exactly `N` bytes.
fn decode_exactly<const N: usize>(text: &str) -> (bytes: Result<[u8; N], DecodeError>)
    ensures
        match bytes {
            Ok(b) => decoded_exactly(text@, N as nat) == Ok::<Seq<u8>, DecodeError>(b@),
            Err(e) => decoded_exactly(text@, N as nat) == Err::<Seq<u8>, DecodeError>(e),
        },
        bytes is Ok ==> text@ == base64_text(bytes->Ok_0@),
        bytes is Ok <==> is_base64_of(text@, N as nat),
{
    let decoded = base64_decode(text);
    proof {
        if decoded is Ok && is_base64_of(text@, N as nat) {
            let bytes = choose|bytes: Seq<u8>|
                bytes.len() == N && text@ == #[trigger] base64_text(bytes);
            base64_is_injective(bytes, decoded->Ok_0@);
        }
    }
    exact_bytes(decoded)
}

/// A secret that gives its holder control over one file.
#[derive(Debug, Clone, Copy)]
pub struct UserToken([u8; 32]);

impl View for UserToken {
    type V = Seq<u8>;

    closed spec fn view(&self) -> Seq<u8> {
        self.0@
    }
}

impl UserToken {
    /// The token that consists of these bytes.
    pub fn new(token: [u8; 32]) -> (t: Self)
        ensures
            t@ == token@,
    {
        Self(token)
    }

    /// A token of random bytes.
    pub fn generate() -> (token: Self)
        ensures
            token@.len() == 32,
    {
        UserToken(random_bytes())
    }

    /// The bytes of the token.
    pub fn bytes(&self) -> (bytes: [u8; 32])
        ensures
            bytes@ == self@,
    {
        self.0
    }

    /// Reads a token from its base64 text. No other text is read as this token than the
    /// one that `to_string` writes.
    pub fn from_str(s: &str) -> (token: Result<Self, DecodeError>)
        ensures
            match token {
                Ok(t) => decoded_exactly(s@, 32) == Ok::<Seq<u8>, DecodeError>(t@),
                Err(e) => decoded_exactly(s@, 32) == Err::<Seq<u8>, DecodeError>(e),
            },
            token is Ok ==> s@ == base64_text(token->Ok_0@),
            token is Ok <==> is_base64_of(s@, 32),
    {
        match decode_exactly::<32>(s) {
            Ok(bytes) => Ok(Self(bytes)),
            Err(e) => Err(e),
        }
    }

    /// Writes the token as base64 text, which `from_str` reads back.
    pub fn to_string(&self) -> (text: String)
        ensures
            text@ == base64_text(self@),
            decoded_exactly(text@, 32) == Ok::<Seq<u8>, DecodeError>(self@),
            is_base64_shaped(text@),
            text@.len() == 44,
    {
        proof {
            base64_is_shaped(self.0@);
        }
        base64_encode(self.0.as_slice())
    }

    /// This token with a number in place of its first sixteen bytes.
    pub fn numbered(&self, n: u64) -> (token: Self)
        ensures
            is_numbered_token(self@, n as nat, token@),
    {
        let mut bytes: [u8; 32] = self.0;
        proof {
            pow256_16();
        }
        write_big_endian(n as u128, &mut bytes, 16);
        assert(bytes@.skip(16) =~= self.0@.skip(16));
        UserToken(bytes)
    }

    /// Whether both tokens consist of the same bytes.
    pub fn equals(&self, other: &UserToken) -> (same: bool)
        ensures
            same == (self@ == other@),
    {
        let mut i: usize = 0;
        while i < 32
            invariant
                i <= 32,
                forall|j: int| 0 <= j < i ==> self.0@[j] == other.0@[j],
            decreases 32 - i,
        {
            if self.0[i] != other.0[i] {
                return false;
            }
            i = i + 1;
        }
        assert(self@ =~= other@);
        true
    }
}

/// The number that `bytes` stand for, the first byte being the most significant.
pub open spec fn big_endian(bytes: Seq<u8>) -> nat
    decreases bytes.len(),
{
    if bytes.len() == 0 {
        0
    } else {
        big_endian(bytes.drop_last()) * 256 + bytes.last() as nat
    }
}

/// Byte strings of one length that stand for the same number are the same.
pub proof fn big_endian_is_injective(a: Seq<u8>, b: Seq<u8>)
    requires
        a.len() == b.len(),
        big_endian(a) == big_endian(b),
    ensures
        a == b,
    decreases a.len(),
{
    if a.len() > 0 {
        big_endian_is_injective(a.drop_last(), b.drop_last());
        assert(a =~= a.drop_last().push(a.last()));
        assert(b =~= b.drop_last().push(b.last()));
    }
    assert(a =~= b);
}

/// Whether `bytes` are those of a token with the number `n` in place of its first sixteen.
pub open spec fn is_numbered_token(token: Seq<u8>, n: nat, bytes: Seq<u8>) -> bool {
    &&& bytes.len() == 32
    &&& big_endian(bytes.take(16)) == n
    &&& bytes.skip(16) == token.skip(16)
}

/// A token with one number has one sequence of bytes.
pub proof fn numbered_token_is_unique(token: Seq<u8>, n: nat, a: Seq<u8>, b: Seq<u8>)
    requires
        is_numbered_token(token, n, a),
        is_numbered_token(token, n, b),
    ensures
        a == b,
{
    big_endian_is_injective(a.take(16), b.take(16));
    assert(a =~= a.take(16) + a.skip(16));
    assert(b =~= b.take(16) + b.skip(16));
}

/// The XXH3 hash of a file's data, 128 bits wide.
#[allow(non_camel_case_types)]
#[derive(Debug, Clone, Copy)]
pub struct XXH3_128Hash(pub [u8; 16]);

impl View for XXH3_128Hash {
    type V = u128;

    /// The hash as a number.
    open spec fn view(&self) -> u128 {
        big_endian(self.0@) as u128
    }
}

impl XXH3_128Hash {
    /// The hash that consists of these bytes.
    pub fn new(hash: [u8; 16]) -> (h: Self)
        ensures
            h.0 == hash,
    {
        Self(hash)
    }

    /// The hash of this data.
    pub fn calculate(value: &[u8]) -> (h: Self)
        ensures
            h@ == xxh3_128_of(value@),
    {
        Self::from(xxh3_128(value))
    }

    /// The hash as a number.
    pub fn number(&self) -> (number: u128)
        ensures
            number == self@,
    {
        let ghost bytes = self.0@;
        let mut number: u128 = 0;
        let mut i: usize = 0;
        while i < 16
            invariant
                i <= 16,
                bytes == self.0@,
                number == big_endian(bytes.take(i as int)),
            decreases 16 - i,
        {
            proof {
                let read = bytes.take(i + 1);
                assert(read.drop_last() =~= bytes.take(i as int));
                assert(read.last() == bytes[i as int]);
                big_endian_bound(read);
                pow256_monotonic(read.len(), 16);
                pow256_16();
            }
            number = number * 256 + self.0[i] as u128;
            i = i + 1;
        }
        assert(bytes.take(16) =~= bytes);
        number
    }

    /// Reads a hash from its base64 text. No other text is read as this hash than the
    /// one that `to_string` writes.
    pub fn from_str(s: &str) -> (hash: Result<Self, DecodeError>)
        ensures
            match hash {
                Ok(h) => decoded_exactly(s@, 16) == Ok::<Seq<u8>, DecodeError>(h.0@),
                Err(e) => decoded_exactly(s@, 16) == Err::<Seq<u8>, DecodeError>(e),
            },
            hash is Ok ==> s@ == base64_text(hash->Ok_0.0@),
            hash is Ok <==> is_base64_of(s@, 16),
    {
        match decode_exactly::<16>(s) {
            Ok(bytes) => Ok(Self(bytes)),
            Err(e) => Err(e),
        }
    }

    /// Writes the hash as base64 text, which `from_str` reads back. It is the name
    /// of the file that holds the data.
    pub fn to_string(&self) -> (text: String)
        ensures
            text@ == base64_text(self.0@),
            decoded_exactly(text@, 16) == Ok::<Seq<u8>, DecodeError>(self.0@),
            is_base64_shaped(text@),
            text@.len() == 24,
    {
        proof {
            base64_is_shaped(self.0@);
        }
        base64_encode(self.0.as_slice())
    }
}

impl From<u128> for XXH3_128Hash {
    /// The hash that is this number.
    fn from(value: u128) -> (h: Self)
        ensures
            h@ == value,
    {
        let mut bytes: [u8; 16] = [0u8; 16];
        proof {
            pow256_16();
        }
        write_big_endian(value, &mut bytes, 16);
        assert(bytes@.take(16) =~= bytes@);
        let hash = Self(bytes);
        proof {
            let named = choose|h: XXH3_128Hash| h@ == value;
            assert(hash@ == value);
            hash_is_its_number(hash, named);
            assert(hash.0 =~= named.0);
        }
        hash
    }
}

impl vstd::std_specs::convert::FromSpecImpl<u128> for XXH3_128Hash {
    open spec fn obeys_from_spec() -> bool {
        true
    }

    open spec fn from_spec(value: u128) -> Self {
        choose|h: XXH3_128Hash| h@ == value
    }
}

/// The bytes of a hash stand for a number that fits.
pub proof fn hash_fits_its_number(hash: XXH3_128Hash)
    ensures
        big_endian(hash.0@) <= u128::MAX,
        hash@ == big_endian(hash.0@),
{
    pow256_16();
    big_endian_bound(hash.0@);
}

/// Hashes that are the same number consist of the same bytes.
pub proof fn hash_is_its_number(a: XXH3_128Hash, b: XXH3_128Hash)
    requires
        a@ == b@,
    ensures
        a.0@ == b.0@,
{
    pow256_16();
    big_endian_bound(a.0@);
    big_endian_bound(b.0@);
    big_endian_is_injective(a.0@, b.0@);
}

/// Writes `value` into the first `len` bytes.
fn write_big_endian<const N: usize>(value: u128, bytes: &mut [u8; N], len: usize)
    requires
        len <= N,
        value < pow256(len as nat),
    ensures
        big_endian(final(bytes)@.take(len as int)) == value,
        forall|i: int| len <= i < N ==> final(bytes)@[i] == old(bytes)@[i],
    decreases len,
{
    if len > 0 {
        write_big_endian(value / 256, bytes, len - 1);
        let ghost written = bytes@.take(len - 1);
        bytes[len - 1] = (value % 256) as u8;
        proof {
            let read = bytes@.take(len as int);
            assert(read.drop_last() =~= written);
            assert(read.last() == value % 256);
        }
    }
}

spec fn pow256(n: nat) -> nat
    decreases n,
{
    if n == 0 {
        1
    } else {
        pow256((n - 1) as nat) * 256
    }
}

proof fn pow256_16()
    ensures
        pow256(16) == u128::MAX + 1,
{
    reveal_with_fuel(pow256, 17);
}

proof fn pow256_monotonic(a: nat, b: nat)
    requires
        a <= b,
    ensures
        pow256(a) <= pow256(b),
    decreases b,
{
    if a < b {
        pow256_monotonic(a, (b - 1) as nat);
    }
}

proof fn big_endian_bound(bytes: Seq<u8>)
    ensures
        big_endian(bytes) < pow256(bytes.len()),
    decreases bytes.len(),
{
    if bytes.len() > 0 {
        big_endian_bound(bytes.drop_last());
    }
}

} // verus!
