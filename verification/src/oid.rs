use vstd::prelude::*;

verus! {

/// A character is a hexadecimal digit: `0-9`, `a-f` or `A-F`.
pub open spec fn is_hex_digit(c: char) -> bool {
    ||| 48 <= c as u32 && c as u32 <= 57
    ||| 97 <= c as u32 && c as u32 <= 102
    ||| 65 <= c as u32 && c as u32 <= 70
}

/// The numeric value of a hexadecimal digit.
pub open spec fn hex_digit_value(c: char) -> u8 {
    if 48 <= c as u32 && c as u32 <= 57 {
        (c as u32 - 48) as u8
    } else if 97 <= c as u32 && c as u32 <= 102 {
        (c as u32 - 87) as u8
    } else {
        (c as u32 - 55) as u8
    }
}

/// A well-formed textual identifier: exactly 24 hexadecimal digits,
/// the hex encoding of a 12-byte storage-engine identifier.
pub open spec fn valid_oid_hex(s: Seq<char>) -> bool {
    s.len() == 24 && (forall|i: int| 0 <= i < s.len() ==> is_hex_digit(#[trigger] s[i]))
}

/// The 12 bytes a well-formed textual identifier denotes: each byte is
/// one pair of hexadecimal digits, high digit first.
pub open spec fn decode_oid(s: Seq<char>) -> Seq<u8> {
    Seq::new(12, |i: int| (hex_digit_value(s[2 * i]) * 16 + hex_digit_value(s[2 * i + 1])) as u8)
}

/// Relies on `bson::oid::ObjectId::parse_str` (re-exported by the
/// `mongodb` crate) and `ObjectId::bytes`: `parse_str` hex-decodes the
/// string and accepts exactly the strings of 24 hexadecimal digits;
/// `bytes` hands back the 12 decoded bytes.
#[verifier::external_body]
fn parse_oid_bytes(s: &str) -> (r: Option<[u8; 12]>)
    ensures
        r is Some <==> valid_oid_hex(s@),
        (r matches Some(b) ==> b@ == decode_oid(s@)),
{
    match mongodb::bson::oid::ObjectId::parse_str(s) {
        Ok(oid) => Some(oid.bytes()),
        Err(_) => None,
    }
}

/// A record identifier in the storage engine's native form: 12 raw bytes.
#[derive(Clone, Copy, Debug)]
pub struct UserId {
    bytes: [u8; 12],
}

impl View for UserId {
    type V = Seq<u8>;

    closed spec fn view(&self) -> Seq<u8> {
        self.bytes@
    }
}

impl UserId {
    /// Wraps raw identifier bytes.
    pub fn from_bytes(bytes: [u8; 12]) -> (r: UserId)
        ensures
            r@ == bytes@,
    {
        UserId { bytes }
    }

    /// Parses the textual form of an identifier: accepts exactly the
    /// strings of 24 hexadecimal digits and yields the decoded bytes.
    pub fn parse_str(s: &str) -> (r: Option<UserId>)
        ensures
            r is Some <==> valid_oid_hex(s@),
            (r matches Some(id) ==> id@ == decode_oid(s@)),
    {
        match parse_oid_bytes(s) {
            Some(b) => Some(UserId { bytes: b }),
            None => None,
        }
    }

    /// The raw bytes of the identifier.
    pub fn to_bytes(&self) -> (r: [u8; 12])
        ensures
            r@ == self@,
    {
        self.bytes
    }

    /// Two identifiers are equal exactly when their bytes are.
    pub fn eq_id(&self, other: &UserId) -> (r: bool)
        ensures
            r == (self@ == other@),
    {
        let mut i: usize = 0;
        while i < 12
            invariant
                i <= 12,
                forall|j: int| 0 <= j < i ==> self@[j] == other@[j],
            decreases 12 - i,
        {
            if self.bytes[i] != other.bytes[i] {
                return false;
            }
            i += 1;
        }
        proof {
            assert(self@ =~= other@);
        }
        true
    }
}

} // verus!
