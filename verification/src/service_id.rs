//! The textual form of a v3 onion service's public key.

use vstd::prelude::*;
use vstd::string::*;
use crate::error::Error;

verus! {

/// The number of characters of a service id.
pub const V3_ONION_SERVICE_ID_LENGTH: usize = 56;

/// Whether `c` belongs to the lower-case base32 alphabet.
pub open spec fn is_base32_char(c: char) -> bool {
    ('a' <= c && c <= 'z') || ('2' <= c && c <= '7')
}

/// Whether `text` has the shape of a service id: 56 characters of the
/// lower-case base32 alphabet.
pub open spec fn is_service_id_text(text: Seq<char>) -> bool {
    &&& text.len() == V3_ONION_SERVICE_ID_LENGTH
    &&& forall|i: int| 0 <= i < text.len() ==> is_base32_char(#[trigger] text[i])
}

/// A service id is made of ASCII characters only.
pub proof fn lemma_service_id_text_is_ascii(text: Seq<char>)
    requires
        is_service_id_text(text),
    ensures
        vstd::utf8::is_ascii_chars(text),
{
    assert forall|i: int| 0 <= i < text.len() implies '\0' <= #[trigger] text[i] <= '\u{7f}' by {
        assert(is_base32_char(text[i]));
    }
}

/// The 56-character textual form of a v3 onion service's public key. Two
/// service ids are the same when their texts are.
#[derive(Debug)]
pub struct GoslingV3OnionServiceId {
    text: String,
}

impl View for GoslingV3OnionServiceId {
    type V = Seq<char>;

    closed spec fn view(&self) -> Seq<char> {
        self.text@
    }
}

impl GoslingV3OnionServiceId {
    /// What holds of every service id: its text has the shape that
    /// `is_service_id_text` describes.
    #[verifier::type_invariant]
    pub open spec fn well_formed(self) -> bool {
        is_service_id_text(self@)
    }

    /// Whether `text` has the shape of a service id.
    pub fn is_valid(text: &str) -> (valid: bool)
        ensures
            valid == is_service_id_text(text@),
    {
        if !text.is_ascii() {
            proof {
                if is_service_id_text(text@) {
                    lemma_service_id_text_is_ascii(text@);
                }
            }
            return false;
        }
        proof {
            vstd::utf8::is_ascii_chars_encode_utf8(text@);
        }
        let bytes = text.as_bytes();
        if bytes.len() != V3_ONION_SERVICE_ID_LENGTH {
            return false;
        }
        let mut i: usize = 0;
        while i < V3_ONION_SERVICE_ID_LENGTH
            invariant
                i <= V3_ONION_SERVICE_ID_LENGTH,
                bytes@.len() == V3_ONION_SERVICE_ID_LENGTH,
                text@.len() == bytes@.len(),
                forall|j: int| 0 <= j < text@.len() ==> text@[j] as u8 == #[trigger] bytes@[j],
                forall|j: int| 0 <= j < text@.len() ==> '\0' <= #[trigger] text@[j] <= '\u{7f}',
                forall|j: int| 0 <= j < i ==> is_base32_char(#[trigger] text@[j]),
            decreases V3_ONION_SERVICE_ID_LENGTH - i,
        {
            let b = bytes[i];
            let lower = 0x61 <= b && b <= 0x7a;
            let digit = 0x32 <= b && b <= 0x37;
            assert(text@[i as int] as u8 == bytes@[i as int]);
            assert('\0' <= text@[i as int] <= '\u{7f}');
            if !(lower || digit) {
                assert(!is_base32_char(text@[i as int]));
                return false;
            }
            assert(is_base32_char(text@[i as int]));
            i += 1;
        }
        true
    }

    /// Reads a service id from its text. Fails with `BadArgument` when the
    /// text does not have the shape of a service id.
    pub fn from_string(text: &str) -> (id: Result<GoslingV3OnionServiceId, Error>)
        ensures
            id is Ok <==> is_service_id_text(text@),
            id matches Ok(service_id) ==> service_id@ == text@,
            id matches Err(e) ==> e == Error::BadArgument,
    {
        if Self::is_valid(text) {
            Ok(GoslingV3OnionServiceId { text: text.to_owned() })
        } else {
            Err(Error::BadArgument)
        }
    }

    /// The text of this service id.
    pub fn to_string(&self) -> (text: String)
        ensures
            text@ == self@,
    {
        self.text.clone()
    }

    /// The text of this service id.
    pub fn as_str(&self) -> (text: &str)
        ensures
            text@ == self@,
    {
        self.text.as_str()
    }

    /// Whether two service ids are the same.
    pub fn same(&self, other: &GoslingV3OnionServiceId) -> (same: bool)
        ensures
            same == (self@ == other@),
    {
        self.text == other.text
    }
}

impl Clone for GoslingV3OnionServiceId {
    /// A copy of this service id, with the same text.
    fn clone(&self) -> (copy: GoslingV3OnionServiceId)
        ensures
            copy@ == self@,
    {
        proof {
            use_type_invariant(self);
        }
        GoslingV3OnionServiceId { text: self.text.clone() }
    }
}

} // verus!
