//! Message identifier: the class and id bytes that name a UBX message type.

use vstd::prelude::*;
use vstd::string::*;

verus! {

/// Class/id pair of a UBX message. It is both the wire field of a frame and
/// the key by which frames are filtered and acknowledgements are matched.
#[derive(Clone, Copy, Debug, Hash, PartialEq, Eq, Structural)]
pub struct UbxCID {
    cls: u8,
    id: u8,
}

/// One hexadecimal digit in lower case. Only the low four bits of `nibble`
/// are meant to be set.
pub open spec fn hex_digit(nibble: u8) -> Seq<char> {
    if nibble == 0 {
        "0"@
    } else if nibble == 1 {
        "1"@
    } else if nibble == 2 {
        "2"@
    } else if nibble == 3 {
        "3"@
    } else if nibble == 4 {
        "4"@
    } else if nibble == 5 {
        "5"@
    } else if nibble == 6 {
        "6"@
    } else if nibble == 7 {
        "7"@
    } else if nibble == 8 {
        "8"@
    } else if nibble == 9 {
        "9"@
    } else if nibble == 10 {
        "a"@
    } else if nibble == 11 {
        "b"@
    } else if nibble == 12 {
        "c"@
    } else if nibble == 13 {
        "d"@
    } else if nibble == 14 {
        "e"@
    } else {
        "f"@
    }
}

/// A byte as two hexadecimal digits, high nibble first.
pub open spec fn hex_byte(byte: u8) -> Seq<char> {
    hex_digit(byte / 16) + hex_digit(byte % 16)
}

/// The text form of an identifier: `CID: 0xCC 0xII`.
pub open spec fn cid_text(cls: u8, id: u8) -> Seq<char> {
    "CID: 0x"@ + hex_byte(cls) + " 0x"@ + hex_byte(id)
}

fn hex_digit_str(nibble: u8) -> (digit: &'static str)
    ensures
        digit@ == hex_digit(nibble),
{
    if nibble == 0 {
        "0"
    } else if nibble == 1 {
        "1"
    } else if nibble == 2 {
        "2"
    } else if nibble == 3 {
        "3"
    } else if nibble == 4 {
        "4"
    } else if nibble == 5 {
        "5"
    } else if nibble == 6 {
        "6"
    } else if nibble == 7 {
        "7"
    } else if nibble == 8 {
        "8"
    } else if nibble == 9 {
        "9"
    } else if nibble == 10 {
        "a"
    } else if nibble == 11 {
        "b"
    } else if nibble == 12 {
        "c"
    } else if nibble == 13 {
        "d"
    } else if nibble == 14 {
        "e"
    } else {
        "f"
    }
}

impl UbxCID {
    /// The identifier with the given bytes, for contracts.
    pub closed spec fn spec_new(cls: u8, id: u8) -> Self {
        Self { cls: cls, id: id }
    }

    #[verifier::when_used_as_spec(spec_new)]
    pub fn new(cls: u8, id: u8) -> (cid: Self)
        ensures
            cid == Self::spec_new(cls, id),
            cid.spec_cls() == cls,
            cid.spec_id() == id,
    {
        Self { cls: cls, id: id }
    }

    /// The class byte, for contracts.
    pub closed spec fn spec_cls(&self) -> u8 {
        self.cls
    }

    /// The id byte, for contracts.
    pub closed spec fn spec_id(&self) -> u8 {
        self.id
    }

    #[verifier::when_used_as_spec(spec_cls)]
    pub fn cls(&self) -> (cls: u8)
        ensures
            cls == self.spec_cls(),
    {
        self.cls
    }

    #[verifier::when_used_as_spec(spec_id)]
    pub fn id(&self) -> (id: u8)
        ensures
            id == self.spec_id(),
    {
        self.id
    }

    /// The identifier packed into sixteen bits, class byte high.
    pub open spec fn spec_key(&self) -> u16 {
        (self.cls() * 256 + self.id()) as u16
    }

    /// The identifier packed into sixteen bits, class byte high. Distinct
    /// identifiers have distinct keys.
    #[verifier::when_used_as_spec(spec_key)]
    pub fn key(&self) -> (key: u16)
        ensures
            key == self.spec_key(),
    {
        let cls: u16 = self.cls as u16;
        let id: u16 = self.id as u16;
        cls * 256 + id
    }

    /// The identifier as text, `CID: 0xCC 0xII` with lower-case hexadecimal
    /// digits.
    pub fn to_string(&self) -> (text: String)
        ensures
            text@ == cid_text(self.cls(), self.id()),
    {
        let mut text = String::from_str("CID: 0x");
        text.append(hex_digit_str(self.cls / 16));
        text.append(hex_digit_str(self.cls % 16));
        text.append(" 0x");
        text.append(hex_digit_str(self.id / 16));
        text.append(hex_digit_str(self.id % 16));
        proof {
            assert(text@ =~= cid_text(self.cls(), self.id()));
        }
        text
    }
}

impl Default for UbxCID {
    fn default() -> (cid: Self)
        ensures
            cid.cls() == 0,
            cid.id() == 0,
    {
        Self { cls: 0, id: 0 }
    }
}

/// An identifier made of two bytes has these bytes.
pub broadcast proof fn lemma_cid_new(cls: u8, id: u8)
    ensures
        (#[trigger] UbxCID::spec_new(cls, id)).spec_cls() == cls,
        UbxCID::spec_new(cls, id).spec_id() == id,
{
}

/// An identifier is made of its two bytes.
pub proof fn lemma_cid_parts(cid: UbxCID)
    ensures
        UbxCID::spec_new(cid.spec_cls(), cid.spec_id()) == cid,
{
}

/// Two identifiers are equal exactly when both bytes are, and exactly when
/// their keys are.
pub proof fn lemma_cid_equality(a: UbxCID, b: UbxCID)
    ensures
        (a == b) <==> (a.cls() == b.cls() && a.id() == b.id()),
        (a == b) <==> (a.key() == b.key()),
{
}

} // verus!
