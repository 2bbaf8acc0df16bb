//! UBX-MON-VER: the versions of the receiver's software and hardware.

use vstd::prelude::*;
use vstd::slice::slice_subrange;
use vstd::string::*;

use crate::cid::UbxCID;
use crate::frame::{UbxFrameDeSerialize, UbxFrameInfo, UbxFramePoll, UbxFrameWithData};

verus! {

pub const CLS: u8 = 0x0A;

pub const ID: u8 = 0x04;

/// Length of the software version field in bytes.
pub const SW_VERSION_LEN: usize = 30;

/// Length of the two version fields together in bytes.
pub const VERSIONS_LEN: usize = 40;

/// Length of one extension field in bytes.
pub const EXTENSION_LEN: usize = 30;

pub struct UbxMonVerPoll {}

impl UbxMonVerPoll {
    /// The request to report the versions.
    pub fn create() -> (frame: UbxFramePoll)
        ensures
            frame.name@ == "UBX-MON-VER-POLL"@,
            frame.cid == UbxCID::new(CLS, ID),
    {
        UbxFramePoll::new("UBX-MON-VER-POLL", UbxCID::new(CLS, ID))
    }
}

/// The versions as text: software, hardware, and one text for each
/// extension field.
#[derive(Debug)]
pub struct MonVer {
    pub sw_version: String,
    pub hw_version: String,
    pub hw_extension: Vec<String>,
}

impl Default for MonVer {
    fn default() -> (data: Self)
        ensures
            data.sw_version@ == Seq::<char>::empty(),
            data.hw_version@ == Seq::<char>::empty(),
            data.hw_extension@ == Seq::<String>::empty(),
    {
        MonVer { sw_version: String::new(), hw_version: String::new(), hw_extension: Vec::new() }
    }
}

/// The text that bytes stand for when they are read as UTF-8 and every
/// sequence that is not valid UTF-8 is replaced by the replacement character
/// U+FFFD.
pub uninterp spec fn utf8_lossy(bytes: Seq<u8>) -> Seq<char>;

/// A text without its NUL characters.
pub open spec fn without_nul(text: Seq<char>) -> Seq<char> {
    text.filter(|c: char| c != '\0')
}

/// The text of a field: its bytes read as UTF-8, without the NUL characters
/// that pad it.
pub open spec fn field_text(bytes: Seq<u8>) -> Seq<char> {
    without_nul(utf8_lossy(bytes))
}

/// What is left of `text` when `key` is taken from its start as often as it
/// stands there. An empty key takes nothing.
pub open spec fn trim_start(text: Seq<char>, key: Seq<char>) -> Seq<char>
    decreases text.len(),
{
    if key.len() > 0 && key.is_prefix_of(text) {
        trim_start(text.skip(key.len() as int), key)
    } else {
        text
    }
}

/// Whether extension `i` is the first one that starts with `key`.
pub open spec fn is_first_with(extensions: Seq<Seq<char>>, key: Seq<char>, i: int) -> bool {
    &&& 0 <= i < extensions.len()
    &&& key.is_prefix_of(extensions[i])
    &&& forall|j: int| 0 <= j < i ==> !key.is_prefix_of(#[trigger] extensions[j])
}

/// The number of extension fields that a payload holds.
pub open spec fn extension_count(data: Seq<u8>) -> nat {
    if data.len() > VERSIONS_LEN {
        ((data.len() - VERSIONS_LEN) / EXTENSION_LEN as int) as nat
    } else {
        0
    }
}

/// The texts of the extension fields of a payload.
pub open spec fn extensions_at(data: Seq<u8>) -> Seq<Seq<char>> {
    Seq::new(
        extension_count(data),
        |i: int|
            field_text(
                data.subrange(
                    VERSIONS_LEN + EXTENSION_LEN * i,
                    VERSIONS_LEN + EXTENSION_LEN * (i + 1),
                ),
            ),
    )
}

/// Whether `data` is a payload of the message: the two version fields, and
/// behind them whole extension fields.
pub open spec fn is_payload(data: Seq<u8>) -> bool {
    &&& data.len() >= VERSIONS_LEN
    &&& (data.len() - VERSIONS_LEN) % (EXTENSION_LEN as int) == 0
}

/// `String::from_utf8_lossy`: the bytes as text, with the replacement
/// character in the place of what is not valid UTF-8. The contract gives
/// the result its name and says nothing more of it.
#[verifier::external_body]
fn lossy_text(data: &[u8]) -> (text: String)
    ensures
        text@ == utf8_lossy(data@),
{
    String::from_utf8_lossy(data).into_owned()
}

/// A text without its NUL characters.
pub fn remove_nul(text: &str) -> (stripped: String)
    ensures
        stripped@ == without_nul(text@),
{
    let len = text.unicode_len();
    let mut stripped = String::new();
    let mut i: usize = 0;
    proof {
        reveal(Seq::filter);
        assert(text@.take(0) =~= Seq::<char>::empty());
    }
    while i < len
        invariant
            i <= len,
            len == text@.len(),
            stripped@ == without_nul(text@.take(i as int)),
        decreases len - i,
    {
        let c = text.get_char(i);
        proof {
            reveal(Seq::filter);
            assert(text@.take(i + 1).drop_last() =~= text@.take(i as int));
            assert(text@.subrange(i as int, i + 1) =~= seq![c]);
            assert(stripped@ + seq![c] =~= stripped@.push(c));
        }
        if c != '\0' {
            stripped.append(text.substring_char(i, i + 1));
        }
        i += 1;
    }
    proof {
        assert(text@.take(len as int) =~= text@);
    }
    stripped
}

/// The versions that the receiver reports.
#[derive(Debug)]
pub struct UbxMonVer {
    frame: UbxFrameWithData<MonVer>,
}

impl UbxMonVer {
    /// The software version, for contracts.
    pub closed spec fn spec_sw_version(&self) -> Seq<char> {
        self.frame.data.sw_version@
    }

    /// The hardware version, for contracts.
    pub closed spec fn spec_hw_version(&self) -> Seq<char> {
        self.frame.data.hw_version@
    }

    /// The texts of the extensions, for contracts.
    pub closed spec fn extensions(&self) -> Seq<Seq<char>> {
        self.frame.data.hw_extension@.map_values(|text: String| text@)
    }

    /// The name of the message, for contracts.
    pub closed spec fn spec_name(&self) -> Seq<char> {
        self.frame.name@
    }

    /// The message without any text, to be filled from an answer.
    pub fn new() -> (message: Self)
        ensures
            message.spec_name() == "UBX-MON-VER"@,
            message.spec_cid() == UbxCID::new(CLS, ID),
            message.spec_sw_version() == Seq::<char>::empty(),
            message.spec_hw_version() == Seq::<char>::empty(),
            message.extensions() == Seq::<Seq<char>>::empty(),
    {
        let message = Self { frame: UbxFrameWithData::new("UBX-MON-VER", UbxCID::new(CLS, ID)) };
        proof {
            assert(message.extensions() =~= Seq::<Seq<char>>::empty());
        }
        message
    }

    pub fn hw_version(&self) -> (text: String)
        ensures
            text@ == self.spec_hw_version(),
    {
        self.frame.data.hw_version.clone()
    }

    pub fn sw_version(&self) -> (text: String)
        ensures
            text@ == self.spec_sw_version(),
    {
        self.frame.data.sw_version.clone()
    }

    /// What follows `key` in the first extension that starts with `key`, or
    /// the empty text where none does. Where the key stands several times at
    /// the start, all of them are taken off.
    pub fn get_info(&self, key: &str) -> (info: String)
        ensures
            forall|i: int|
                is_first_with(self.extensions(), key@, i) ==> info@ == trim_start(
                    #[trigger] self.extensions()[i],
                    key@,
                ),
            (forall|i: int|
                0 <= i < self.extensions().len() ==> !key@.is_prefix_of(
                    #[trigger] self.extensions()[i],
                )) ==> info@ == Seq::<char>::empty(),
    {
        let mut i: usize = 0;
        while i < self.frame.data.hw_extension.len()
            invariant
                i <= self.extensions().len(),
                self.extensions().len() == self.frame.data.hw_extension@.len(),
                forall|j: int| 0 <= j < i ==> !key@.is_prefix_of(#[trigger] self.extensions()[j]),
            decreases self.extensions().len() - i,
        {
            let info = &self.frame.data.hw_extension[i];
            proof {
                assert(self.extensions()[i as int] == info@);
            }
            if starts_with(info.as_str(), key) {
                let result = trim_start_matches(info.as_str(), key);
                proof {
                    assert(is_first_with(self.extensions(), key@, i as int));
                }
                return result;
            }
            i += 1;
        }
        String::new()
    }

    /// The text of extension `index`, or the empty text where there is no
    /// such extension.
    pub fn get_ext(&self, index: usize) -> (text: String)
        ensures
            index < self.extensions().len() ==> text@ == self.extensions()[index as int],
            index >= self.extensions().len() ==> text@ == Seq::<char>::empty(),
    {
        if index < self.frame.data.hw_extension.len() {
            let result = self.frame.data.hw_extension[index].clone();
            return result;
        }
        String::new()
    }

    /// Reads the versions from a payload. The extensions are added behind
    /// those that the message holds already.
    pub fn load(&mut self, data: &[u8])
        requires
            is_payload(data@),
        ensures
            final(self).spec_name() == old(self).spec_name(),
            final(self).spec_cid() == old(self).spec_cid(),
            final(self).spec_sw_version() == field_text(data@.subrange(0, SW_VERSION_LEN as int)),
            final(self).spec_hw_version() == field_text(
                data@.subrange(SW_VERSION_LEN as int, VERSIONS_LEN as int),
            ),
            final(self).extensions() == old(self).extensions() + extensions_at(data@),
    {
        let bytes = data.len();

        self.frame.data.sw_version = UbxMonVer::extract_string(slice_subrange(data, 0, 30));
        self.frame.data.hw_version = UbxMonVer::extract_string(slice_subrange(data, 30, 40));

        if bytes > 40 {
            let mut offset: usize = 40;
            let size: usize = 30;
            let ghost mut count: int = 0;
            while offset < bytes
                invariant
                    bytes == data@.len(),
                    size == 30,
                    offset == 40 + 30 * count,
                    0 <= count <= extension_count(data@),
                    offset <= bytes,
                    (bytes - 40) % 30 == 0,
                    bytes > 40,
                    self.spec_name() == old(self).spec_name(),
                    self.spec_cid() == old(self).spec_cid(),
                    self.spec_sw_version() == field_text(data@.subrange(0, 30)),
                    self.spec_hw_version() == field_text(data@.subrange(30, 40)),
                    self.extensions() == old(self).extensions() + extensions_at(data@).take(count),
                decreases bytes - offset,
            {
                let text = UbxMonVer::extract_string(slice_subrange(data, offset, offset + size));
                proof {
                    assert(count < extension_count(data@));
                    assert(text@ == extensions_at(data@)[count]);
                    assert(self.frame.data.hw_extension@.push(text).map_values(
                        |text: String| text@,
                    ) =~= self.extensions().push(text@));
                    assert((old(self).extensions() + extensions_at(data@).take(count)).push(text@)
                        =~= old(self).extensions() + extensions_at(data@).take(count + 1));
                    count = count + 1;
                }
                self.frame.data.hw_extension.push(text);

                offset += size;
            }
            proof {
                assert(extensions_at(data@).take(count) =~= extensions_at(data@));
            }
        } else {
            proof {
                assert(old(self).extensions() + extensions_at(data@) =~= old(self).extensions());
            }
        }
    }

    /// The text of a field. Version texts are padded with zero bytes, which
    /// are taken out.
    pub fn extract_string(data: &[u8]) -> (text: String)
        ensures
            text@ == field_text(data@),
    {
        let raw = lossy_text(data);
        remove_nul(raw.as_str())
    }
}

/// Whether `text` starts with `key`.
pub fn starts_with(text: &str, key: &str) -> (starts: bool)
    ensures
        starts == key@.is_prefix_of(text@),
{
    let n = key.unicode_len();
    if n > text.unicode_len() {
        return false;
    }
    let head = String::from_str(text.substring_char(0, n));
    let wanted = String::from_str(key);
    proof {
        assert(key@.is_prefix_of(text@) <==> text@.subrange(0, n as int) =~= key@);
    }
    head == wanted
}

/// What is left of `text` when `key` is taken from its start as often as it
/// stands there.
pub fn trim_start_matches(text: &str, key: &str) -> (rest: String)
    ensures
        rest@ == trim_start(text@, key@),
{
    let n = key.unicode_len();
    let mut rest = text;
    if n > 0 {
        while starts_with(rest, key)
            invariant
                n == key@.len(),
                n > 0,
                trim_start(rest@, key@) == trim_start(text@, key@),
            decreases rest@.len(),
        {
            let len = rest.unicode_len();
            proof {
                assert(rest@.subrange(n as int, len as int) =~= rest@.skip(n as int));
            }
            rest = rest.substring_char(n, len);
        }
    }
    String::from_str(rest)
}

impl UbxFrameInfo for UbxMonVer {
    closed spec fn spec_cid(&self) -> UbxCID {
        self.frame.cid
    }

    fn name(&self) -> (name: &'static str)
        ensures
            name@ == self.spec_name(),
    {
        self.frame.name()
    }

    fn cid(&self) -> (cid: UbxCID) {
        self.frame.cid()
    }
}

impl UbxFrameDeSerialize for UbxMonVer {
    open spec fn accepts(&self, data: Seq<u8>) -> bool {
        is_payload(data)
    }

    fn can_load(&self, data: &[u8]) -> (ok: bool) {
        let bytes = data.len();
        bytes >= 40 && (bytes - 40) % 30 == 0
    }

    /// The two versions are the texts of the first two fields of `data`, and
    /// the texts of its extension fields stand behind those that the message
    /// held before; name and identifier stay.
    open spec fn filled_from(&self, before: &Self, data: Seq<u8>) -> bool {
        &&& self.spec_name() == before.spec_name()
        &&& self.spec_cid() == before.spec_cid()
        &&& self.spec_sw_version() == field_text(data.subrange(0, SW_VERSION_LEN as int))
        &&& self.spec_hw_version() == field_text(
            data.subrange(SW_VERSION_LEN as int, VERSIONS_LEN as int),
        )
        &&& self.extensions() == before.extensions() + extensions_at(data)
    }

    /// Reads the versions from a payload, as `load` does.
    fn from_bin(&mut self, data: &[u8]) {
        self.load(data);
    }
}

} // verus!
