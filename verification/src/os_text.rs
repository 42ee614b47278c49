//! Paths and command arguments as the operating system has them: bytes that
//! need not be UTF-8.

use vstd::prelude::*;
use vstd::utf8::{decode_utf8, encode_utf8, valid_utf8};

verus! {

/// What `String::from_utf8_lossy` of the standard library makes of `bytes`.
pub uninterp spec fn lossy_text(bytes: Seq<u8>) -> Seq<char>;

/// Calls `String::from_utf8_lossy`. The result depends on the bytes alone, and
/// bytes that are UTF-8 come out as the text that they encode; what stands for
/// bytes that are not is left to the name `lossy_text`.
#[verifier::external_body]
pub(crate) fn decode_lossy(bytes: &[u8]) -> (result: String)
    ensures
        result@ == lossy_text(bytes@),
        valid_utf8(bytes@) ==> result@ == decode_utf8(bytes@),
{
    String::from_utf8_lossy(bytes).into_owned()
}

/// Bytes as text for display: the text that they encode when they are UTF-8,
/// else what the standard library makes of them.
pub open spec fn displayed(bytes: Seq<u8>) -> Seq<char> {
    if valid_utf8(bytes) {
        decode_utf8(bytes)
    } else {
        lossy_text(bytes)
    }
}

/// What the error of `String::from_utf8` of the standard library says of `bytes`
/// that are not UTF-8.
pub uninterp spec fn utf8_complaint(bytes: Seq<u8>) -> Seq<char>;

/// Calls `String::from_utf8`, which hands out the text that the bytes encode
/// when they are UTF-8, and an error when they are not. The error is taken by what
/// it says, which depends on the bytes alone; the words are left to the name
/// `utf8_complaint`.
#[verifier::external_body]
pub(crate) fn decode_strict(bytes: Vec<u8>) -> (result: Result<String, String>)
    ensures
        result is Ok <==> valid_utf8(bytes@),
        result matches Ok(text) ==> text@ == decode_utf8(bytes@),
        result matches Err(complaint) ==> complaint@ == utf8_complaint(bytes@),
{
    match String::from_utf8(bytes) {
        Ok(text) => Ok(text),
        Err(error) => Err(error.to_string()),
    }
}

/// The byte that separates the components of a path.
pub const SEPARATOR: u8 = 0x2f;

/// The path `tail`, taken from the directory `base`: `tail` itself when it is
/// absolute, else the two with one separator between them.
pub open spec fn path_joined(base: Seq<u8>, tail: Seq<u8>) -> Seq<u8> {
    if tail.len() > 0 && tail.first() == SEPARATOR {
        tail
    } else if base.len() == 0 || base.last() == SEPARATOR {
        base + tail
    } else {
        base.push(SEPARATOR) + tail
    }
}

/// A path or an argument of a command.
#[derive(Debug, PartialEq, Eq)]
pub struct OsText {
    bytes: Vec<u8>,
}

impl View for OsText {
    type V = Seq<u8>;

    closed spec fn view(&self) -> Seq<u8> {
        self.bytes@
    }
}

impl DeepView for OsText {
    type V = Seq<u8>;

    open spec fn deep_view(&self) -> Seq<u8> {
        self@
    }
}

impl Clone for OsText {
    fn clone(&self) -> (result: Self)
        ensures
            result@ == self@,
    {
        OsText { bytes: self.bytes.clone() }
    }
}

impl OsText {
    /// The text made of the given bytes.
    pub fn from_bytes(bytes: Vec<u8>) -> (result: OsText)
        ensures
            result@ == bytes@,
    {
        OsText { bytes }
    }

    /// The UTF-8 encoding of `text`.
    pub fn from_text(text: &str) -> (result: OsText)
        ensures
            result@ == encode_utf8(text@),
    {
        OsText { bytes: text.as_bytes_vec() }
    }

    /// The bytes of the text.
    pub fn into_bytes(self) -> (result: Vec<u8>)
        ensures
            result@ == self@,
    {
        self.bytes
    }

    /// The text for display, with replacement characters for what is not UTF-8.
    pub fn to_text(&self) -> (result: String)
        ensures
            result@ == displayed(self@),
    {
        decode_lossy(self.bytes.as_slice())
    }

    /// The path `tail` taken from this directory.
    pub fn join(&self, tail: &str) -> (result: OsText)
        ensures
            result@ == path_joined(self@, encode_utf8(tail@)),
    {
        let mut end = tail.as_bytes_vec();
        if end.len() > 0 && end[0] == SEPARATOR {
            return OsText { bytes: end };
        }
        let mut bytes = self.bytes.clone();
        if bytes.len() > 0 && bytes[bytes.len() - 1] != SEPARATOR {
            bytes.push(SEPARATOR);
        }
        bytes.append(&mut end);
        OsText { bytes }
    }
}

/// The UTF-8 encodings of a list of texts.
pub open spec fn encoded(texts: Seq<Seq<char>>) -> Seq<Seq<u8>> {
    texts.map_values(|t: Seq<char>| encode_utf8(t))
}

/// The UTF-8 encodings of a list of texts.
pub fn encode_all(texts: &[String]) -> (result: Vec<OsText>)
    ensures
        result.deep_view() == encoded(texts.deep_view()),
{
    let mut result: Vec<OsText> = Vec::new();
    for i in 0..texts.len()
        invariant
            result.len() == i,
            forall|j: int| 0 <= j < i ==> (#[trigger] result[j])@ == encode_utf8(texts[j]@),
    {
        result.push(OsText::from_text(texts[i].as_str()));
    }
    assert(result.deep_view() =~= encoded(texts.deep_view()));
    result
}

/// A copy of a list of arguments.
pub fn copy_args(list: &Vec<OsText>) -> (result: Vec<OsText>)
    ensures
        result.deep_view() == list.deep_view(),
{
    let mut result: Vec<OsText> = Vec::new();
    for i in 0..list.len()
        invariant
            result.len() == i,
            forall|j: int| 0 <= j < i ==> (#[trigger] result[j])@ == list[j]@,
    {
        result.push(list[i].clone());
    }
    assert(result.deep_view() =~= list.deep_view());
    result
}

} // verus!
