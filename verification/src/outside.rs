//! The values of other crates and of `std` that callers hand to this
//! library, and what is taken on trust about them. Nothing here is proved:
//! each contract restates what the named function is documented or written
//! to do.
use vstd::prelude::*;
use vstd::utf8::{decode_utf8, valid_utf8};
use non_blank_string_rs::NonBlankString;
use std::collections::HashMap;
use std::path::PathBuf;

verus! {

/// `non_blank_string_rs::NonBlankString`: a string that is not empty. Its
/// text is read through `text_of`.
#[verifier::external_type_specification]
#[verifier::external_body]
pub struct ExNonBlankString(NonBlankString);

/// `std::path::PathBuf`: a path, of which only the displayed form is read.
#[verifier::external_type_specification]
#[verifier::external_body]
pub struct ExPathBuf(PathBuf);

/// `std::string::FromUtf8Error`: why bytes are not UTF-8. It is carried,
/// never read.
#[verifier::external_type_specification]
#[verifier::external_body]
pub struct ExFromUtf8Error(std::string::FromUtf8Error);

/// `std::io::Error`: why a process could not be started. It is carried,
/// never read.
#[verifier::external_type_specification]
#[verifier::external_body]
pub struct ExIoError(std::io::Error);

/// `String::push` appends exactly one character and leaves the rest as it
/// was.
pub assume_specification[ String::push ](s: &mut String, ch: char)
    ensures
        final(s)@ == old(s)@.push(ch),
;

/// `String::from_utf8` succeeds exactly on UTF-8 and then holds the
/// characters that the bytes encode.
pub assume_specification[ String::from_utf8 ](bytes: Vec<u8>) -> (decoded: Result<
    String,
    std::string::FromUtf8Error,
>)
    ensures
        decoded is Ok <==> valid_utf8(bytes@),
        decoded matches Ok(text) ==> text@ == decode_utf8(bytes@),
;

/// The text that a `NonBlankString` holds.
pub uninterp spec fn non_blank_text(s: NonBlankString) -> Seq<char>;

/// The text that `Path::display` shows for a path.
pub uninterp spec fn path_display(p: PathBuf) -> Seq<char>;

/// The entries of a map of overrides, each key by the text it holds.
pub uninterp spec fn override_entries(m: HashMap<NonBlankString, String>) -> Map<
    Seq<char>,
    Seq<char>,
>;

/// `pairs` lists every entry of `entries` exactly once, in some order.
pub open spec fn lists_entries(
    pairs: Seq<(Seq<char>, Seq<char>)>,
    entries: Map<Seq<char>, Seq<char>>,
) -> bool {
    &&& entries.dom().finite()
    &&& pairs.len() == entries.dom().len()
    &&& forall|i: int|
        0 <= i < pairs.len() ==> entries.contains_pair((#[trigger] pairs[i]).0, pairs[i].1)
    &&& forall|i: int, j: int|
        0 <= i < j < pairs.len() ==> (#[trigger] pairs[i]).0 != (#[trigger] pairs[j]).0
    &&& forall|k: Seq<char>|
        entries.dom().contains(k) ==> exists|i: int|
            0 <= i < pairs.len() && (#[trigger] pairs[i]).0 == k
}

/// The views of a list of pairs of strings.
pub open spec fn pair_texts(pairs: Seq<(String, String)>) -> Seq<(Seq<char>, Seq<char>)> {
    Seq::new(pairs.len(), |i: int| (pairs[i].0@, pairs[i].1@))
}

/// `NonBlankString::as_ref`: the text held. It is never empty, because the
/// type can only be made from a string of at least one byte.
#[verifier::external_body]
pub(crate) fn text_of(s: &NonBlankString) -> (text: &str)
    ensures
        text@ == non_blank_text(*s),
        text@.len() > 0,
{
    s.as_ref()
}

/// `Path::display`, written out as a string.
#[verifier::external_body]
pub(crate) fn display_of(p: &PathBuf) -> (text: String)
    ensures
        text@ == path_display(*p),
{
    p.display().to_string()
}

/// `HashMap::iter`: every entry once, in an order that the map chooses and
/// that may differ from one call to the next. Keys are equal exactly when
/// their texts are, so no text occurs twice.
#[verifier::external_body]
pub(crate) fn override_pairs(m: &HashMap<NonBlankString, String>) -> (pairs: Vec<(String, String)>)
    ensures
        lists_entries(pair_texts(pairs@), override_entries(*m)),
{
    m.iter().map(|(k, v)| (AsRef::<str>::as_ref(k).to_owned(), v.clone())).collect()
}

} // verus!
