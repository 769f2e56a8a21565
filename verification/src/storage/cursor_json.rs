//! The JSON text of a persisted cursor.

use crate::framework::breadcrumbs::data_model;
use crate::framework::breadcrumbs::is_specific;
use crate::framework::breadcrumbs::persisted;
use crate::framework::decimal::decimal_text;
use crate::framework::hexcode::hex_encoded;
use crate::framework::hexcode::lower_hex_digit;
use crate::framework::point::PointModel;
use vstd::prelude::*;

verus! {

/// The error of `serde_json`, carried as it is.
#[verifier::external_type_specification]
#[verifier::external_body]
pub struct ExJsonError(serde_json::Error);

/// A text that JSON writes between quotes as it is: it holds no quote, no
/// backslash and no control character.
pub open spec fn is_plain(text: Seq<char>) -> bool {
    forall|i: int|
        0 <= i < text.len() ==> (#[trigger] text[i]) != '"' && text[i] != '\\' && text[i] as u32
            >= 0x20
}

/// Every text of a persisted list is plain.
pub open spec fn all_plain(data: Seq<(u64, Seq<char>)>) -> bool {
    forall|i: int| 0 <= i < data.len() ==> is_plain(#[trigger] data[i].1)
}

/// One entry of a persisted list in JSON: `[slot,"text"]`.
pub open spec fn pair_json(entry: (u64, Seq<char>)) -> Seq<char> {
    seq!['['] + decimal_text(entry.0 as int) + seq![',', '"'] + entry.1 + seq!['"', ']']
}

/// The entries of a persisted list in JSON, with a comma between two.
pub open spec fn pairs_json(data: Seq<(u64, Seq<char>)>) -> Seq<char>
    decreases data.len(),
{
    if data.len() == 0 {
        Seq::empty()
    } else if data.len() == 1 {
        pair_json(data[0])
    } else {
        pairs_json(data.drop_last()) + seq![','] + pair_json(data.last())
    }
}

/// A persisted list of plain texts in JSON: `[[slot,"text"],...]`, without
/// any space.
pub open spec fn cursor_json(data: Seq<(u64, Seq<char>)>) -> Seq<char> {
    seq!['['] + pairs_json(data) + seq![']']
}

/// The persisted list that `serde_json::from_str` reads from a text, if it
/// reads one.
pub uninterp spec fn cursor_of_json(text: Seq<char>) -> Option<Seq<(u64, Seq<char>)>>;

/// `serde_json::to_string` on a list of slot and text pairs. It succeeds:
/// it writes into memory, and lists, pairs, integers and strings raise no
/// error of their own. Where no text needs an escape, the result is the
/// compact JSON array of the pairs, each an array of the slot in decimal
/// and the text between quotes.
#[verifier::external_body]
pub(crate) fn write_cursor_json(data: &Vec<(u64, String)>) -> (r: Result<
    String,
    serde_json::Error,
>)
    ensures
        r is Ok,
        r matches Ok(text) ==> (all_plain(data_model(data@)) ==> text@ == cursor_json(
            data_model(data@),
        )),
{
    serde_json::to_string(data)
}

/// `serde_json::from_str` for a list of slot and text pairs: whether it
/// succeeds, and the list it reads, depend on the text alone.
#[verifier::external_body]
pub(crate) fn read_cursor_json(text: &str) -> (r: Result<Vec<(u64, String)>, serde_json::Error>)
    ensures
        match r {
            Ok(data) => cursor_of_json(text@) == Some(data_model(data@)),
            Err(_) => cursor_of_json(text@) is None,
        },
{
    serde_json::from_str::<Vec<(u64, String)>>(text)
}

/// The `Display` text of a `serde_json::Error`, for the operator to read.
#[verifier::external_body]
pub(crate) fn json_error_text(e: &serde_json::Error) -> String {
    e.to_string()
}

/// Hexadecimal text is plain.
pub proof fn lemma_hex_is_plain(bytes: Seq<u8>)
    ensures
        is_plain(hex_encoded(bytes)),
{
    let text = hex_encoded(bytes);
    assert forall|i: int| 0 <= i < text.len() implies (#[trigger] text[i]) != '"' && text[i]
        != '\\' && text[i] as u32 >= 0x20 by {
        let b = bytes[i / 2];
        let n: u8 = if i % 2 == 0 {
            b / 16
        } else {
            b % 16
        };
        assert(text[i] == lower_hex_digit(n));
    }
}

/// What is persisted of a cursor is plain.
pub proof fn lemma_persisted_is_plain(points: Seq<PointModel>)
    ensures
        all_plain(persisted(points)),
{
    let data = persisted(points);
    assert forall|i: int| 0 <= i < data.len() implies is_plain(#[trigger] data[i].1) by {
        let p = points.filter(is_specific())[i];
        match p {
            PointModel::Specific(_, hash) => {
                lemma_hex_is_plain(hash);
            },
            PointModel::Origin => {},
        }
    }
}

} // verus!
