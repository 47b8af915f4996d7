//! The detail record of one vehicle, as the site's JSON endpoint gives it.
//!
//! The record is parsed by `serde_json`. The library reads six members out of
//! it, as plain text: five as strings, the price as it is written in JSON.

use vstd::prelude::*;
use crate::error::CrawlError;

verus! {

/// Whether `serde_json` accepts `body` as a JSON document.
pub uninterp spec fn json_accepted(body: Seq<u8>) -> bool;

/// The string that the document `body` holds under `key`: `None` where the
/// document is no object, has no such member, or the member is no string.
pub uninterp spec fn json_member_text(body: Seq<u8>, key: Seq<char>) -> Option<Seq<char>>;

/// The JSON text of what the document `body` holds under `key`; that of
/// `null` where the document is no object or has no such member.
pub uninterp spec fn json_member_rendered(body: Seq<u8>, key: Seq<char>) -> Seq<char>;

/// One member of a JSON document, read both ways.
#[derive(Clone, Debug, PartialEq, Eq)]
pub struct Member {
    /// The member as a string, if it is one.
    pub text: Option<String>,
    /// The member as JSON text.
    pub rendered: String,
}

/// What a `Member` holds.
pub struct MemberView {
    pub text: Option<Seq<char>>,
    pub rendered: Seq<char>,
}

impl View for Member {
    type V = MemberView;

    open spec fn view(&self) -> MemberView {
        MemberView {
            text: match self.text {
                Some(text) => Some(text@),
                None => None,
            },
            rendered: self.rendered@,
        }
    }
}

/// What the site says of one vehicle.
#[derive(Clone, Debug, PartialEq, Eq)]
pub struct VehicleDetail {
    pub year: String,
    pub make: String,
    pub model: String,
    pub trim: String,
    /// The price as the record writes it: a JSON number, a quoted JSON
    /// string, or `null`.
    pub price: String,
    /// Where the vehicle's detail page is; empty if the record does not say.
    pub detail_page_url: String,
}

/// What a `VehicleDetail` holds.
pub struct VehicleDetailView {
    pub year: Seq<char>,
    pub make: Seq<char>,
    pub model: Seq<char>,
    pub trim: Seq<char>,
    pub price: Seq<char>,
    pub detail_page_url: Seq<char>,
}

impl View for VehicleDetail {
    type V = VehicleDetailView;

    open spec fn view(&self) -> VehicleDetailView {
        VehicleDetailView {
            year: self.year@,
            make: self.make@,
            model: self.model@,
            trim: self.trim@,
            price: self.price@,
            detail_page_url: self.detail_page_url@,
        }
    }
}

pub const YEAR_KEY: &'static str = "year";

pub const MAKE_KEY: &'static str = "make";

pub const MODEL_KEY: &'static str = "model";

pub const TRIM_KEY: &'static str = "trim";

pub const PRICE_KEY: &'static str = "displayPrice";

pub const URL_KEY: &'static str = "vdp_url";

/// The text of a member, empty where there is none.
pub open spec fn text_or_empty(text: Option<Seq<char>>) -> Seq<char> {
    match text {
        Some(text) => text,
        None => Seq::empty(),
    }
}

/// The detail that six members make up.
pub open spec fn detail_of_members(
    year: MemberView,
    make: MemberView,
    model: MemberView,
    trim: MemberView,
    price: MemberView,
    url: MemberView,
) -> VehicleDetailView {
    VehicleDetailView {
        year: text_or_empty(year.text),
        make: text_or_empty(make.text),
        model: text_or_empty(model.text),
        trim: text_or_empty(trim.text),
        price: price.rendered,
        detail_page_url: text_or_empty(url.text),
    }
}

/// The member of the document `body` under `key`.
pub open spec fn member_of(body: Seq<u8>, key: Seq<char>) -> MemberView {
    MemberView { text: json_member_text(body, key), rendered: json_member_rendered(body, key) }
}

/// The detail that a record holds, or `None` where it is no JSON document.
pub open spec fn detail_in(body: Seq<u8>) -> Option<VehicleDetailView> {
    if json_accepted(body) {
        Some(
            detail_of_members(
                member_of(body, YEAR_KEY@),
                member_of(body, MAKE_KEY@),
                member_of(body, MODEL_KEY@),
                member_of(body, TRIM_KEY@),
                member_of(body, PRICE_KEY@),
                member_of(body, URL_KEY@),
            ),
        )
    } else {
        None
    }
}

/// Parses `body` with `serde_json::from_slice` into a `serde_json::Value`
/// and reads each of `keys` off it: by index and `Value::as_str` for the
/// text, by index and `to_string` for the JSON text.
///
/// Trusted: the result is `None` exactly when the document is refused, and
/// otherwise holds, key by key, what `json_member_text` and
/// `json_member_rendered` name.
#[verifier::external_body]
pub(crate) fn read_members(body: &[u8], keys: &Vec<&'static str>) -> (members: Option<Vec<Member>>)
    ensures
        members is Some <==> json_accepted(body@),
        members matches Some(found) ==> found@.len() == keys@.len() && forall|i: int|
            0 <= i < keys@.len() ==> (#[trigger] found@[i])@.text == json_member_text(
                body@,
                keys@[i]@,
            ) && found@[i]@.rendered == json_member_rendered(body@, keys@[i]@),
{
    match serde_json::from_slice::<serde_json::Value>(body) {
        Ok(value) => Some(
            keys.iter().map(
                |key|
                    Member {
                        text: value[*key].as_str().map(|text| text.to_string()),
                        rendered: value[*key].to_string(),
                    },
            ).collect(),
        ),
        Err(_) => None,
    }
}

/// The string of a member, or the empty string.
fn text_of(member: &Member) -> (text: String)
    ensures
        text@ == text_or_empty(member@.text),
{
    match &member.text {
        Some(text) => text.clone(),
        None => String::new(),
    }
}

/// Puts a vehicle's detail together from the six members of its record.
///
/// A member that is no string counts as empty; the price is taken as JSON
/// text, whatever its type.
pub fn detail_from_members(
    year: &Member,
    make: &Member,
    model: &Member,
    trim: &Member,
    price: &Member,
    url: &Member,
) -> (detail: VehicleDetail)
    ensures
        detail@ == detail_of_members(year@, make@, model@, trim@, price@, url@),
{
    VehicleDetail {
        year: text_of(year),
        make: text_of(make),
        model: text_of(model),
        trim: text_of(trim),
        price: price.rendered.clone(),
        detail_page_url: text_of(url),
    }
}

/// Reads a vehicle's detail out of the body of its record.
///
/// Fails with `CrawlError::Parse` exactly when the body is no JSON document.
pub fn parse_detail(body: &[u8]) -> (parsed: Result<VehicleDetail, CrawlError>)
    ensures
        match parsed {
            Ok(detail) => detail_in(body@) == Some(detail@),
            Err(error) => error == CrawlError::Parse && detail_in(body@) is None,
        },
{
    let mut keys: Vec<&'static str> = Vec::new();
    keys.push(YEAR_KEY);
    keys.push(MAKE_KEY);
    keys.push(MODEL_KEY);
    keys.push(TRIM_KEY);
    keys.push(PRICE_KEY);
    keys.push(URL_KEY);
    match read_members(body, &keys) {
        Some(members) => {
            let detail = detail_from_members(
                &members[0],
                &members[1],
                &members[2],
                &members[3],
                &members[4],
                &members[5],
            );
            Ok(detail)
        },
        None => Err(CrawlError::Parse),
    }
}

} // verus!
