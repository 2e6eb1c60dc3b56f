use vstd::prelude::*;

use vstd::string::StringExecFns;

use crate::error::Error;
use crate::naming::{decimal, push_decimal};

verus! {

/// What serde_json reads as the string under `key` of the object that `text` holds.
pub uninterp spec fn json_str_field(text: Seq<u8>, key: Seq<char>) -> Option<Seq<char>>;

/// What serde_json reads as the unsigned integer under `key` of the object that `text` holds.
pub uninterp spec fn json_u64_field(text: Seq<u8>, key: Seq<char>) -> Option<u64>;

/// What serde_json reads as the signed integer under `key` of the object that `text` holds.
pub uninterp spec fn json_i64_field(text: Seq<u8>, key: Seq<char>) -> Option<i64>;

/// Relies on serde_json::from_slice, Value::get and Value::as_str: `None` unless
/// `text` is a JSON document whose top-level object maps `key` to a string.
#[verifier::external_body]
fn str_field(text: &[u8], key: &str) -> (r: Option<String>)
    ensures
        r matches Some(s) ==> json_str_field(text@, key@) == Some(s@),
        r is None ==> json_str_field(text@, key@) is None,
{
    let doc: serde_json::Value = serde_json::from_slice(text).ok()?;
    doc.get(key)?.as_str().map(|s| s.to_string())
}

/// Relies on serde_json::from_slice, Value::get and Value::as_u64: `None` unless
/// `text` is a JSON document whose top-level object maps `key` to an integer in `u64`.
#[verifier::external_body]
fn u64_field(text: &[u8], key: &str) -> (r: Option<u64>)
    ensures
        r == json_u64_field(text@, key@),
{
    let doc: serde_json::Value = serde_json::from_slice(text).ok()?;
    doc.get(key)?.as_u64()
}

/// Relies on serde_json::from_slice, Value::get and Value::as_i64: `None` unless
/// `text` is a JSON document whose top-level object maps `key` to an integer in `i64`.
#[verifier::external_body]
fn i64_field(text: &[u8], key: &str) -> (r: Option<i64>)
    ensures
        r == json_i64_field(text@, key@),
{
    let doc: serde_json::Value = serde_json::from_slice(text).ok()?;
    doc.get(key)?.as_i64()
}

/// The text that chrono gives for the UTC date and time `secs` seconds after the
/// Unix epoch, `None` where that instant is out of its range.
pub uninterp spec fn utc_text_of(secs: i64) -> Option<Seq<char>>;

/// Relies on chrono's DateTime::from_timestamp (`None` out of range) and on the
/// Display of DateTime<Utc>.
#[verifier::external_body]
fn utc_text(secs: i64) -> (r: Option<String>)
    ensures
        r matches Some(s) ==> utc_text_of(secs) == Some(s@),
        r is None ==> utc_text_of(secs) is None,
{
    chrono::DateTime::from_timestamp(secs, 0).map(|dt| dt.to_string())
}

/// The sidecar record of one cached item.
#[derive(Debug)]
pub struct VideoInfo {
    pub uname: String,
    pub title: String,
    pub group_title: String,
    pub pubdate: i64,
    pub update_time: i64,
    pub total_size: u64,
    pub item_id: u64,
    pub cover_path: String,
    pub group_cover_path: String,
}

/// The value of a `VideoInfo`.
pub struct VideoInfoView {
    pub uname: Seq<char>,
    pub title: Seq<char>,
    pub group_title: Seq<char>,
    pub pubdate: i64,
    pub update_time: i64,
    pub total_size: u64,
    pub item_id: u64,
    pub cover_path: Seq<char>,
    pub group_cover_path: Seq<char>,
}

impl View for VideoInfo {
    type V = VideoInfoView;

    open spec fn view(&self) -> VideoInfoView {
        VideoInfoView {
            uname: self.uname@,
            title: self.title@,
            group_title: self.group_title@,
            pubdate: self.pubdate,
            update_time: self.update_time,
            total_size: self.total_size,
            item_id: self.item_id,
            cover_path: self.cover_path@,
            group_cover_path: self.group_cover_path@,
        }
    }
}

/// The one-line description of an item whose publish time reads `when`.
pub open spec fn summary_of(v: VideoInfoView, when: Seq<char>) -> Seq<char> {
    decimal(v.item_id as nat) + " Title: "@ + v.title + ", UP: "@ + v.uname + ", size "@ + decimal(
        v.total_size as nat,
    ) + ", update at "@ + when
}

impl VideoInfo {
    /// The one-line description of the item, with `when` standing for its publish time.
    pub fn summary_with(&self, when: &str) -> (r: String)
        ensures
            r@ == summary_of(self@, when@),
    {
        let mut s = String::new();
        push_decimal(&mut s, self.item_id);
        s.append(" Title: ");
        s.append(self.title.as_str());
        s.append(", UP: ");
        s.append(self.uname.as_str());
        s.append(", size ");
        push_decimal(&mut s, self.total_size);
        s.append(", update at ");
        s.append(when);
        assert(s@ =~= summary_of(self@, when@));
        s
    }

    /// The one-line description of the item, its publish time in UTC; `None` where
    /// that time is out of the calendar's range.
    pub fn summary(&self) -> (r: Option<String>)
        ensures
            r is Some <==> utc_text_of(self.pubdate) is Some,
            r matches Some(s) ==> s@ == summary_of(self@, utc_text_of(self.pubdate)->0),
    {
        match utc_text(self.pubdate) {
            Some(when) => Some(self.summary_with(when.as_str())),
            None => None,
        }
    }
}

/// The record that the sidecar text `text` describes: every field is required
/// and of its type; other keys are ignored.
pub open spec fn metadata_of(text: Seq<u8>) -> Option<VideoInfoView> {
    let uname = json_str_field(text, "uname"@);
    let title = json_str_field(text, "title"@);
    let group_title = json_str_field(text, "groupTitle"@);
    let pubdate = json_i64_field(text, "pubdate"@);
    let update_time = json_i64_field(text, "updateTime"@);
    let total_size = json_u64_field(text, "totalSize"@);
    let item_id = json_u64_field(text, "itemId"@);
    let cover_path = json_str_field(text, "coverPath"@);
    let group_cover_path = json_str_field(text, "groupCoverPath"@);
    if uname is Some && title is Some && group_title is Some && pubdate is Some
        && update_time is Some && total_size is Some && item_id is Some && cover_path is Some
        && group_cover_path is Some {
        Some(
            VideoInfoView {
                uname: uname->0,
                title: title->0,
                group_title: group_title->0,
                pubdate: pubdate->0,
                update_time: update_time->0,
                total_size: total_size->0,
                item_id: item_id->0,
                cover_path: cover_path->0,
                group_cover_path: group_cover_path->0,
            },
        )
    } else {
        None
    }
}

/// Loading a sidecar: `None` stands for a sidecar that could not be read.
pub open spec fn sidecar_result(sidecar: Option<Vec<u8>>) -> Result<VideoInfoView, Error> {
    match sidecar {
        None => Err(Error::MetadataMissing),
        Some(text) => match metadata_of(text@) {
            Some(v) => Ok(v),
            None => Err(Error::MetadataInvalid),
        },
    }
}

/// Parses the text of a sidecar metadata file.
pub fn parse_metadata(text: &[u8]) -> (r: Result<VideoInfo, Error>)
    ensures
        r is Ok <==> metadata_of(text@) is Some,
        r matches Ok(v) ==> metadata_of(text@) == Some(v@),
        r is Err ==> r == Err::<VideoInfo, Error>(Error::MetadataInvalid),
{
    let uname = str_field(text, "uname");
    let title = str_field(text, "title");
    let group_title = str_field(text, "groupTitle");
    let pubdate = i64_field(text, "pubdate");
    let update_time = i64_field(text, "updateTime");
    let total_size = u64_field(text, "totalSize");
    let item_id = u64_field(text, "itemId");
    let cover_path = str_field(text, "coverPath");
    let group_cover_path = str_field(text, "groupCoverPath");
    match (uname, title, group_title, pubdate, update_time, total_size, item_id, cover_path, group_cover_path) {
        (Some(uname), Some(title), Some(group_title), Some(pubdate), Some(update_time),
            Some(total_size), Some(item_id), Some(cover_path), Some(group_cover_path)) => {
            Ok(VideoInfo {
                uname,
                title,
                group_title,
                pubdate,
                update_time,
                total_size,
                item_id,
                cover_path,
                group_cover_path,
            })
        },
        _ => Err(Error::MetadataInvalid),
    }
}

/// Loads an item's metadata from the content of its sidecar, `None` when the
/// sidecar could not be read.
pub fn get_metadata(sidecar: &Option<Vec<u8>>) -> (r: Result<VideoInfo, Error>)
    ensures
        r is Ok <==> sidecar_result(*sidecar) is Ok,
        r matches Ok(v) ==> sidecar_result(*sidecar) == Ok::<VideoInfoView, Error>(v@),
        r matches Err(e) ==> sidecar_result(*sidecar) == Err::<VideoInfoView, Error>(e),
{
    match sidecar {
        None => Err(Error::MetadataMissing),
        Some(text) => parse_metadata(text.as_slice()),
    }
}

/// Lists the items of a library from the sidecars of its item directories, in
/// order; the first sidecar that fails to load fails the listing.
pub fn get_video_list(sidecars: &Vec<Option<Vec<u8>>>) -> (r: Result<Vec<VideoInfo>, Error>)
    ensures
        r is Ok <==> forall|i: int| 0 <= i < sidecars@.len()
            ==> (#[trigger] sidecar_result(sidecars@[i])) is Ok,
        r matches Ok(l) ==> l@.len() == sidecars@.len() && forall|i: int| 0 <= i < l@.len()
            ==> sidecar_result(sidecars@[i]) == Ok::<VideoInfoView, Error>(
            #[trigger] l@[i]@),
        r matches Err(e) ==> exists|j: int| 0 <= j < sidecars@.len()
            && sidecar_result(sidecars@[j]) == Err::<VideoInfoView, Error>(e)
            && forall|i: int| 0 <= i < j
            ==> (#[trigger] sidecar_result(sidecars@[i])) is Ok,
{
    let mut list: Vec<VideoInfo> = Vec::new();
    let mut j: usize = 0;
    while j < sidecars.len()
        invariant
            j <= sidecars@.len(),
            list@.len() == j,
            forall|i: int| 0 <= i < j ==> sidecar_result(sidecars@[i])
                == Ok::<VideoInfoView, Error>(#[trigger] list@[i]@),
        decreases sidecars@.len() - j,
    {
        match get_metadata(&sidecars[j]) {
            Ok(v) => {
                list.push(v);
            },
            Err(e) => {
                assert forall|i: int| 0 <= i < j implies (#[trigger] sidecar_result(
                    sidecars@[i],
                )) is Ok by {
                    assert(sidecar_result(sidecars@[i]) == Ok::<VideoInfoView, Error>(list@[i]@));
                }
                assert(sidecar_result(sidecars@[j as int]) is Err);
                return Err(e);
            },
        }
        j = j + 1;
    }
    assert forall|i: int| 0 <= i < sidecars@.len() implies (#[trigger] sidecar_result(
        sidecars@[i],
    )) is Ok by {
        assert(sidecar_result(sidecars@[i]) == Ok::<VideoInfoView, Error>(list@[i]@));
    }
    Ok(list)
}

} // verus!
