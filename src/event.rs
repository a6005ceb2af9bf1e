//! The bus notification that carries an object-creation event, and its
//! decoding from a notification message.
use vstd::prelude::*;
use crate::json::{
    Json, json_of, parse_json, lemma_member_at, field, field_of, str_field, u64_field, opt_str_field, text_of,
    get_member, get_str, get_u64, get_opt_str,
};

verus! {

/// Why a notification message could not be read as a `BridgeEvent`.
#[derive(Clone, Copy, Debug, PartialEq, Eq, Structural)]
pub enum ParseError {
    /// The message is not one well-formed JSON document.
    NotJson,
    /// The document lacks a required field, or a field has the wrong type.
    SchemaMismatch,
}

/// The bucket that holds the object.
#[derive(Clone, Debug, PartialEq, Eq)]
pub struct StorageBucket {
    pub name: String,
}

/// The object that was created.
#[derive(Clone, Debug, PartialEq, Eq)]
pub struct StorageObject {
    pub key: String,
    pub size: u64,
    pub etag: String,
    pub version_id: Option<String>,
    pub sequencer: String,
}

/// The storage-object event inside a bus notification.
#[derive(Clone, Debug, PartialEq, Eq)]
pub struct StorageEventDetail {
    pub version: String,
    pub bucket: StorageBucket,
    pub object: StorageObject,
    pub request_id: String,
    pub requester: String,
    pub source_ip_address: String,
    pub reason: String,
}

/// A bus-level notification that wraps a storage-object event.
#[derive(Clone, Debug, PartialEq, Eq)]
pub struct BridgeEvent {
    pub source: String,
    pub detail_type: String,
    pub time: String,
    pub detail: StorageEventDetail,
}

/// The `detail` member of a notification document.
pub open spec fn detail_json(j: Json) -> Option<Json> {
    field(j, "detail"@)
}

/// The `detail.bucket` member of a notification document.
pub open spec fn bucket_json(j: Json) -> Option<Json> {
    field_of(detail_json(j), "bucket"@)
}

/// The `detail.object` member of a notification document.
pub open spec fn object_json(j: Json) -> Option<Json> {
    field_of(detail_json(j), "object"@)
}

/// `j` holds every field of a `BridgeEvent`, each with the right type.
pub open spec fn is_bridge_event(j: Json) -> bool {
    &&& str_field(Some(j), "source"@) is Some
    &&& str_field(Some(j), "detail-type"@) is Some
    &&& str_field(Some(j), "time"@) is Some
    &&& str_field(detail_json(j), "version"@) is Some
    &&& str_field(bucket_json(j), "name"@) is Some
    &&& str_field(object_json(j), "key"@) is Some
    &&& u64_field(object_json(j), "size"@) is Some
    &&& str_field(object_json(j), "etag"@) is Some
    &&& opt_str_field(object_json(j), "version-id"@) is Some
    &&& str_field(object_json(j), "sequencer"@) is Some
    &&& str_field(detail_json(j), "request-id"@) is Some
    &&& str_field(detail_json(j), "requester"@) is Some
    &&& str_field(detail_json(j), "source-ip-address"@) is Some
    &&& str_field(detail_json(j), "reason"@) is Some
}

/// Every field of `e` is the one that `j` holds under its wire name.
pub open spec fn event_matches(j: Json, e: BridgeEvent) -> bool {
    &&& str_field(Some(j), "source"@) == Some(e.source@)
    &&& str_field(Some(j), "detail-type"@) == Some(e.detail_type@)
    &&& str_field(Some(j), "time"@) == Some(e.time@)
    &&& str_field(detail_json(j), "version"@) == Some(e.detail.version@)
    &&& str_field(bucket_json(j), "name"@) == Some(e.detail.bucket.name@)
    &&& str_field(object_json(j), "key"@) == Some(e.detail.object.key@)
    &&& u64_field(object_json(j), "size"@) == Some(e.detail.object.size)
    &&& str_field(object_json(j), "etag"@) == Some(e.detail.object.etag@)
    &&& opt_str_field(object_json(j), "version-id"@) == Some(text_of(e.detail.object.version_id))
    &&& str_field(object_json(j), "sequencer"@) == Some(e.detail.object.sequencer@)
    &&& str_field(detail_json(j), "request-id"@) == Some(e.detail.request_id@)
    &&& str_field(detail_json(j), "requester"@) == Some(e.detail.requester@)
    &&& str_field(detail_json(j), "source-ip-address"@) == Some(e.detail.source_ip_address@)
    &&& str_field(detail_json(j), "reason"@) == Some(e.detail.reason@)
}

/// Two events hold the same field values.
pub open spec fn same_event(a: BridgeEvent, b: BridgeEvent) -> bool {
    &&& a.source@ == b.source@
    &&& a.detail_type@ == b.detail_type@
    &&& a.time@ == b.time@
    &&& a.detail.version@ == b.detail.version@
    &&& a.detail.bucket.name@ == b.detail.bucket.name@
    &&& a.detail.object.key@ == b.detail.object.key@
    &&& a.detail.object.size == b.detail.object.size
    &&& a.detail.object.etag@ == b.detail.object.etag@
    &&& text_of(a.detail.object.version_id) == text_of(b.detail.object.version_id)
    &&& a.detail.object.sequencer@ == b.detail.object.sequencer@
    &&& a.detail.request_id@ == b.detail.request_id@
    &&& a.detail.requester@ == b.detail.requester@
    &&& a.detail.source_ip_address@ == b.detail.source_ip_address@
    &&& a.detail.reason@ == b.detail.reason@
}

/// The message text decodes to a `BridgeEvent`.
pub open spec fn message_decodes(text: Seq<char>) -> bool {
    match json_of(text) {
        Some(j) => is_bridge_event(j),
        None => false,
    }
}

/// The error that decoding `text` ends in, when it does not decode.
pub open spec fn message_error(text: Seq<char>) -> ParseError {
    if json_of(text) is None {
        ParseError::NotJson
    } else {
        ParseError::SchemaMismatch
    }
}

impl BridgeEvent {
    /// Reads a `BridgeEvent` from a parsed document: every field is
    /// required but `detail.object.version-id`, which may be absent or null;
    /// members of other names are ignored.
    pub fn from_json(j: &Json) -> (r: Result<BridgeEvent, ParseError>)
        ensures
            r is Ok <==> is_bridge_event(*j),
            r matches Ok(e) ==> event_matches(*j, e),
            r matches Err(err) ==> err == ParseError::SchemaMismatch,
    {
        let root = Some(j);
        let detail = get_member(root, "detail");
        let bucket = get_member(detail, "bucket");
        let object = get_member(detail, "object");
        let source = match get_str(root, "source") { Some(s) => s, None => return Err(ParseError::SchemaMismatch) };
        let detail_type = match get_str(root, "detail-type") { Some(s) => s, None => return Err(ParseError::SchemaMismatch) };
        let time = match get_str(root, "time") { Some(s) => s, None => return Err(ParseError::SchemaMismatch) };
        let version = match get_str(detail, "version") { Some(s) => s, None => return Err(ParseError::SchemaMismatch) };
        let name = match get_str(bucket, "name") { Some(s) => s, None => return Err(ParseError::SchemaMismatch) };
        let key = match get_str(object, "key") { Some(s) => s, None => return Err(ParseError::SchemaMismatch) };
        let size = match get_u64(object, "size") { Some(n) => n, None => return Err(ParseError::SchemaMismatch) };
        let etag = match get_str(object, "etag") { Some(s) => s, None => return Err(ParseError::SchemaMismatch) };
        let version_id = match get_opt_str(object, "version-id") { Some(o) => o, None => return Err(ParseError::SchemaMismatch) };
        let sequencer = match get_str(object, "sequencer") { Some(s) => s, None => return Err(ParseError::SchemaMismatch) };
        let request_id = match get_str(detail, "request-id") { Some(s) => s, None => return Err(ParseError::SchemaMismatch) };
        let requester = match get_str(detail, "requester") { Some(s) => s, None => return Err(ParseError::SchemaMismatch) };
        let source_ip_address = match get_str(detail, "source-ip-address") { Some(s) => s, None => return Err(ParseError::SchemaMismatch) };
        let reason = match get_str(detail, "reason") { Some(s) => s, None => return Err(ParseError::SchemaMismatch) };
        Ok(BridgeEvent {
            source,
            detail_type,
            time,
            detail: StorageEventDetail {
                version,
                bucket: StorageBucket { name },
                object: StorageObject { key, size, etag, version_id, sequencer },
                request_id,
                requester,
                source_ip_address,
                reason,
            },
        })
    }
}

fn text_value(s: &String) -> (r: Json)
    ensures
        r == Json::Str(*s),
{
    Json::Str(s.clone())
}

impl BridgeEvent {
    /// The document that holds this event under the wire names; an absent
    /// `version_id` is written as `null`.
    pub fn to_json(&self) -> (r: Json)
        ensures
            is_bridge_event(r),
            event_matches(r, *self),
    {
        let o = &self.detail.object;
        let version_id = match &o.version_id {
            Some(v) => text_value(v),
            None => Json::Null,
        };
        let object_fields = vec![
            (String::from_str("key"), text_value(&o.key)),
            (String::from_str("size"), Json::Number(Some(o.size))),
            (String::from_str("etag"), text_value(&o.etag)),
            (String::from_str("version-id"), version_id),
            (String::from_str("sequencer"), text_value(&o.sequencer)),
        ];
        let ghost of = object_fields@;
        let object = Json::Object(object_fields);
        let d = &self.detail;
        let bucket_fields = vec![(String::from_str("name"), text_value(&d.bucket.name))];
        let ghost bf = bucket_fields@;
        let bucket = Json::Object(bucket_fields);
        let detail_fields = vec![
            (String::from_str("version"), text_value(&d.version)),
            (String::from_str("bucket"), bucket),
            (String::from_str("object"), object),
            (String::from_str("request-id"), text_value(&d.request_id)),
            (String::from_str("requester"), text_value(&d.requester)),
            (String::from_str("source-ip-address"), text_value(&d.source_ip_address)),
            (String::from_str("reason"), text_value(&d.reason)),
        ];
        let ghost df = detail_fields@;
        let detail = Json::Object(detail_fields);
        let r_fields = vec![
            (String::from_str("source"), text_value(&self.source)),
            (String::from_str("detail-type"), text_value(&self.detail_type)),
            (String::from_str("time"), text_value(&self.time)),
            (String::from_str("detail"), detail),
        ];
        let ghost rf = r_fields@;
        let r = Json::Object(r_fields);
        proof {
            reveal_strlit("key");
            reveal_strlit("size");
            reveal_strlit("etag");
            reveal_strlit("version-id");
            reveal_strlit("sequencer");
            reveal_strlit("name");
            reveal_strlit("version");
            reveal_strlit("bucket");
            reveal_strlit("object");
            reveal_strlit("request-id");
            reveal_strlit("requester");
            reveal_strlit("source-ip-address");
            reveal_strlit("reason");
            reveal_strlit("source");
            reveal_strlit("detail-type");
            reveal_strlit("time");
            reveal_strlit("detail");
            {
                let f = of;
                assert(f[0].0@.len() == 3);
                assert(f[1].0@.len() == 4);
                assert(f[2].0@.len() == 4);
                assert(f[3].0@.len() == 10);
                assert(f[4].0@.len() == 9);
                assert(f[1].0@[0] != f[2].0@[0]);
                lemma_member_at(f, "key"@, 0);
                lemma_member_at(f, "size"@, 1);
                lemma_member_at(f, "etag"@, 2);
                lemma_member_at(f, "version-id"@, 3);
                lemma_member_at(f, "sequencer"@, 4);
            }
            {
                let f = bf;
                assert(f[0].0@.len() == 4);
                lemma_member_at(f, "name"@, 0);
            }
            {
                let f = df;
                assert(f[0].0@.len() == 7);
                assert(f[1].0@.len() == 6);
                assert(f[2].0@.len() == 6);
                assert(f[3].0@.len() == 10);
                assert(f[4].0@.len() == 9);
                assert(f[5].0@.len() == 17);
                assert(f[6].0@.len() == 6);
                assert(f[1].0@[0] != f[2].0@[0]);
                assert(f[1].0@[0] != f[6].0@[0]);
                assert(f[2].0@[0] != f[6].0@[0]);
                lemma_member_at(f, "version"@, 0);
                lemma_member_at(f, "bucket"@, 1);
                lemma_member_at(f, "object"@, 2);
                lemma_member_at(f, "request-id"@, 3);
                lemma_member_at(f, "requester"@, 4);
                lemma_member_at(f, "source-ip-address"@, 5);
                lemma_member_at(f, "reason"@, 6);
            }
            {
                let f = rf;
                assert(f[0].0@.len() == 6);
                assert(f[1].0@.len() == 11);
                assert(f[2].0@.len() == 4);
                assert(f[3].0@.len() == 6);
                assert(f[0].0@[0] != f[3].0@[0]);
                lemma_member_at(f, "source"@, 0);
                lemma_member_at(f, "detail-type"@, 1);
                lemma_member_at(f, "time"@, 2);
                lemma_member_at(f, "detail"@, 3);
            }
        }
        r
    }
}

/// Unwraps the message text of one notification record: parses it as JSON,
/// then reads the parsed document as a `BridgeEvent`.
pub fn parse_message(text: &str) -> (r: Result<BridgeEvent, ParseError>)
    ensures
        r is Ok <==> message_decodes(text@),
        r matches Ok(e) ==> event_matches(json_of(text@)->Some_0, e),
        r matches Err(err) ==> err == message_error(text@),
{
    match parse_json(text) {
        Some(j) => BridgeEvent::from_json(&j),
        None => Err(ParseError::NotJson),
    }
}

/// Encoding then decoding recovers an event: when `j` holds the fields of
/// `e` (as `to_json` makes it) and `d` is read from `j` (as `from_json`
/// reads it), `d` and `e` hold the same values, `version_id` included
/// whether present or absent.
pub proof fn lemma_round_trip(j: Json, a: BridgeEvent, b: BridgeEvent)
    requires
        event_matches(j, a),
        event_matches(j, b),
    ensures
        same_event(a, b),
{
}

} // verus!
