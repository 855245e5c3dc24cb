//! The codec: typed values to payload bytes and back.
//!
//! The wire format is a compact, self-describing binary map encoding:
//! structured values travel as field-name/value maps, so a side that adds a
//! field does not break the other as long as the required fields remain
//! present. All boundary traffic uses it. A human-readable JSON encoding is
//! offered as well, for tooling at the edges only; it never crosses the
//! call bridge.
//!
//! Encoding and decoding are done by an outside serialisation library; what
//! it produces for a given value is named by uninterpreted spec functions,
//! and every contract above the codec speaks of those names.

use vstd::prelude::*;

use crate::errors::CodecError;

verus! {

/// A blog record: the argument a render request carries beside the template.
#[derive(Debug, Clone, PartialEq)]
pub struct Blog {
    pub title: String,
    pub body: String,
    pub author: String,
}

/// A render request as it crosses the boundary: a blog record and a template.
#[derive(Debug, Clone, PartialEq)]
pub struct RenderArgs {
    pub blog: Blog,
    pub template: String,
}

/// The binary encoding of a text value.
pub uninterp spec fn msgpack_of_string(s: Seq<char>) -> Seq<u8>;

/// The text value a byte sequence decodes to, if it is a valid encoding of one.
pub uninterp spec fn string_of_msgpack(b: Seq<u8>) -> Option<Seq<char>>;

/// The binary encoding of a blog record, as a field-name/value map.
pub uninterp spec fn msgpack_of_blog(
    title: Seq<char>,
    body: Seq<char>,
    author: Seq<char>,
) -> Seq<u8>;

/// The blog record a byte sequence decodes to, if any.
pub uninterp spec fn blog_of_msgpack(b: Seq<u8>) -> Option<(Seq<char>, Seq<char>, Seq<char>)>;

/// The binary encoding of a render request: a blog record and a template.
pub uninterp spec fn msgpack_of_render(
    title: Seq<char>,
    body: Seq<char>,
    author: Seq<char>,
    template: Seq<char>,
) -> Seq<u8>;

/// The render request a byte sequence decodes to, if any.
pub uninterp spec fn render_of_msgpack(b: Seq<u8>) -> Option<
    (Seq<char>, Seq<char>, Seq<char>, Seq<char>),
>;

/// The JSON encoding of a text value.
pub uninterp spec fn json_of_string(s: Seq<char>) -> Seq<char>;

/// The text value a JSON document decodes to, if any.
pub uninterp spec fn string_of_json(j: Seq<char>) -> Option<Seq<char>>;

/// Relies on rmp_serde::to_vec: encoding a string value never fails, its
/// result is a function of the characters alone, and rmp_serde::from_slice
/// decodes it back to the same value.
#[verifier::external_body]
pub fn encode_string(v: &String) -> (r: Vec<u8>)
    ensures
        r@ == msgpack_of_string(v@),
        string_of_msgpack(r@) == Some(v@),
{
    rmp_serde::to_vec(v).unwrap()
}

/// Relies on rmp_serde::from_slice: decoding is a function of the bytes alone
/// and succeeds exactly on valid encodings of a string value. A shape error
/// reported by the library comes back as `SchemaMismatch`, any other decode
/// error as `Malformed`.
#[verifier::external_body]
pub fn decode_string(b: &Vec<u8>) -> (r: Result<String, CodecError>)
    ensures
        match r {
            Ok(s) => string_of_msgpack(b@) == Some(s@),
            Err(_) => string_of_msgpack(b@) is None,
        },
{
    match rmp_serde::from_slice::<String>(b.as_slice()) {
        Ok(s) => Ok(s),
        Err(
            rmp_serde::decode::Error::TypeMismatch(_)
            | rmp_serde::decode::Error::OutOfRange
            | rmp_serde::decode::Error::LengthMismatch(_)
            | rmp_serde::decode::Error::Syntax(_),
        ) => Err(CodecError::SchemaMismatch),
        Err(_) => Err(CodecError::Malformed),
    }
}

/// Relies on rmp_serde::to_vec on a field-name/value map: encoding a blog
/// record never fails, its result is a function of the three fields alone,
/// and the blog decoder reads the same fields back.
#[verifier::external_body]
pub fn encode_blog(blog: &Blog) -> (r: Vec<u8>)
    ensures
        r@ == msgpack_of_blog(blog.title@, blog.body@, blog.author@),
        blog_of_msgpack(r@) == Some((blog.title@, blog.body@, blog.author@)),
{
    let mut m = std::collections::BTreeMap::new();
    m.insert("title", blog.title.as_str());
    m.insert("body", blog.body.as_str());
    m.insert("author", blog.author.as_str());
    rmp_serde::to_vec(&m).unwrap()
}

/// Relies on rmp_serde::from_slice on a field-name/value map: decoding is a
/// function of the bytes alone and succeeds exactly on maps that carry the
/// three blog fields; fields the record does not need are ignored. Bytes that
/// are no map come back as `Malformed`, a map without the fields as
/// `SchemaMismatch`.
#[verifier::external_body]
pub fn decode_blog(b: &Vec<u8>) -> (r: Result<Blog, CodecError>)
    ensures
        match r {
            Ok(blog) => blog_of_msgpack(b@) == Some((blog.title@, blog.body@, blog.author@)),
            Err(_) => blog_of_msgpack(b@) is None,
        },
{
    let m: std::collections::BTreeMap<String, String> =
        match rmp_serde::from_slice(b.as_slice()) {
            Ok(m) => m,
            Err(_) => return Err(CodecError::Malformed),
        };
    match (m.get("title"), m.get("body"), m.get("author")) {
        (Some(t), Some(bo), Some(a)) => {
            Ok(Blog { title: t.clone(), body: bo.clone(), author: a.clone() })
        },
        _ => Err(CodecError::SchemaMismatch),
    }
}

/// Relies on rmp_serde::to_vec on a nested field-name/value map: encoding a
/// render request never fails, its result is a function of the four fields
/// alone, and the render-request decoder reads the same fields back.
#[verifier::external_body]
pub fn encode_render(blog: &Blog, template: &String) -> (r: Vec<u8>)
    ensures
        r@ == msgpack_of_render(blog.title@, blog.body@, blog.author@, template@),
        render_of_msgpack(r@) == Some((blog.title@, blog.body@, blog.author@, template@)),
{
    let mut record = serde_json::Map::new();
    record.insert("title".to_owned(), serde_json::Value::String(blog.title.clone()));
    record.insert("body".to_owned(), serde_json::Value::String(blog.body.clone()));
    record.insert("author".to_owned(), serde_json::Value::String(blog.author.clone()));
    let mut outer = serde_json::Map::new();
    outer.insert("blog".to_owned(), serde_json::Value::Object(record));
    outer.insert("template".to_owned(), serde_json::Value::String(template.clone()));
    rmp_serde::to_vec(&serde_json::Value::Object(outer)).unwrap()
}

/// Relies on rmp_serde::from_slice into a self-describing value: decoding is
/// a function of the bytes alone and succeeds exactly on maps that carry a
/// `blog` record with its three fields and a `template` string. Bytes that
/// are no map come back as `Malformed`, a map of the wrong shape as
/// `SchemaMismatch`.
#[verifier::external_body]
pub fn decode_render(b: &Vec<u8>) -> (r: Result<RenderArgs, CodecError>)
    ensures
        match r {
            Ok(a) => render_of_msgpack(b@) == Some(
                (a.blog.title@, a.blog.body@, a.blog.author@, a.template@),
            ),
            Err(_) => render_of_msgpack(b@) is None,
        },
{
    let v: serde_json::Value = match rmp_serde::from_slice(b.as_slice()) {
        Ok(v) => v,
        Err(_) => return Err(CodecError::Malformed),
    };
    let record = v.get("blog");
    let field = |k: &str| record.and_then(|x| x.get(k)).and_then(serde_json::Value::as_str);
    match (field("title"), field("body"), field("author"), v["template"].as_str()) {
        (Some(t), Some(bo), Some(a), Some(tp)) => Ok(RenderArgs {
            blog: Blog { title: t.to_owned(), body: bo.to_owned(), author: a.to_owned() },
            template: tp.to_owned(),
        }),
        _ => Err(CodecError::SchemaMismatch),
    }
}

/// Relies on serde_json::to_string: encoding a string value never fails, its
/// result is a function of the characters alone, and serde_json::from_str
/// reads the same value back. This human-readable form is for tooling only.
#[verifier::external_body]
pub fn encode_string_json(v: &String) -> (r: String)
    ensures
        r@ == json_of_string(v@),
        string_of_json(r@) == Some(v@),
{
    serde_json::to_string(v).unwrap()
}

/// Relies on serde_json::from_str: decoding is a function of the document
/// alone and succeeds exactly on JSON documents that hold one string value.
#[verifier::external_body]
pub fn decode_string_json(j: &String) -> (r: Result<String, CodecError>)
    ensures
        match r {
            Ok(s) => string_of_json(j@) == Some(s@),
            Err(_) => string_of_json(j@) is None,
        },
{
    match serde_json::from_str::<String>(j.as_str()) {
        Ok(s) => Ok(s),
        Err(e) if e.is_syntax() || e.is_eof() => Err(CodecError::Malformed),
        Err(_) => Err(CodecError::SchemaMismatch),
    }
}

/// Encodes a text value and decodes the result; the round trip gives the
/// value back.
pub fn round_trip_string(v: &String) -> (r: String)
    ensures
        r@ == v@,
{
    let bytes = encode_string(v);
    match decode_string(&bytes) {
        Ok(s) => s,
        Err(_) => vstd::pervasive::unreached(),
    }
}

/// Encodes a blog record and decodes the result; the round trip gives all
/// three fields back.
pub fn round_trip_blog(blog: &Blog) -> (r: Blog)
    ensures
        r.title@ == blog.title@,
        r.body@ == blog.body@,
        r.author@ == blog.author@,
{
    let bytes = encode_blog(blog);
    match decode_blog(&bytes) {
        Ok(back) => back,
        Err(_) => vstd::pervasive::unreached(),
    }
}

/// Encodes a render request and decodes the result; the round trip gives all
/// four fields back.
pub fn round_trip_render(blog: &Blog, template: &String) -> (r: RenderArgs)
    ensures
        r.blog.title@ == blog.title@,
        r.blog.body@ == blog.body@,
        r.blog.author@ == blog.author@,
        r.template@ == template@,
{
    let bytes = encode_render(blog, template);
    match decode_render(&bytes) {
        Ok(back) => back,
        Err(_) => vstd::pervasive::unreached(),
    }
}

/// Encodes a text value as JSON and decodes the result; the round trip gives
/// the value back.
pub fn round_trip_string_json(v: &String) -> (r: String)
    ensures
        r@ == v@,
{
    let doc = encode_string_json(v);
    match decode_string_json(&doc) {
        Ok(s) => s,
        Err(_) => vstd::pervasive::unreached(),
    }
}

} // verus!
