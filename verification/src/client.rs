//! The remote-query side of the pipeline: building the two authenticated
//! requests the tracker needs (an id search and a batch field fetch) and
//! reading their responses back into plain values. The HTTP transport
//! itself stays outside; this module only computes requests and parses
//! response bodies.

use vstd::prelude::*;

use base64::Engine;

use crate::config::AppConfig;
use crate::model::Bug;
use crate::model::RowModel;
use crate::model::WorkItemFields;
use crate::model::bug_views;
use crate::model::bugs_from_fields;
use crate::model::bugs_of_rows;
use crate::model::row_views;
use crate::text::dec_of;
use crate::text::hex_digit;
use crate::text::hex_digit_char;
use crate::text::push_char;
use crate::text::u64_string;
use vstd::string::StrSliceExecFns;
use vstd::string::StringExecFns;

verus! {

/// What base64's standard padded alphabet encodes the UTF-8 bytes of a
/// character sequence to; a function of the characters alone.
pub uninterp spec fn base64_of(s: Seq<char>) -> Seq<char>;

/// Relies on base64's `STANDARD` engine `encode`: the base64 text of the
/// string's UTF-8 bytes, a function of the input bytes alone.
#[verifier::external_body]
fn base64_encode(s: &str) -> (r: String)
    ensures
        r@ == base64_of(s@),
{
    base64::engine::general_purpose::STANDARD.encode(s.as_bytes())
}

/// Declares serde_json::Value so that parsed JSON values can be carried
/// through signatures; the value stays opaque here.
#[verifier::external_type_specification]
#[verifier::external_body]
pub struct ExJsonValue(serde_json::Value);

/// Whether serde_json::from_str accepts a text as JSON; a function of the
/// text alone.
pub uninterp spec fn json_parses(s: Seq<char>) -> bool;

/// What serde_json reports of a text it does not accept; a function of the
/// text alone.
pub uninterp spec fn json_error_of(s: Seq<char>) -> Seq<char>;

/// Whether a JSON text that parses holds "workItems" as an array; a
/// function of the text alone.
pub uninterp spec fn wiql_has_items(s: Seq<char>) -> bool;

/// Whether a JSON text that parses holds "value" as an array; a function
/// of the text alone.
pub uninterp spec fn batch_has_rows(s: Seq<char>) -> bool;

/// The optional id of each entry under "workItems", in order, for a JSON
/// text whose "workItems" is an array. A function of the text alone.
pub uninterp spec fn wiql_entries_of(s: Seq<char>) -> Seq<Option<u64>>;

/// The row under each entry of "value", in order, each read as
/// `row_of_value` reads it, for a JSON text whose "value" is an array.
/// A function of the text alone.
pub uninterp spec fn batch_rows_of(s: Seq<char>) -> Seq<RowModel>;

/// Relies on serde_json::from_str and Value::{get, as_array, as_u64}:
/// parses the body and hands out the optional id of each "workItems"
/// entry, `None` for a body without a "workItems" array, all
/// deterministic in the body text.
#[verifier::external_body]
fn parse_wiql_entries(body: &str) -> (r: Result<Option<Vec<Option<u64>>>, String>)
    ensures
        r is Ok <==> json_parses(body@),
        (r matches Ok(opt) ==> (opt is Some <==> wiql_has_items(body@))),
        (r matches Ok(opt) ==> (opt matches Some(entries) ==> entries@ == wiql_entries_of(
            body@,
        ))),
        (r matches Err(e) ==> e@ == json_error_of(body@)),
{
    let v: serde_json::Value = match serde_json::from_str(body) {
        Ok(v) => v,
        Err(e) => return Err(e.to_string()),
    };
    match v.get("workItems").and_then(|w| w.as_array()) {
        Some(arr) => Ok(
            Some(arr.iter().map(|item| item.get("id").and_then(|x| x.as_u64())).collect()),
        ),
        None => Ok(None),
    }
}

/// Relies on serde_json::from_str and Value::{get, as_array}: parses the
/// body and hands out each "value" entry as a row, each converted by the
/// library's `row_of_value`, `None` for a body without a "value" array,
/// all deterministic in the body text.
#[verifier::external_body]
fn parse_batch_rows(body: &str) -> (r: Result<Option<Vec<WorkItemFields>>, String>)
    ensures
        r is Ok <==> json_parses(body@),
        (r matches Ok(opt) ==> (opt is Some <==> batch_has_rows(body@))),
        (r matches Ok(opt) ==> (opt matches Some(rows) ==> row_views(rows@) == batch_rows_of(
            body@,
        ))),
        (r matches Err(e) ==> e@ == json_error_of(body@)),
{
    let v: serde_json::Value = match serde_json::from_str(body) {
        Ok(v) => v,
        Err(e) => return Err(e.to_string()),
    };
    match v.get("value").and_then(|w| w.as_array()) {
        Some(arr) => Ok(Some(arr.iter().map(|item| row_of_value(item)).collect())),
        None => Ok(None),
    }
}

/// Relies on serde_json::Value::get: the value under a key of a JSON
/// object, `None` for a missing key or a non-object.
#[verifier::external_body]
fn json_get<'a>(v: &'a serde_json::Value, key: &str) -> (r: Option<&'a serde_json::Value>) {
    v.get(key)
}

/// Relies on serde_json::Value::as_u64: the value of a JSON number
/// representable as u64, `None` otherwise.
#[verifier::external_body]
fn json_as_u64(v: &serde_json::Value) -> (r: Option<u64>) {
    v.as_u64()
}

/// Relies on serde_json::Value::as_str: the text of a JSON string, `None`
/// for any other value.
#[verifier::external_body]
fn json_as_str<'a>(v: &'a serde_json::Value) -> (r: Option<&'a str>) {
    v.as_str()
}

fn field_string(fields: Option<&serde_json::Value>, name: &str) -> (r: Option<String>) {
    match fields {
        Some(f) => match json_get(f, name) {
            Some(v) => match json_as_str(v) {
                Some(s) => Some(s.to_owned()),
                None => None,
            },
            None => None,
        },
        None => None,
    }
}

/// Reads one response row: the optional numeric id, and the text of each
/// requested field when it is present and a string.
fn row_of_value(item: &serde_json::Value) -> (r: WorkItemFields) {
    let fields = json_get(item, "fields");
    WorkItemFields {
        id: match json_get(item, "id") {
            Some(v) => json_as_u64(v),
            None => None,
        },
        title: field_string(fields, "System.Title"),
        state: field_string(fields, "System.State"),
        created_date: field_string(fields, "System.CreatedDate"),
        activated_date: field_string(fields, "System.ActivatedDate"),
        description: field_string(fields, "System.Description"),
    }
}

/// A 2xx status is a success.
pub open spec fn status_ok(status: u16) -> bool {
    200 <= status < 300
}

/// The diagnostic message for a non-2xx response: the status code and the
/// raw response body.
pub open spec fn api_error_of(status: u16, body: Seq<char>) -> Seq<char> {
    "Azure DevOps API error ("@ + dec_of(status as nat) + "): "@ + body
}

/// The Basic credential for the access token: an empty user name, the
/// token as the password.
pub open spec fn basic_auth_of(pat: Seq<char>) -> Seq<char> {
    "Basic "@ + base64_of(":"@ + pat)
}

/// How one character is written inside a JSON string literal: quote and
/// backslash get a backslash escape, control characters a `\u00..` escape,
/// everything else stands as itself.
pub open spec fn json_escaped_char(c: char) -> Seq<char> {
    if c == '"' {
        seq!['\\', '"']
    } else if c == '\\' {
        seq!['\\', '\\']
    } else if (c as u32) < 32 {
        seq!['\\', 'u', '0', '0', hex_digit((c as u32 / 16) as nat), hex_digit(
            (c as u32 % 16) as nat,
        )]
    } else {
        seq![c]
    }
}

/// How a whole character sequence is written inside a JSON string literal.
pub open spec fn json_escaped(s: Seq<char>) -> Seq<char>
    decreases s.len(),
{
    if s.len() == 0 {
        Seq::empty()
    } else {
        json_escaped(s.drop_last()) + json_escaped_char(s.last())
    }
}

/// Writes a string as the inside of a JSON string literal.
pub fn json_escape(s: &str) -> (r: String)
    ensures
        r@ == json_escaped(s@),
{
    let len: usize = s.unicode_len();
    let mut out = String::new();
    let mut i: usize = 0;
    proof {
        assert(json_escaped(s@.subrange(0, 0)) =~= out@);
    }
    while i < len
        invariant
            len == s@.len(),
            0 <= i <= len,
            out@ == json_escaped(s@.subrange(0, i as int)),
        decreases len - i,
    {
        let ghost prefix = s@.subrange(0, i as int);
        let c = s.get_char(i);
        if c == '"' {
            out.append("\\\"");
            proof {
                reveal_strlit("\\\"");
                assert(out@ =~= json_escaped(prefix) + json_escaped_char(c));
            }
        } else if c == '\\' {
            out.append("\\\\");
            proof {
                reveal_strlit("\\\\");
                assert(out@ =~= json_escaped(prefix) + json_escaped_char(c));
            }
        } else {
            let code: u32 = c as u32;
            if code < 32 {
                out.append("\\u00");
                push_char(&mut out, hex_digit_char(code / 16));
                push_char(&mut out, hex_digit_char(code % 16));
                proof {
                    reveal_strlit("\\u00");
                    assert(out@ =~= json_escaped(prefix) + json_escaped_char(c));
                }
            } else {
                push_char(&mut out, c);
                proof {
                    assert(out@ =~= json_escaped(prefix) + json_escaped_char(c));
                }
            }
        }
        proof {
            let next = s@.subrange(0, i + 1);
            assert(next.drop_last() =~= prefix);
            assert(next.last() == s@[i as int]);
        }
        i = i + 1;
    }
    proof {
        assert(s@.subrange(0, len as int) =~= s@);
    }
    out
}

/// The structured query selecting the active bugs assigned to the user,
/// newest first.
pub open spec fn wiql_query_of(email: Seq<char>) -> Seq<char> {
    "SELECT [System.Id] FROM WorkItems WHERE [System.WorkItemType] = 'Bug' AND [System.State] <> 'Closed' AND [System.AssignedTo] = '"@
        + email + "' ORDER BY [System.CreatedDate] DESC"@
}

/// The endpoint of the id search.
pub open spec fn wiql_url_of(org: Seq<char>, project: Seq<char>) -> Seq<char> {
    "https://dev.azure.com/"@ + org + "/"@ + project + "/_apis/wit/wiql?api-version=7.0"@
}

/// The endpoint of the batch field fetch.
pub open spec fn batch_url_of(org: Seq<char>, project: Seq<char>) -> Seq<char> {
    "https://dev.azure.com/"@ + org + "/"@ + project + "/_apis/wit/workitemsbatch?api-version=7.0"@
}

/// The JSON body of the id search: the query under the key "query".
pub open spec fn wiql_body_of(email: Seq<char>) -> Seq<char> {
    "{\"query\":\""@ + json_escaped(wiql_query_of(email)) + "\"}"@
}

/// The ids written as a comma-separated decimal list.
pub open spec fn ids_list_of(ids: Seq<u64>) -> Seq<char>
    decreases ids.len(),
{
    if ids.len() == 0 {
        Seq::empty()
    } else if ids.len() == 1 {
        dec_of(ids[0] as nat)
    } else {
        ids_list_of(ids.drop_last()) + ","@ + dec_of(ids.last() as nat)
    }
}

/// The JSON body of the batch fetch: the ids and the fixed field list.
pub open spec fn batch_body_of(ids: Seq<u64>) -> Seq<char> {
    "{\"ids\":["@ + ids_list_of(ids)
        + "],\"fields\":[\"System.Id\",\"System.Title\",\"System.State\",\"System.CreatedDate\",\"System.ActivatedDate\",\"System.Description\"]}"@
}

/// One ready-to-send request: where to POST, the authorization header
/// value, and the JSON body. The content type is always application/json.
pub struct HttpRequest {
    pub url: String,
    pub auth_header: String,
    pub body: String,
}

fn auth_header_value(pat: &str) -> (r: String)
    ensures
        r@ == basic_auth_of(pat@),
{
    let mut cred = String::from_str(":");
    cred.append(pat);
    let encoded = base64_encode(cred.as_str());
    let mut out = String::from_str("Basic ");
    out.append(encoded.as_str());
    out
}

/// Builds the id-search request: the query selecting the user's active
/// bugs, addressed and authenticated from the configuration.
pub fn wiql_request(config: &AppConfig) -> (r: HttpRequest)
    ensures
        r.url@ == wiql_url_of(config.org@, config.project@),
        r.auth_header@ == basic_auth_of(config.azure_devops_pat@),
        r.body@ == wiql_body_of(config.user_email@),
{
    let mut url = String::from_str("https://dev.azure.com/");
    url.append(config.org.as_str());
    url.append("/");
    url.append(config.project.as_str());
    url.append("/_apis/wit/wiql?api-version=7.0");
    proof {
        assert(url@ =~= wiql_url_of(config.org@, config.project@));
    }
    let mut query = String::from_str(
        "SELECT [System.Id] FROM WorkItems WHERE [System.WorkItemType] = 'Bug' AND [System.State] <> 'Closed' AND [System.AssignedTo] = '",
    );
    query.append(config.user_email.as_str());
    query.append("' ORDER BY [System.CreatedDate] DESC");
    proof {
        assert(query@ =~= wiql_query_of(config.user_email@));
    }
    let escaped = json_escape(query.as_str());
    let mut body = String::from_str("{\"query\":\"");
    body.append(escaped.as_str());
    body.append("\"}");
    proof {
        assert(body@ =~= wiql_body_of(config.user_email@));
    }
    HttpRequest { url, auth_header: auth_header_value(config.azure_devops_pat.as_str()), body }
}

fn ids_list(ids: &Vec<u64>) -> (r: String)
    ensures
        r@ == ids_list_of(ids@),
{
    let mut out = String::new();
    let mut i: usize = 0;
    proof {
        assert(ids_list_of(ids@.subrange(0, 0)) =~= out@);
    }
    while i < ids.len()
        invariant
            0 <= i <= ids@.len(),
            out@ == ids_list_of(ids@.subrange(0, i as int)),
        decreases ids@.len() - i,
    {
        let ghost prefix = ids@.subrange(0, i as int);
        if i > 0 {
            out.append(",");
        }
        let num = u64_string(ids[i]);
        out.append(num.as_str());
        proof {
            let next = ids@.subrange(0, i + 1);
            assert(next.drop_last() =~= prefix);
            assert(next.last() == ids@[i as int]);
            if i == 0 {
                assert(out@ =~= ids_list_of(next));
            } else {
                assert(out@ =~= ids_list_of(prefix) + ","@ + dec_of(ids@[i as int] as nat));
            }
        }
        i = i + 1;
    }
    proof {
        assert(ids@.subrange(0, ids@.len() as int) =~= ids@);
    }
    out
}

/// Builds the batch-fetch request for a set of ids: one POST asking for
/// the fixed field set of every id at once.
pub fn batch_request(config: &AppConfig, ids: &Vec<u64>) -> (r: HttpRequest)
    ensures
        r.url@ == batch_url_of(config.org@, config.project@),
        r.auth_header@ == basic_auth_of(config.azure_devops_pat@),
        r.body@ == batch_body_of(ids@),
{
    let mut url = String::from_str("https://dev.azure.com/");
    url.append(config.org.as_str());
    url.append("/");
    url.append(config.project.as_str());
    url.append("/_apis/wit/workitemsbatch?api-version=7.0");
    proof {
        assert(url@ =~= batch_url_of(config.org@, config.project@));
    }
    let list = ids_list(ids);
    let mut body = String::from_str("{\"ids\":[");
    body.append(list.as_str());
    body.append(
        "],\"fields\":[\"System.Id\",\"System.Title\",\"System.State\",\"System.CreatedDate\",\"System.ActivatedDate\",\"System.Description\"]}",
    );
    proof {
        assert(body@ =~= batch_body_of(ids@));
    }
    HttpRequest { url, auth_header: auth_header_value(config.azure_devops_pat.as_str()), body }
}

fn api_error_message(status: u16, body: &str) -> (r: String)
    ensures
        r@ == api_error_of(status, body@),
{
    let mut msg = String::from_str("Azure DevOps API error (");
    let num = u64_string(status as u64);
    msg.append(num.as_str());
    msg.append("): ");
    msg.append(body);
    proof {
        assert(msg@ =~= api_error_of(status, body@));
    }
    msg
}

/// The diagnostic message for an unreadable response body: what the JSON
/// reader objected to, and the raw body.
pub open spec fn parse_error_text(detail: Seq<char>, body: Seq<char>) -> Seq<char> {
    "JSON error: "@ + detail + "\nRaw response: "@ + body
}

fn parse_error_message(detail: &str, body: &str) -> (r: String)
    ensures
        r@ == parse_error_text(detail@, body@),
{
    let mut msg = String::from_str("JSON error: ");
    msg.append(detail);
    msg.append("\nRaw response: ");
    msg.append(body);
    proof {
        assert(msg@ =~= parse_error_text(detail@, body@));
    }
    msg
}

/// The values of the entries that are present, in order.
pub open spec fn some_values(entries: Seq<Option<u64>>) -> Seq<u64>
    decreases entries.len(),
{
    if entries.len() == 0 {
        Seq::empty()
    } else if entries.last() is Some {
        some_values(entries.drop_last()).push(entries.last()->0)
    } else {
        some_values(entries.drop_last())
    }
}

/// Keeps the ids that were present, in their order of arrival; a missing
/// or non-numeric id is dropped.
pub fn ids_from_entries(entries: &Vec<Option<u64>>) -> (r: Vec<u64>)
    ensures
        r@ == some_values(entries@),
{
    let mut out: Vec<u64> = Vec::new();
    let mut i: usize = 0;
    proof {
        assert(some_values(entries@.subrange(0, 0)) =~= out@);
    }
    while i < entries.len()
        invariant
            0 <= i <= entries@.len(),
            out@ == some_values(entries@.subrange(0, i as int)),
        decreases entries@.len() - i,
    {
        let ghost prefix = entries@.subrange(0, i as int);
        match entries[i] {
            Some(id) => out.push(id),
            None => {
            },
        }
        proof {
            let next = entries@.subrange(0, i + 1);
            assert(next.drop_last() =~= prefix);
            assert(next.last() == entries@[i as int]);
        }
        i = i + 1;
    }
    proof {
        assert(entries@.subrange(0, entries@.len() as int) =~= entries@);
    }
    out
}

/// Reads the id-search response: a non-2xx status is a hard failure
/// reported with the status code and the raw body; a 2xx body that is not
/// JSON, or is JSON without a "workItems" array, is a hard failure with
/// the parse detail and the raw body; a body whose "workItems" is an
/// array yields exactly its present ids, in order, entries without a
/// numeric id skipped.
pub fn parse_wiql_response(status: u16, body: &str) -> (r: Result<Vec<u64>, String>)
    ensures
        !status_ok(status) ==> (r matches Err(e) && e@ == api_error_of(status, body@)),
        status_ok(status) && !json_parses(body@) ==> (r matches Err(e) && e@ == parse_error_text(
            json_error_of(body@),
            body@,
        )),
        status_ok(status) && json_parses(body@) && !wiql_has_items(body@) ==> (r matches Err(e)
            && e@ == parse_error_text("missing \"workItems\" array"@, body@)),
        status_ok(status) && json_parses(body@) && wiql_has_items(body@) ==> (r matches Ok(ids)
            && ids@ == some_values(wiql_entries_of(body@))),
{
    if !(200 <= status && status < 300) {
        return Err(api_error_message(status, body));
    }
    match parse_wiql_entries(body) {
        Ok(Some(entries)) => Ok(ids_from_entries(&entries)),
        Ok(None) => Err(parse_error_message("missing \"workItems\" array", body)),
        Err(e) => Err(parse_error_message(e.as_str(), body)),
    }
}

/// Reads the batch-fetch response: a non-2xx status is a hard failure
/// reported with the status code and the raw body; a 2xx body that is not
/// JSON, or is JSON without a "value" array, is a hard failure with the
/// parse detail and the raw body; a body whose "value" is an array yields
/// exactly one work item per row that has a numeric id, in order, absent
/// title or state read as empty text.
pub fn parse_batch_response(status: u16, body: &str) -> (r: Result<Vec<Bug>, String>)
    ensures
        !status_ok(status) ==> (r matches Err(e) && e@ == api_error_of(status, body@)),
        status_ok(status) && !json_parses(body@) ==> (r matches Err(e) && e@ == parse_error_text(
            json_error_of(body@),
            body@,
        )),
        status_ok(status) && json_parses(body@) && !batch_has_rows(body@) ==> (r matches Err(e)
            && e@ == parse_error_text("missing \"value\" array"@, body@)),
        status_ok(status) && json_parses(body@) && batch_has_rows(body@) ==> (r matches Ok(bugs)
            && bug_views(bugs@) == bugs_of_rows(batch_rows_of(body@))),
{
    if !(200 <= status && status < 300) {
        return Err(api_error_message(status, body));
    }
    match parse_batch_rows(body) {
        Ok(Some(rows)) => Ok(bugs_from_fields(rows)),
        Ok(None) => Err(parse_error_message("missing \"value\" array", body)),
        Err(e) => Err(parse_error_message(e.as_str(), body)),
    }
}

} // verus!
