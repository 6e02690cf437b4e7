use vstd::prelude::*;
use vstd::string::StringExecFns;

use crate::datekey::Date;
use crate::datekey::date_key;
use crate::datekey::spec_date_key;
use crate::error::Error;
use crate::json::JsonValue;
use crate::json::json_parse;
use crate::json::json_print;
use crate::json::json_to_text;
use crate::json::obj_get;
use crate::json::obj_lookup;
use crate::json::parse_json;
use crate::json::printable;
use crate::store::CounterStore;
use crate::store::store_doc_for;
use crate::store::store_of_doc;

verus! {

/// The fixed service URL the request is posted to.
pub open spec fn spec_url() -> Seq<char> {
    "https://generativelanguage.googleapis.com/v1beta/models/gemini-2.0-flash:generateContent"@
}

/// The fixed prompt this version sends.
pub open spec fn spec_prompt() -> Seq<char> {
    "自己紹介をしてください。"@
}

/// Whether a document is the request payload carrying a prompt: one
/// "contents" entry, with one element, whose one "parts" entry holds one
/// element, whose one "text" entry holds the prompt.
pub open spec fn payload_doc_for(d: JsonValue, prompt: Seq<char>) -> bool {
    &&& d is Obj
    &&& d->Obj_0@.len() == 1
    &&& d->Obj_0@[0].0@ == "contents"@
    &&& {
        let contents = d->Obj_0@[0].1;
        &&& contents is Arr
        &&& contents->Arr_0@.len() == 1
        &&& {
            let c0 = contents->Arr_0@[0];
            &&& c0 is Obj
            &&& c0->Obj_0@.len() == 1
            &&& c0->Obj_0@[0].0@ == "parts"@
            &&& {
                let parts = c0->Obj_0@[0].1;
                &&& parts is Arr
                &&& parts->Arr_0@.len() == 1
                &&& {
                    let p0 = parts->Arr_0@[0];
                    &&& p0 is Obj
                    &&& p0->Obj_0@.len() == 1
                    &&& p0->Obj_0@[0].0@ == "text"@
                    &&& p0->Obj_0@[0].1 is Str
                    &&& p0->Obj_0@[0].1->Str_0@ == prompt
                }
            }
        }
    }
}

/// The reply text a response document yields: the string under
/// candidates[0].content.parts[0].text, if the whole path is there.
pub open spec fn spec_extract(doc: JsonValue) -> Option<Seq<char>> {
    match doc {
        JsonValue::Obj(es) => match obj_lookup(es@, "candidates"@) {
            Some(JsonValue::Arr(cands)) => if cands@.len() > 0 {
                match cands@[0] {
                    JsonValue::Obj(c0) => match obj_lookup(c0@, "content"@) {
                        Some(JsonValue::Obj(content)) => match obj_lookup(content@, "parts"@) {
                            Some(JsonValue::Arr(parts)) => if parts@.len() > 0 {
                                match parts@[0] {
                                    JsonValue::Obj(p0) => match obj_lookup(p0@, "text"@) {
                                        Some(JsonValue::Str(s)) => Some(s@),
                                        _ => None,
                                    },
                                    _ => None,
                                }
                            } else {
                                None
                            },
                            _ => None,
                        },
                        _ => None,
                    },
                    _ => None,
                }
            } else {
                None
            },
            _ => None,
        },
        _ => None,
    }
}

/// The store a counter-file text loads to at construction: an absent or
/// unparsable file degrades to the empty store; a parsed document loads
/// as `store_of_doc` says, `None` standing for the malformed store that
/// is rejected.
pub open spec fn spec_load(text: Option<Seq<char>>) -> Option<Map<Seq<char>, u64>> {
    match text {
        None => Some(Map::<Seq<char>, u64>::empty()),
        Some(t) => match json_parse(t) {
            None => Some(Map::<Seq<char>, u64>::empty()),
            Some(doc) => store_of_doc(doc),
        },
    }
}

/// The view of the counter-file text a caller hands to `new`.
pub open spec fn opt_text_view(t: Option<&str>) -> Option<Seq<char>> {
    match t {
        Some(s) => Some(s@),
        None => None,
    }
}

/// The client: the resolved credential, the fixed service URL, the
/// counter store, and today's running count cached under today's date
/// key.
pub struct GeminiClient {
    pub daily_request_count: CounterStore,
    pub todays_request_count: u64,
    pub today: String,
    pub url: String,
    pub api_key: String,
}

/// What one request operation leaves behind: the counter store's new
/// document and its text, which the caller persists, and the reply — the
/// extracted text, or the parse failure.
pub struct RequestEffect {
    pub store_doc: JsonValue,
    pub store_text: String,
    pub reply: Result<String, Error>,
}

impl GeminiClient {
    /// The store has one entry per day, and today's running count is the
    /// store's entry for today, zero when there is none.
    pub open spec fn wf(&self) -> bool {
        &&& self.daily_request_count.wf()
        &&& self.todays_request_count == (if self.daily_request_count@.contains_key(self.today@) {
            self.daily_request_count@[self.today@]
        } else {
            0u64
        })
    }

    /// The fixed service URL.
    pub fn url() -> (r: String)
        ensures
            r@ == spec_url(),
    {
        String::from_str(
            "https://generativelanguage.googleapis.com/v1beta/models/gemini-2.0-flash:generateContent",
        )
    }

    /// Resolves the credential from what the caller found: whether the
    /// configuration source could be loaded, and the value the named
    /// variable had in the resulting environment, if any. The two
    /// failures are distinct, and the missing-variable one carries the
    /// key name.
    pub fn api_key(key: &str, source_loaded: bool, value: Option<String>) -> (r: Result<
        String,
        Error,
    >)
        ensures
            !source_loaded ==> (r matches Err(e) && e is DotEnvNotFound),
            (source_loaded && value is None) ==> (r matches Err(e) && e matches Error::VariableNotFound(k)
                && k@ == key@),
            (source_loaded && value is Some) ==> (r matches Ok(s) && value == Some(s)),
    {
        if !source_loaded {
            Err(Error::DotEnvNotFound)
        } else {
            match value {
                Some(v) => Ok(v),
                None => Err(Error::VariableNotFound(String::from_str(key))),
            }
        }
    }

    /// Builds a client from the resolved credential, today's date and
    /// the counter-file text, if the caller found one. The store loads
    /// as `spec_load` says; today's count is cached from it, zero for a
    /// fresh day; a malformed store is rejected whole.
    pub fn new(api_key: String, today: Date, store_text: Option<&str>) -> (r: Result<
        GeminiClient,
        Error,
    >)
        ensures
            match r {
                Ok(c) => {
                    &&& spec_load(opt_text_view(store_text)) == Some(c.daily_request_count@)
                    &&& c.wf()
                    &&& c.api_key == api_key
                    &&& c.url@ == spec_url()
                    &&& c.today@ == spec_date_key(today)
                    &&& (store_text is None ==> c.daily_request_count@ =~= Map::<
                        Seq<char>,
                        u64,
                    >::empty() && c.todays_request_count == 0)
                },
                Err(e) => e is ParseError && spec_load(opt_text_view(store_text)) is None,
            },
    {
        let store = match store_text {
            None => CounterStore::empty(),
            Some(text) => match parse_json(text) {
                None => CounterStore::empty(),
                Some(doc) => match CounterStore::from_doc(&doc) {
                    Ok(s) => s,
                    Err(e) => {
                        return Err(e);
                    },
                },
            },
        };
        let today_key = date_key(today);
        let count = match store.get(&today_key) {
            Some(v) => v,
            None => 0,
        };
        Ok(
            GeminiClient {
                todays_request_count: count,
                daily_request_count: store,
                today: today_key,
                url: Self::url(),
                api_key,
            },
        )
    }

    /// Builds the fixed request payload.
    pub fn build_data() -> (r: JsonValue)
        ensures
            payload_doc_for(r, spec_prompt()),
            printable(r),
    {
        let mut part_fields: Vec<(String, JsonValue)> = Vec::new();
        part_fields.push(
            (String::from_str("text"), JsonValue::Str(String::from_str("自己紹介をしてください。"))),
        );
        let part = JsonValue::Obj(part_fields);
        proof {
            assert forall|j: int| 0 <= j < part->Obj_0@.len() implies printable(
                #[trigger] part->Obj_0@[j].1,
            ) by {
                assert(part->Obj_0@[j].1 is Str);
            }
            assert(printable(part));
        }
        let mut parts_vec: Vec<JsonValue> = Vec::new();
        parts_vec.push(part);
        let mut content_fields: Vec<(String, JsonValue)> = Vec::new();
        content_fields.push((String::from_str("parts"), JsonValue::Arr(parts_vec)));
        let content = JsonValue::Obj(content_fields);
        proof {
            assert forall|j: int| 0 <= j < content->Obj_0@.len() implies printable(
                #[trigger] content->Obj_0@[j].1,
            ) by {
                let parts = content->Obj_0@[j].1;
                assert forall|k: int| 0 <= k < parts->Arr_0@.len() implies printable(
                    #[trigger] parts->Arr_0@[k],
                ) by {
                    assert(parts->Arr_0@[k] == part);
                }
            }
            assert(printable(content));
        }
        let mut contents_vec: Vec<JsonValue> = Vec::new();
        contents_vec.push(content);
        let mut data_fields: Vec<(String, JsonValue)> = Vec::new();
        data_fields.push((String::from_str("contents"), JsonValue::Arr(contents_vec)));
        let data = JsonValue::Obj(data_fields);
        proof {
            assert forall|j: int| 0 <= j < data->Obj_0@.len() implies printable(
                #[trigger] data->Obj_0@[j].1,
            ) by {
                let contents = data->Obj_0@[j].1;
                assert forall|k: int| 0 <= k < contents->Arr_0@.len() implies printable(
                    #[trigger] contents->Arr_0@[k],
                ) by {
                    assert(contents->Arr_0@[k] == content);
                }
            }
            assert(printable(data));
        }
        data
    }

    /// The request payload and its text, ready to be posted as the body
    /// of the request.
    pub fn request_body() -> (r: (JsonValue, String))
        ensures
            payload_doc_for(r.0, spec_prompt()),
            r.1@ == json_print(r.0),
    {
        let d = Self::build_data();
        let t = json_to_text(&d);
        (d, t)
    }

    /// Extracts the reply text from a response document, at
    /// candidates[0].content.parts[0].text; a missing or non-string path
    /// is the parse failure.
    pub fn extract_reply(doc: &JsonValue) -> (r: Result<String, Error>)
        ensures
            match spec_extract(*doc) {
                Some(t) => r matches Ok(s) && s@ == t,
                None => r matches Err(e) && e is ParseError,
            },
    {
        match doc {
            JsonValue::Obj(es) => match obj_get(es, &String::from_str("candidates")) {
                Some(JsonValue::Arr(cands)) => if cands.len() > 0 {
                    match &cands[0] {
                        JsonValue::Obj(c0) => match obj_get(c0, &String::from_str("content")) {
                            Some(JsonValue::Obj(content)) => match obj_get(
                                content,
                                &String::from_str("parts"),
                            ) {
                                Some(JsonValue::Arr(parts)) => if parts.len() > 0 {
                                    match &parts[0] {
                                        JsonValue::Obj(p0) => match obj_get(
                                            p0,
                                            &String::from_str("text"),
                                        ) {
                                            Some(JsonValue::Str(s)) => Ok(s.clone()),
                                            _ => Err(Error::ParseError),
                                        },
                                        _ => Err(Error::ParseError),
                                    }
                                } else {
                                    Err(Error::ParseError)
                                },
                                _ => Err(Error::ParseError),
                            },
                            _ => Err(Error::ParseError),
                        },
                        _ => Err(Error::ParseError),
                    }
                } else {
                    Err(Error::ParseError)
                },
                _ => Err(Error::ParseError),
            },
            _ => Err(Error::ParseError),
        }
    }

    /// One request round trip, given the body text the service answered
    /// with. An unparsable body is the connection/decode failure and
    /// changes nothing. Otherwise today's count goes up by one and is
    /// written into the store under today's key before the reply text is
    /// even looked at, so the caller persists the returned store text
    /// whether or not the reply parsed.
    pub fn request(&mut self, response_body: &str) -> (r: Result<RequestEffect, Error>)
        requires
            old(self).wf(),
            old(self).todays_request_count < u64::MAX,
        ensures
            match json_parse(response_body@) {
                None => r matches Err(e) && e is ConnectionError && *final(self) == *old(self),
                Some(doc) => r matches Ok(eff) && {
                    &&& final(self).todays_request_count == old(self).todays_request_count + 1
                    &&& final(self).daily_request_count@ == old(self).daily_request_count@.insert(
                        old(self).today@,
                        (old(self).todays_request_count + 1) as u64,
                    )
                    &&& final(self).today == old(self).today
                    &&& final(self).url == old(self).url
                    &&& final(self).api_key == old(self).api_key
                    &&& final(self).wf()
                    &&& store_doc_for(final(self).daily_request_count, eff.store_doc)
                    &&& eff.store_text@ == json_print(eff.store_doc)
                    &&& match spec_extract(doc) {
                        Some(t) => eff.reply matches Ok(s) && s@ == t,
                        None => eff.reply matches Err(e2) && e2 is ParseError,
                    }
                },
            },
    {
        match parse_json(response_body) {
            None => Err(Error::ConnectionError),
            Some(doc) => {
                self.todays_request_count = self.todays_request_count + 1;
                let key = self.today.clone();
                let count = self.todays_request_count;
                self.daily_request_count.set(key, count);
                let store_doc = self.daily_request_count.to_doc();
                let store_text = json_to_text(&store_doc);
                let reply = Self::extract_reply(&doc);
                Ok(RequestEffect { store_doc, store_text, reply })
            },
        }
    }
}

} // verus!
