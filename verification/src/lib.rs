//! A client for a generative-language HTTP service: it resolves a
//! credential, sends one fixed prompt, extracts the reply text from the
//! nested response document, and keeps a per-day request counter that is
//! persisted as a flat JSON object.
//!
//! The crate holds the logic only: reading the environment, the HTTP
//! exchange and the counter file itself are the caller's, who hands the
//! library plain values and persists what it returns.

mod datekey;
mod error;
mod gemini;
mod json;
mod store;

pub use datekey::Date;
pub use datekey::date_key;
pub use datekey::digit_char;
pub use datekey::spec_date_key;
pub use datekey::spec_decimal;
pub use datekey::u64_string;
pub use error::Error;
pub use error::spec_message;
pub use gemini::GeminiClient;
pub use gemini::RequestEffect;
pub use gemini::opt_text_view;
pub use gemini::payload_doc_for;
pub use gemini::spec_extract;
pub use gemini::spec_load;
pub use gemini::spec_prompt;
pub use gemini::spec_url;
pub use json::JsonValue;
pub use json::json_parse;
pub use json::json_print;
pub use json::obj_get;
pub use json::obj_lookup;
pub use json::printable;
pub use store::CounterStore;
pub use store::doc_map_of;
pub use store::entries_all_num;
pub use store::lemma_store_doc_round_trip;
pub use store::map_of;
pub use store::store_doc_for;
pub use store::store_of_doc;
