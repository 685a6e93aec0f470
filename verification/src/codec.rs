//! Reading a configuration out of a JSON document and writing it into one.
//!
//! A configuration file is a JSON object with one member for each field of
//! the record. A document that lacks a member, or holds one of the wrong
//! kind, is no configuration at all: nothing is ever filled in field by
//! field.

use vstd::prelude::*;
use crate::config::{default_record, ApeNodeArgs, ApeNodeArgsView};
use crate::json::{
    distinct_keys, integer_document, integer_of, integer_value, member, member_of, members_view,
    object_document, object_value, parse_document, parsed_document, pretty_text, print_document,
    text_document, text_of, text_value,
};

verus! {

/// Why a configuration could not be turned into text.
#[derive(Clone, Copy, Debug, PartialEq, Eq)]
pub enum SaveError {
    /// The JSON printer refused the document.
    Unprintable,
}

/// The text under a key, for a document that holds a JSON string there.
pub open spec fn text_member(doc: serde_json::Value, key: Seq<char>) -> Option<Seq<char>> {
    match member_of(doc, key) {
        Some(value) => text_of(value),
        None => None,
    }
}

/// The number under a key, for a document that holds an integer there.
pub open spec fn integer_member(doc: serde_json::Value, key: Seq<char>) -> Option<i64> {
    match member_of(doc, key) {
        Some(value) => integer_of(value),
        None => None,
    }
}

/// The record made of six fields, if every one of them is there.
pub open spec fn assembled(
    account: Option<Seq<char>>,
    rpc: Option<Seq<char>>,
    listen: Option<Seq<char>>,
    key_cache: Option<Seq<char>>,
    log: Option<Seq<char>>,
    batch: Option<i64>,
) -> Option<ApeNodeArgsView> {
    if account is Some && rpc is Some && listen is Some && key_cache is Some && log is Some
        && batch is Some {
        Some(
            ApeNodeArgsView {
                impersonated_account: account->0,
                web3_rpc: rpc->0,
                listen_host_port: listen->0,
                key_cache_file_path: key_cache->0,
                log_file_path: log->0,
                batch_size: batch->0 as int,
            },
        )
    } else {
        None
    }
}

/// The configuration that a document holds, if it holds one.
pub open spec fn document_record(doc: serde_json::Value) -> Option<ApeNodeArgsView> {
    assembled(
        text_member(doc, "impersonated_account"@),
        text_member(doc, "web3_rpc"@),
        text_member(doc, "listen_host_port"@),
        text_member(doc, "key_cache_file_path"@),
        text_member(doc, "log_file_path"@),
        integer_member(doc, "batch_size"@),
    )
}

/// The document that holds a configuration: its six members, in the order
/// of the record's fields.
pub open spec fn record_document(c: ApeNodeArgs) -> serde_json::Value {
    object_document(
        seq![
            ("impersonated_account"@, text_document(c.impersonated_account@)),
            ("web3_rpc"@, text_document(c.web3_rpc@)),
            ("listen_host_port"@, text_document(c.listen_host_port@)),
            ("key_cache_file_path"@, text_document(c.key_cache_file_path@)),
            ("log_file_path"@, text_document(c.log_file_path@)),
            ("batch_size"@, integer_document(c.batch_size)),
        ],
    )
}

/// The configuration that the text of a configuration file stands for: the
/// one its document holds, and the default record for a text that is no
/// document or whose document holds none.
pub open spec fn loaded_record(text: Seq<char>) -> ApeNodeArgsView {
    match parsed_document(text) {
        Some(doc) => match document_record(doc) {
            Some(record) => record,
            None => default_record(),
        },
        None => default_record(),
    }
}

/// The view of an optional text.
pub open spec fn text_view(text: Option<String>) -> Option<Seq<char>> {
    match text {
        Some(t) => Some(t@),
        None => None,
    }
}

/// The view of an optional configuration.
pub open spec fn record_view(config: Option<ApeNodeArgs>) -> Option<ApeNodeArgsView> {
    match config {
        Some(c) => Some(c@),
        None => None,
    }
}

/// Reads the text under a key of a document.
fn read_text(doc: &serde_json::Value, key: &str) -> (text: Option<String>)
    ensures
        text_view(text) == text_member(*doc, key@),
{
    match member(doc, key) {
        Some(value) => match value.as_str() {
            Some(s) => Some(s.to_owned()),
            None => None,
        },
        None => None,
    }
}

/// Reads the integer under a key of a document.
fn read_integer(doc: &serde_json::Value, key: &str) -> (number: Option<i64>)
    ensures
        number == integer_member(*doc, key@),
{
    match member(doc, key) {
        Some(value) => value.as_i64(),
        None => None,
    }
}

impl ApeNodeArgs {
    /// Puts six fields together: a configuration if all are there, nothing
    /// if any is missing.
    pub fn assemble(
        account: Option<String>,
        rpc: Option<String>,
        listen: Option<String>,
        key_cache: Option<String>,
        log: Option<String>,
        batch: Option<i64>,
    ) -> (config: Option<ApeNodeArgs>)
        ensures
            record_view(config) == assembled(
                text_view(account),
                text_view(rpc),
                text_view(listen),
                text_view(key_cache),
                text_view(log),
                batch,
            ),
    {
        match (account, rpc, listen, key_cache, log, batch) {
            (
                Some(impersonated_account),
                Some(web3_rpc),
                Some(listen_host_port),
                Some(key_cache_file_path),
                Some(log_file_path),
                Some(batch_size),
            ) => Some(
                ApeNodeArgs {
                    impersonated_account,
                    web3_rpc,
                    listen_host_port,
                    key_cache_file_path,
                    log_file_path,
                    batch_size,
                },
            ),
            _ => None,
        }
    }

    /// Reads a configuration out of a document.
    pub fn from_document(doc: &serde_json::Value) -> (config: Option<ApeNodeArgs>)
        ensures
            record_view(config) == document_record(*doc),
    {
        let account = read_text(doc, "impersonated_account");
        let rpc = read_text(doc, "web3_rpc");
        let listen = read_text(doc, "listen_host_port");
        let key_cache = read_text(doc, "key_cache_file_path");
        let log = read_text(doc, "log_file_path");
        let batch = read_integer(doc, "batch_size");
        ApeNodeArgs::assemble(account, rpc, listen, key_cache, log, batch)
    }

    /// The configuration that was read, or the default record where none was.
    pub fn or_default(decoded: Option<ApeNodeArgs>) -> (config: ApeNodeArgs)
        ensures
            config@ == match decoded {
                Some(c) => c@,
                None => default_record(),
            },
    {
        match decoded {
            Some(c) => c,
            None => ApeNodeArgs::default_config(),
        }
    }

    /// What comes of parsing: the configuration that the document holds,
    /// and the default record where there is no document or it holds none.
    pub fn from_parsed(parsed: Result<serde_json::Value, serde_json::Error>) -> (config:
        ApeNodeArgs)
        ensures
            config@ == match parsed {
                Ok(doc) => match document_record(doc) {
                    Some(record) => record,
                    None => default_record(),
                },
                Err(_) => default_record(),
            },
    {
        match parsed {
            Ok(doc) => ApeNodeArgs::or_default(ApeNodeArgs::from_document(&doc)),
            Err(_) => ApeNodeArgs::default_config(),
        }
    }

    /// The configuration that the text of a configuration file stands for.
    /// A text that cannot be used gives the default record, never an error
    /// and never a mix of read and default fields.
    pub fn load_config(&self, config_text: &str) -> (config: ApeNodeArgs)
        ensures
            config@ == loaded_record(config_text@),
            config_text@.len() == 0 ==> config@ == default_record(),
    {
        ApeNodeArgs::from_parsed(parse_document(config_text))
    }

    /// The configuration to start with, given the text of the configuration
    /// file (the empty text where there is no file).
    pub fn new(config_text: &str) -> (config: ApeNodeArgs)
        ensures
            config@ == loaded_record(config_text@),
            config_text@.len() == 0 ==> config@ == default_record(),
    {
        let args = ApeNodeArgs::default_config();
        args.load_config(config_text)
    }

    /// Writes the configuration into a document. Reading that document
    /// gives the configuration back.
    pub fn to_document(&self) -> (doc: serde_json::Value)
        ensures
            doc == record_document(*self),
            document_record(doc) == Some(self@),
    {
        let mut members: Vec<(String, serde_json::Value)> = Vec::new();
        members.push(
            ("impersonated_account".to_owned(), text_value(self.impersonated_account.as_str())),
        );
        members.push(("web3_rpc".to_owned(), text_value(self.web3_rpc.as_str())));
        members.push(("listen_host_port".to_owned(), text_value(self.listen_host_port.as_str())));
        members.push(
            ("key_cache_file_path".to_owned(), text_value(self.key_cache_file_path.as_str())),
        );
        members.push(("log_file_path".to_owned(), text_value(self.log_file_path.as_str())));
        members.push(("batch_size".to_owned(), integer_value(self.batch_size)));
        proof {
            reveal_strlit("impersonated_account");
            reveal_strlit("web3_rpc");
            reveal_strlit("listen_host_port");
            reveal_strlit("key_cache_file_path");
            reveal_strlit("log_file_path");
            reveal_strlit("batch_size");
            assert(members_view(members@) =~= seq![
                ("impersonated_account"@, text_document(self.impersonated_account@)),
                ("web3_rpc"@, text_document(self.web3_rpc@)),
                ("listen_host_port"@, text_document(self.listen_host_port@)),
                ("key_cache_file_path"@, text_document(self.key_cache_file_path@)),
                ("log_file_path"@, text_document(self.log_file_path@)),
                ("batch_size"@, integer_document(self.batch_size)),
            ]);
            assert(distinct_keys(members_view(members@))) by {
                assert forall|i: int, j: int| 0 <= i < j < members_view(members@).len() implies
                    members_view(members@)[i].0 != members_view(members@)[j].0 by {
                    assert(members_view(members@)[i].0.len() != members_view(members@)[j].0.len());
                }
            }
        }
        let ghost held = members@;
        let doc = object_value(members);
        proof {
            assert(member_of(doc, held[0].0@) == Some(held[0].1));
            assert(member_of(doc, held[1].0@) == Some(held[1].1));
            assert(member_of(doc, held[2].0@) == Some(held[2].1));
            assert(member_of(doc, held[3].0@) == Some(held[3].1));
            assert(member_of(doc, held[4].0@) == Some(held[4].1));
            assert(member_of(doc, held[5].0@) == Some(held[5].1));
        }
        doc
    }

    /// What comes of printing: the text, or the reason why there is none.
    pub fn printed_text(printed: Result<String, serde_json::Error>) -> (saved: Result<
        String,
        SaveError,
    >)
        ensures
            saved == match printed {
                Ok(text) => Ok::<String, SaveError>(text),
                Err(_) => Err(SaveError::Unprintable),
            },
    {
        match printed {
            Ok(text) => Ok(text),
            Err(_) => Err(SaveError::Unprintable),
        }
    }

    /// The text to store for this configuration: its document,
    /// pretty-printed.
    pub fn save_config(&self) -> (saved: Result<String, SaveError>)
        ensures
            match saved {
                Ok(text) => pretty_text(record_document(*self)) == Some(text@),
                Err(reason) => reason == SaveError::Unprintable && pretty_text(
                    record_document(*self),
                ) is None,
            },
    {
        let doc = self.to_document();
        ApeNodeArgs::printed_text(print_document(&doc))
    }
}

} // verus!
