//! Modifiers shared by the write operations.

use vstd::prelude::*;
use bson::{Bson, Document};
use crate::document::{embedded, entries, insert, new_document, null, value};
use crate::value::{Entries, Value, group_entries};
use crate::field::{
    amount_or_null, count_or_null, flag_or_null, optional_amount, optional_count, optional_flag,
    optional_text, text_or_null,
};

verus! {

/// Language-specific rules for comparing strings.
#[allow(non_snake_case)]
#[derive(Clone, Debug)]
pub struct Collation {
    pub locale: Option<String>,
    pub caseFirst: Option<String>,
    pub alternate: Option<String>,
    pub maxVariable: Option<String>,
    pub strength: Option<u32>,
    pub caseLevel: Option<bool>,
    pub numericOrdering: Option<bool>,
    pub backwards: Option<bool>,
}

/// The acknowledgement a write waits for.
#[allow(non_snake_case)]
#[derive(Clone, Debug)]
pub struct WriteConcern {
    pub acknowledgeLevel: Option<String>,
    pub tag: Option<String>,
    pub majority: Option<u64>,
    pub timeout: Option<u64>,
    pub nodes: Option<u32>,
    pub journal: Option<bool>,
}

/// The field names of a collation differ from one another.
proof fn lemma_collation_keys()
    ensures
        "locale"@ != "caseFirst"@,
        "locale"@ != "alternate"@,
        "locale"@ != "maxVariable"@,
        "locale"@ != "strength"@,
        "locale"@ != "caseLevel"@,
        "locale"@ != "numericOrdering"@,
        "locale"@ != "backwards"@,
        "caseFirst"@ != "alternate"@,
        "caseFirst"@ != "maxVariable"@,
        "caseFirst"@ != "strength"@,
        "caseFirst"@ != "caseLevel"@,
        "caseFirst"@ != "numericOrdering"@,
        "caseFirst"@ != "backwards"@,
        "alternate"@ != "maxVariable"@,
        "alternate"@ != "strength"@,
        "alternate"@ != "caseLevel"@,
        "alternate"@ != "numericOrdering"@,
        "alternate"@ != "backwards"@,
        "maxVariable"@ != "strength"@,
        "maxVariable"@ != "caseLevel"@,
        "maxVariable"@ != "numericOrdering"@,
        "maxVariable"@ != "backwards"@,
        "strength"@ != "caseLevel"@,
        "strength"@ != "numericOrdering"@,
        "strength"@ != "backwards"@,
        "caseLevel"@ != "numericOrdering"@,
        "caseLevel"@ != "backwards"@,
        "numericOrdering"@ != "backwards"@,
{
    reveal_strlit("locale");
    reveal_strlit("caseFirst");
    reveal_strlit("alternate");
    reveal_strlit("maxVariable");
    reveal_strlit("strength");
    reveal_strlit("caseLevel");
    reveal_strlit("numericOrdering");
    reveal_strlit("backwards");
    assert("locale"@.len() == 6);
    assert("caseFirst"@.len() == 9);
    assert("alternate"@.len() == 9);
    assert("maxVariable"@.len() == 11);
    assert("strength"@.len() == 8);
    assert("caseLevel"@.len() == 9);
    assert("numericOrdering"@.len() == 15);
    assert("backwards"@.len() == 9);
    assert("caseFirst"@[0] != "alternate"@[0]);
    assert("caseFirst"@[4] != "caseLevel"@[4]);
    assert("caseFirst"@[0] != "backwards"@[0]);
    assert("alternate"@[0] != "caseLevel"@[0]);
    assert("alternate"@[0] != "backwards"@[0]);
    assert("caseLevel"@[0] != "backwards"@[0]);
}

/// The field names of a write concern differ from one another.
proof fn lemma_write_concern_keys()
    ensures
        "acknowledgeLevel"@ != "tag"@,
        "acknowledgeLevel"@ != "majority"@,
        "acknowledgeLevel"@ != "timeout"@,
        "acknowledgeLevel"@ != "nodes"@,
        "acknowledgeLevel"@ != "journal"@,
        "tag"@ != "majority"@,
        "tag"@ != "timeout"@,
        "tag"@ != "nodes"@,
        "tag"@ != "journal"@,
        "majority"@ != "timeout"@,
        "majority"@ != "nodes"@,
        "majority"@ != "journal"@,
        "timeout"@ != "nodes"@,
        "timeout"@ != "journal"@,
        "nodes"@ != "journal"@,
{
    reveal_strlit("acknowledgeLevel");
    reveal_strlit("tag");
    reveal_strlit("majority");
    reveal_strlit("timeout");
    reveal_strlit("nodes");
    reveal_strlit("journal");
    assert("acknowledgeLevel"@.len() == 16);
    assert("tag"@.len() == 3);
    assert("majority"@.len() == 8);
    assert("timeout"@.len() == 7);
    assert("nodes"@.len() == 5);
    assert("journal"@.len() == 7);
    assert("timeout"@[0] != "journal"@[0]);
}

impl Collation {
    /// The collation as a document: every field under its own name, in
    /// declaration order, an unset field as null.
    pub open spec fn document(self) -> Entries {
        seq![
            ("locale"@, text_or_null(self.locale)),
            ("caseFirst"@, text_or_null(self.caseFirst)),
            ("alternate"@, text_or_null(self.alternate)),
            ("maxVariable"@, text_or_null(self.maxVariable)),
            ("strength"@, count_or_null(self.strength)),
            ("caseLevel"@, flag_or_null(self.caseLevel)),
            ("numericOrdering"@, flag_or_null(self.numericOrdering)),
            ("backwards"@, flag_or_null(self.backwards)),
        ]
    }

    /// Builds the collation's document.
    pub fn to_document(&self) -> (d: Document)
        ensures
            entries(d) == self.document(),
    {
        broadcast use group_entries;
        proof {
            lemma_collation_keys();
        }
        let mut d = new_document();
        insert(&mut d, "locale", optional_text(&self.locale));
        insert(&mut d, "caseFirst", optional_text(&self.caseFirst));
        insert(&mut d, "alternate", optional_text(&self.alternate));
        insert(&mut d, "maxVariable", optional_text(&self.maxVariable));
        insert(&mut d, "strength", optional_count(self.strength));
        insert(&mut d, "caseLevel", optional_flag(self.caseLevel));
        insert(&mut d, "numericOrdering", optional_flag(self.numericOrdering));
        insert(&mut d, "backwards", optional_flag(self.backwards));
        d
    }
}

impl WriteConcern {
    /// The write concern as a document: every field under its own name, in
    /// declaration order, an unset field as null. There is none where
    /// `majority` or `timeout` exceeds what a 64-bit signed integer holds.
    pub open spec fn document(self) -> Option<Entries> {
        match (amount_or_null(self.majority), amount_or_null(self.timeout)) {
            (Some(majority), Some(timeout)) => Some(
                seq![
                    ("acknowledgeLevel"@, text_or_null(self.acknowledgeLevel)),
                    ("tag"@, text_or_null(self.tag)),
                    ("majority"@, majority),
                    ("timeout"@, timeout),
                    ("nodes"@, count_or_null(self.nodes)),
                    ("journal"@, flag_or_null(self.journal)),
                ],
            ),
            _ => None,
        }
    }

    /// Builds the write concern's document, where it has one.
    pub fn to_document(&self) -> (r: Option<Document>)
        ensures
            match self.document() {
                Some(e) => r matches Some(d) && entries(d) == e,
                None => r is None,
            },
    {
        broadcast use group_entries;
        proof {
            lemma_write_concern_keys();
        }
        let majority = match optional_amount(self.majority) {
            Some(majority) => majority,
            None => {
                return None;
            },
        };
        let timeout = match optional_amount(self.timeout) {
            Some(timeout) => timeout,
            None => {
                return None;
            },
        };
        let mut d = new_document();
        insert(&mut d, "acknowledgeLevel", optional_text(&self.acknowledgeLevel));
        insert(&mut d, "tag", optional_text(&self.tag));
        insert(&mut d, "majority", majority);
        insert(&mut d, "timeout", timeout);
        insert(&mut d, "nodes", optional_count(self.nodes));
        insert(&mut d, "journal", optional_flag(self.journal));
        Some(d)
    }
}

/// An optional collation as a value: its document, or null.
pub open spec fn collation_or_null(c: Option<Collation>) -> Value {
    match c {
        Some(c) => Value::Document(c.document()),
        None => Value::Null,
    }
}

/// An optional write concern as a value: its document, or null. A write
/// concern without document has no value.
pub open spec fn concern_or_null(w: Option<WriteConcern>) -> Option<Value> {
    match w {
        Some(w) => match w.document() {
            Some(e) => Some(Value::Document(e)),
            None => None,
        },
        None => Some(Value::Null),
    }
}

/// The value of an optional collation.
pub fn optional_collation(c: &Option<Collation>) -> (b: Bson)
    ensures
        value(b) == collation_or_null(*c),
{
    match c {
        Some(c) => embedded(&c.to_document()),
        None => null(),
    }
}

/// The value of an optional write concern, where it has one.
pub fn optional_concern(w: &Option<WriteConcern>) -> (b: Option<Bson>)
    ensures
        match concern_or_null(*w) {
            Some(v) => b matches Some(found) && value(found) == v,
            None => b is None,
        },
{
    match w {
        Some(w) => match w.to_document() {
            Some(d) => Some(embedded(&d)),
            None => None,
        },
        None => Some(null()),
    }
}

} // verus!
