//! The agent's persistent identity: the id kept in a file, or a fresh random one.

use vstd::prelude::*;
use crate::text::{copy_str, is_whitespace, trim, trim_end, trim_start, trimmed};

verus! {

/// Where the agent keeps its id unless told otherwise.
pub open spec fn default_id_path() -> Seq<char> {
    "/var/lib/loghub-agent/agent-id"@
}

/// The path of the id file: the given one, else the default.
pub fn id_path(path: Option<&str>) -> (p: String)
    ensures
        p@ == match path {
            Some(x) => x@,
            None => default_id_path(),
        },
{
    match path {
        Some(x) => copy_str(x),
        None => copy_str("/var/lib/loghub-agent/agent-id"),
    }
}

/// A lower-case hexadecimal digit.
pub open spec fn is_lower_hex(c: char) -> bool {
    ('0' <= c && c <= '9') || ('a' <= c && c <= 'f')
}

/// The hyphenated lower-case text of a version-4 UUID:
/// `xxxxxxxx-xxxx-4xxx-xxxx-xxxxxxxxxxxx`.
pub open spec fn is_uuid_v4_text(s: Seq<char>) -> bool {
    &&& s.len() == 36
    &&& forall|i: int|
        0 <= i < 36 ==> if i == 8 || i == 13 || i == 18 || i == 23 {
            s[i] == '-'
        } else {
            is_lower_hex(#[trigger] s[i])
        }
    &&& s[14] == '4'
}

/// `uuid::Uuid::new_v4` rendered by its `Display`: a random version-4 UUID in hyphenated
/// lower-case form. Which UUID comes back is chance and is not stated.
#[verifier::external_body]
fn new_uuid_v4_text() -> (s: String)
    ensures
        is_uuid_v4_text(s@),
{
    uuid::Uuid::new_v4().to_string()
}

/// The id held in the text of an id file: the text without surrounding whitespace, when
/// that is not empty.
pub open spec fn stored_id(content: Seq<char>) -> Option<Seq<char>> {
    if trim(content).len() > 0 {
        Some(trim(content))
    } else {
        None
    }
}

/// The id the agent uses, and whether it is new and must be written to the id file.
#[derive(Debug, Clone)]
pub struct AgentIdentity {
    pub id: String,
    pub fresh: bool,
}

/// The id in the file's text, if the file could be read and holds one.
pub fn parse_stored_id(content: &str) -> (r: Option<String>)
    ensures
        match r {
            Some(id) => stored_id(content@) == Some(id@),
            None => stored_id(content@) is None,
        },
{
    let id = trimmed(content);
    if id.as_str().is_empty() {
        None
    } else {
        Some(id)
    }
}

/// The id from the file's text when it holds one, otherwise a fresh random UUID that
/// the caller must store.
pub fn resolve_agent_id(content: Option<&str>) -> (r: AgentIdentity)
    ensures
        match content {
            Some(c) => match stored_id(c@) {
                Some(id) => r.id@ == id && !r.fresh,
                None => r.fresh && is_uuid_v4_text(r.id@),
            },
            None => r.fresh && is_uuid_v4_text(r.id@),
        },
{
    if let Some(c) = content {
        if let Some(id) = parse_stored_id(c) {
            return AgentIdentity { id, fresh: false };
        }
    }
    AgentIdentity { id: new_uuid_v4_text(), fresh: true }
}

/// A freshly made id, once written to the id file, is read back unchanged: it has no
/// surrounding whitespace and is not empty.
pub proof fn lemma_fresh_id_reads_back(s: Seq<char>)
    requires
        is_uuid_v4_text(s),
    ensures
        stored_id(s) == Some(s),
{
    assert(is_lower_hex(s[0]));
    assert(!is_whitespace(s[0]));
    assert(trim_start(s) == s);
    assert(is_lower_hex(s[35]));
    assert(s.last() == s[35]);
    assert(trim_end(s) == s);
}

} // verus!
