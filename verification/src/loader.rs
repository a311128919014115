use vstd::prelude::*;
use crate::error::ErrorCause;
use crate::error::UnifiedError;
use crate::id::ToolchainError;
use crate::id::ToolchainId;
use crate::id::name_accepted;
use crate::table::Toolchains;
use crate::table::entry_views;
use crate::table::lemma_map_of_dom;
use crate::table::map_of;
use crate::table::unique_keys;

verus! {

/// What `toml::from_str` makes of a piece of text when asked for a table
/// of string keys and string values: the parsed table as a map, or nothing
/// when the text is not such a table. The parse depends on the text alone.
pub uninterp spec fn toml_table_of(text: Seq<char>) -> Option<Map<Seq<char>, Seq<char>>>;

/// Raw character data of owned key/path pairs, in the order handed over.
pub open spec fn pair_views(pairs: Seq<(String, String)>) -> Seq<(Seq<char>, Seq<char>)> {
    pairs.map_values(|p: (String, String)| (p.0@, p.1@))
}

/// Relies on toml::from_str, asked for a string-to-string table: it
/// deserializes TOML text into a table binding each key once to a string
/// value, and fails on any other text; an empty text is an empty table.
/// The pairs come back in no particular order; their map is the parsed
/// table, and the error value is the parser's message.
#[verifier::external_body]
fn parse_toml_pairs(text: &str) -> (r: Result<Vec<(String, String)>, String>)
    ensures
        r matches Ok(pairs) ==> unique_keys(pair_views(pairs@)) && toml_table_of(text@) == Some(
            map_of(pair_views(pairs@)),
        ),
        r is Err <==> toml_table_of(text@) is None,
        r is Err ==> text@.len() != 0,
        r matches Ok(pairs) ==> (text@.len() == 0 ==> pairs@.len() == 0),
{
    match toml::from_str::<std::collections::HashMap<String, String>>(text) {
        Ok(table) => Ok(table.into_iter().collect()),
        Err(e) => Err(format!("{}", e)),
    }
}

/// A load of the given text succeeds exactly when the text parses as a
/// string-to-string table and every key of that table is an accepted
/// toolchain name.
pub open spec fn load_succeeds(text: Seq<char>) -> bool {
    toml_table_of(text) matches Some(m) && (forall|k: Seq<char>|
        m.dom().contains(k) ==> name_accepted(k))
}

/// Which cause a failed load of the given text reports: a deserialization
/// failure exactly when the text does not parse as a string-to-string
/// table, else a domain failure carrying one key of the parsed table that
/// the naming policy rejected. A load from text never fails with an I/O
/// cause.
pub open spec fn load_failure_cause(text: Seq<char>, c: ErrorCause) -> bool {
    match c {
        ErrorCause::Io { .. } => false,
        ErrorCause::Deserialize { .. } => toml_table_of(text) is None,
        ErrorCause::Toolchain { error } => {
            &&& toml_table_of(text) matches Some(m)
            &&& error matches ToolchainError::InvalidToolchainName { name }
            &&& m.dom().contains(name@)
            &&& !name_accepted(name@)
        },
    }
}

/// Maps every key of the deserialized table through the naming policy. If
/// every key validates, the result is the full table, path values copied
/// unchanged — exactly the keys and values handed in, nothing lost and
/// nothing added. The first rejected key, in the handed-over order, aborts
/// the whole load with the domain error carrying that key.
pub fn validate_entries(pairs: Vec<(String, String)>) -> (r: Result<Toolchains, ToolchainError>)
    requires
        unique_keys(pair_views(pairs@)),
    ensures
        r matches Ok(t) ==> t@ == map_of(pair_views(pairs@)) && (forall|k: Seq<char>|
            map_of(pair_views(pairs@)).dom().contains(k) ==> name_accepted(k)),
        r matches Err(e) ==> e matches ToolchainError::InvalidToolchainName { name } && map_of(
            pair_views(pairs@),
        ).dom().contains(name@) && !name_accepted(name@),
        (forall|k: Seq<char>| map_of(pair_views(pairs@)).dom().contains(k) ==> name_accepted(k))
            ==> r is Ok,
{
    let mut out: Vec<(ToolchainId, String)> = Vec::new();
    let mut i: usize = 0;
    while i < pairs.len()
        invariant
            i <= pairs.len(),
            unique_keys(pair_views(pairs@)),
            entry_views(out@) =~= pair_views(pairs@).take(i as int),
            forall|j: int| 0 <= j < i ==> name_accepted(#[trigger] pair_views(pairs@)[j].0),
        decreases pairs.len() - i,
    {
        proof {
            assert(pair_views(pairs@)[i as int] == (pairs@[i as int].0@, pairs@[i as int].1@));
        }
        match ToolchainId::parse(pairs[i].0.as_str()) {
            Ok(id) => {
                let path = pairs[i].1.clone();
                out.push((id, path));
                proof {
                    assert(entry_views(out@) =~= pair_views(pairs@).take(i as int + 1));
                }
            },
            Err(e) => {
                proof {
                    lemma_map_of_dom(pair_views(pairs@));
                }
                return Err(e);
            },
        }
        i = i + 1;
    }
    proof {
        assert(pair_views(pairs@).take(pairs.len() as int) =~= pair_views(pairs@));
        lemma_map_of_dom(pair_views(pairs@));
        assert forall|k: Seq<char>|
            map_of(pair_views(pairs@)).dom().contains(k) implies name_accepted(k) by {
            let j = choose|j: int|
                0 <= j < pair_views(pairs@).len() && pair_views(pairs@)[j].0 == k;
            assert(name_accepted(pair_views(pairs@)[j].0));
        }
    }
    Ok(Toolchains::from_entries(out))
}

/// Loads the toolchain table from already-read text: deserializes it as a
/// string-to-string table, then validates every key. Both failure kinds
/// come back as a `UnifiedError` with no context attached and the original
/// cause recoverable; a table comes back exactly when the text parses and
/// every key is accepted, and then it holds exactly the parsed bindings.
pub fn load_toolchains_from_str(text: &str) -> (r: Result<Toolchains, UnifiedError>)
    ensures
        r matches Ok(t) ==> toml_table_of(text@) == Some(t@),
        r is Ok <==> load_succeeds(text@),
        r matches Err(e) ==> e.contexts@.len() == 0 && load_failure_cause(text@, e.cause),
        text@.len() == 0 ==> r is Ok,
{
    match parse_toml_pairs(text) {
        Err(message) => Err(UnifiedError::from_cause(ErrorCause::Deserialize { message })),
        Ok(pairs) => match validate_entries(pairs) {
            Ok(t) => Ok(t),
            Err(error) => Err(UnifiedError::from_cause(ErrorCause::Toolchain { error })),
        },
    }
}

/// Loads the toolchain table from the outcome of reading the file at some
/// path: the text read, or the I/O failure's message. The I/O failure is
/// wrapped unchanged as the cause of a `UnifiedError`; text is loaded as
/// by `load_toolchains_from_str`.
pub fn load_toolchains(read: Result<String, String>) -> (r: Result<Toolchains, UnifiedError>)
    ensures
        read matches Err(m) ==> (r matches Err(e) && e.cause matches ErrorCause::Io { message }
            && message@ == m@ && e.contexts@.len() == 0),
        read matches Ok(text) ==> {
            &&& (r matches Ok(t) ==> toml_table_of(text@) == Some(t@))
            &&& (r is Ok <==> load_succeeds(text@))
            &&& (r matches Err(e) ==> e.contexts@.len() == 0 && load_failure_cause(text@, e.cause))
            &&& (text@.len() == 0 ==> r is Ok)
        },
{
    match read {
        Err(message) => Err(UnifiedError::from_cause(ErrorCause::Io { message })),
        Ok(text) => load_toolchains_from_str(text.as_str()),
    }
}

} // verus!
