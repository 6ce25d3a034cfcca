//! Table names derived from a document type's identifier.
//!
//! Table names cannot be bound as query parameters, so they are written
//! into statement text. Only identifiers made of ASCII letters, digits and
//! underscores, not starting with a digit, are accepted for that.
use vstd::prelude::*;

verus! {

/// A character allowed in a table name.
pub open spec fn ident_char(c: char) -> bool {
    ('a' <= c && c <= 'z') || ('A' <= c && c <= 'Z') || ('0' <= c && c <= '9') || c == '_'
}

/// A document identifier that may be written into statement text.
pub open spec fn valid_identifier(s: Seq<char>) -> bool {
    &&& s.len() > 0
    &&& !('0' <= s[0] && s[0] <= '9')
    &&& forall|i: int| 0 <= i < s.len() ==> ident_char(#[trigger] s[i])
}

/// The draft table of the document type `identifier`.
pub open spec fn draft_table(identifier: Seq<char>) -> Seq<char> {
    identifier + "_draft"@
}

/// The meta table of the document type `identifier`.
pub open spec fn meta_table(identifier: Seq<char>) -> Seq<char> {
    identifier + "_meta"@
}

/// An accepted identifier holds no quote, whitespace, semicolon, comment
/// or parameter sign, so embedding it in statement text cannot end the
/// quoted table name or start another statement.
pub proof fn valid_identifier_has_no_delimiters(s: Seq<char>)
    requires
        valid_identifier(s),
    ensures
        forall|i: int| 0 <= i < s.len() ==> {
            let c = #[trigger] s[i];
            &&& c != '"' && c != '\'' && c != '`'
            &&& c != ' ' && c != '\n' && c != '\t'
            &&& c != ';' && c != '-' && c != '/' && c != '$'
            &&& c != '(' && c != ')' && c != ','
        },
{
    assert forall|i: int| 0 <= i < s.len() implies {
        let c = #[trigger] s[i];
        &&& c != '"' && c != '\'' && c != '`'
        &&& c != ' ' && c != '\n' && c != '\t'
        &&& c != ';' && c != '-' && c != '/' && c != '$'
        &&& c != '(' && c != ')' && c != ','
    } by {
        assert(ident_char(s[i]));
    }
}

/// The identifier holds a character that is not safe in a table name.
#[derive(Debug, PartialEq, Eq, Structural, Clone, Copy)]
pub enum NamingError {
    InvalidIdentifier,
}

/// The three tables of one document type.
pub struct TableNames {
    pub published: String,
    pub draft: String,
    pub meta: String,
}

/// Whether `identifier` may be written into statement text.
pub fn is_valid_identifier(identifier: &str) -> (r: bool)
    ensures
        r == valid_identifier(identifier@),
{
    let n = identifier.unicode_len();
    if n == 0 {
        return false;
    }
    let first = identifier.get_char(0);
    if '0' <= first && first <= '9' {
        return false;
    }
    let mut i: usize = 0;
    while i < n
        invariant
            n == identifier@.len(),
            i <= n,
            forall|j: int| 0 <= j < i ==> ident_char(#[trigger] identifier@[j]),
        decreases n - i,
    {
        let c = identifier.get_char(i);
        if !(('a' <= c && c <= 'z') || ('A' <= c && c <= 'Z') || ('0' <= c && c <= '9') || c == '_') {
            assert(!ident_char(identifier@[i as int]));
            return false;
        }
        i = i + 1;
    }
    true
}

/// The published, draft and meta table names of a document type:
/// `identifier`, `identifier_draft` and `identifier_meta`.
pub fn table_names(identifier: &str) -> (r: Result<TableNames, NamingError>)
    ensures
        r is Ok <==> valid_identifier(identifier@),
        r matches Ok(t) ==> {
            &&& t.published@ == identifier@
            &&& t.draft@ == draft_table(identifier@)
            &&& t.meta@ == meta_table(identifier@)
        },
{
    if !is_valid_identifier(identifier) {
        return Err(NamingError::InvalidIdentifier);
    }
    Ok(TableNames {
        published: identifier.to_owned(),
        draft: identifier.to_owned().concat("_draft"),
        meta: identifier.to_owned().concat("_meta"),
    })
}

} // verus!
