//! The log output encoding and its token parsing.

use vstd::prelude::*;

use crate::error::DeserializationError;

verus! {

/// Output encoding of the log subscriber.
///
/// A closed set of two variants; the default is `Compact`.
#[derive(Clone, Copy, Debug, PartialEq, Eq, Structural)]
pub enum LogFormat {
    Compact,
    Json,
}

/// `s` spells the token `compact`, each letter in either case.
pub open spec fn is_compact_token(s: Seq<char>) -> bool {
    &&& s.len() == 7
    &&& s[0] == 'c' || s[0] == 'C'
    &&& s[1] == 'o' || s[1] == 'O'
    &&& s[2] == 'm' || s[2] == 'M'
    &&& s[3] == 'p' || s[3] == 'P'
    &&& s[4] == 'a' || s[4] == 'A'
    &&& s[5] == 'c' || s[5] == 'C'
    &&& s[6] == 't' || s[6] == 'T'
}

/// `s` spells the token `json`, each letter in either case.
pub open spec fn is_json_token(s: Seq<char>) -> bool {
    &&& s.len() == 4
    &&& s[0] == 'j' || s[0] == 'J'
    &&& s[1] == 's' || s[1] == 'S'
    &&& s[2] == 'o' || s[2] == 'O'
    &&& s[3] == 'n' || s[3] == 'N'
}

impl Default for LogFormat {
    fn default() -> (r: Self)
        ensures
            r == LogFormat::Compact,
    {
        LogFormat::Compact
    }
}

impl LogFormat {
    /// Parses a document token, case-insensitively, into a format.
    ///
    /// Exactly the casings of `compact` and of `json` are accepted; any
    /// other token is rejected with an error naming it and the field path.
    pub fn parse(token: &str) -> (r: Result<LogFormat, DeserializationError>)
        ensures
            r is Ok <==> is_compact_token(token@) || is_json_token(token@),
            is_compact_token(token@) ==> r == Ok::<LogFormat, DeserializationError>(LogFormat::Compact),
            is_json_token(token@) ==> r == Ok::<LogFormat, DeserializationError>(LogFormat::Json),
            r matches Err(e) ==> e.token@ == token@ && e.field@ == "logging.format"@,
    {
        let n = token.unicode_len();
        if n == 7 {
            let c0 = token.get_char(0);
            let c1 = token.get_char(1);
            let c2 = token.get_char(2);
            let c3 = token.get_char(3);
            let c4 = token.get_char(4);
            let c5 = token.get_char(5);
            let c6 = token.get_char(6);
            if (c0 == 'c' || c0 == 'C') && (c1 == 'o' || c1 == 'O') && (c2 == 'm' || c2 == 'M')
                && (c3 == 'p' || c3 == 'P') && (c4 == 'a' || c4 == 'A')
                && (c5 == 'c' || c5 == 'C') && (c6 == 't' || c6 == 'T') {
                return Ok(LogFormat::Compact);
            }
        } else if n == 4 {
            let c0 = token.get_char(0);
            let c1 = token.get_char(1);
            let c2 = token.get_char(2);
            let c3 = token.get_char(3);
            if (c0 == 'j' || c0 == 'J') && (c1 == 's' || c1 == 'S') && (c2 == 'o' || c2 == 'O')
                && (c3 == 'n' || c3 == 'N') {
                return Ok(LogFormat::Json);
            }
        }
        Err(DeserializationError { field: "logging.format".to_owned(), token: token.to_owned() })
    }

    /// The canonical (lower-case) document token of this format.
    pub fn token(self) -> (r: &'static str)
        ensures
            self is Compact ==> r@ == "compact"@ && is_compact_token(r@),
            self is Json ==> r@ == "json"@ && is_json_token(r@),
    {
        match self {
            LogFormat::Compact => {
                proof {
                    reveal_strlit("compact");
                }
                "compact"
            },
            LogFormat::Json => {
                proof {
                    reveal_strlit("json");
                }
                "json"
            },
        }
    }
}

} // verus!
