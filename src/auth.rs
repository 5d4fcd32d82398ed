use vstd::prelude::*;
use crate::error::{ErrorInfo, CODE_BAD_REQUEST};
use crate::signing::{signed_by, TokenParams};
use crate::token::Token;

verus! {

/// No character of `s` is the key separator `:`.
pub open spec fn colon_free(s: Seq<char>) -> bool {
    forall|j: int| 0 <= j < s.len() ==> s[j] != ':'
}

/// Index `i` holds the first `:` of `s`.
pub open spec fn is_first_colon(s: Seq<char>, i: int) -> bool {
    0 <= i < s.len() && s[i] == ':' && colon_free(s.subrange(0, i))
}

/// The `(name, value)` pair that `"<name>:<value>"` denotes: split at the
/// first `:`, both sides non-empty; `None` where `s` is no key.
pub open spec fn parsed_key(s: Seq<char>) -> Option<(Seq<char>, Seq<char>)> {
    if exists|i: int| is_first_colon(s, i) {
        let i = choose|i: int| is_first_colon(s, i);
        if 0 < i && i + 1 < s.len() {
            Some((s.subrange(0, i), s.subrange(i + 1, s.len() as int)))
        } else {
            None
        }
    } else {
        None
    }
}

/// A string has at most one first `:`.
proof fn lemma_first_colon_unique(s: Seq<char>, i: int, j: int)
    requires
        is_first_colon(s, i),
        is_first_colon(s, j),
    ensures
        i == j,
{
    if i < j {
        assert(s.subrange(0, j)[i] == s[i]);
    } else if j < i {
        assert(s.subrange(0, i)[j] == s[j]);
    }
}

/// Joining a colon-free non-empty name and a non-empty value with `:` and
/// parsing the result gives back the same name and value, whatever `:`
/// the value holds.
pub proof fn lemma_key_round_trip(name: Seq<char>, value: Seq<char>)
    requires
        name.len() > 0,
        value.len() > 0,
        colon_free(name),
    ensures
        parsed_key(name + seq![':'] + value) == Some((name, value)),
{
    let s = name + seq![':'] + value;
    let n = name.len() as int;
    assert(s.subrange(0, n) =~= name);
    assert(s.subrange(n + 1, s.len() as int) =~= value);
    assert(is_first_colon(s, n));
    let i = choose|i: int| is_first_colon(s, i);
    lemma_first_colon_unique(s, i, n);
}

/// A string with no `:` at all is never a key.
pub proof fn lemma_key_needs_colon(s: Seq<char>)
    requires
        colon_free(s),
    ensures
        parsed_key(s) is None,
{
}

/// An API key: a key name and its secret value, neither of them empty.
#[derive(Clone, Debug)]
pub struct Key {
    pub name: String,
    pub value: String,
}

impl Key {
    pub open spec fn wf(&self) -> bool {
        self.name@.len() > 0 && self.value@.len() > 0
    }

    /// Parse an API key from a string of the form `<keyName>:<keySecret>`.
    pub fn try_from(s: &str) -> (r: Result<Key, ErrorInfo>)
        ensures
            match r {
                Ok(k) => parsed_key(s@) == Some((k.name@, k.value@)) && k.wf(),
                Err(e) => parsed_key(s@) is None && e.code == CODE_BAD_REQUEST,
            },
    {
        let n = s.unicode_len();
        let mut i: usize = 0;
        while i < n
            invariant
                n == s@.len(),
                i <= n,
                colon_free(s@.subrange(0, i as int)),
            ensures
                i <= n,
                colon_free(s@.subrange(0, i as int)),
                i < n ==> s@[i as int] == ':',
            decreases n - i,
        {
            if s.get_char(i) == ':' {
                break;
            }
            proof {
                assert(s@.subrange(0, i as int + 1) =~= s@.subrange(0, i as int).push(s@[i as int]));
            }
            i = i + 1;
        }
        if i == n {
            proof {
                assert(s@.subrange(0, n as int) =~= s@);
                if exists|j: int| is_first_colon(s@, j) {
                    let j = choose|j: int| is_first_colon(s@, j);
                    assert(s@.subrange(0, n as int)[j] == s@[j]);
                }
            }
            return Err(ErrorInfo::new(CODE_BAD_REQUEST, "Invalid key"));
        }
        proof {
            assert(is_first_colon(s@, i as int));
            let j = choose|j: int| is_first_colon(s@, j);
            lemma_first_colon_unique(s@, i as int, j);
        }
        if i == 0 || i + 1 == n {
            return Err(ErrorInfo::new(CODE_BAD_REQUEST, "Invalid key"));
        }
        let name = String::from_str(s.substring_char(0, i));
        let value = String::from_str(s.substring_char(i + 1, n));
        Ok(Key { name, value })
    }

    /// A copy of this key.
    pub fn clone_key(&self) -> (r: Key)
        ensures
            r == *self,
    {
        Key { name: self.name.clone(), value: self.value.clone() }
    }

    /// Sign `params` with this key, giving a token request to exchange.
    pub fn sign(&self, params: TokenParams) -> (r: Result<Token, ErrorInfo>)
        ensures
            match r {
                Ok(Token::Request(req)) => signed_by(params, *self, Ok(req)),
                Ok(_) => false,
                Err(e) => signed_by(params, *self, Err(e)),
            },
    {
        match params.sign(self) {
            Ok(req) => Ok(Token::Request(req)),
            Err(e) => Err(e),
        }
    }
}

} // verus!
