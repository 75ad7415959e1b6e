//! The decisions the service takes around its handlers: which requests are
//! let in, and where the database file lies.
use vstd::prelude::*;

verus! {

/// The scheme that a database address must start with.
pub open spec fn sqlite_prefix() -> Seq<char> {
    seq!['s', 'q', 'l', 'i', 't', 'e', ':', '/', '/']
}

/// The file path of a database address: what follows `sqlite://`, or
/// `None` when the address does not start with it.
pub open spec fn sqlite_path_spec(url: Seq<char>) -> Option<Seq<char>> {
    if url.len() >= 9 && url.take(9) == sqlite_prefix() {
        Some(url.skip(9))
    } else {
        None
    }
}

/// The path written after `sqlite://` is the path read back.
pub proof fn law_sqlite_path_read_back(path: Seq<char>)
    ensures
        sqlite_path_spec(sqlite_prefix() + path) == Some(path),
{
    let url = sqlite_prefix() + path;
    assert(url.take(9) =~= sqlite_prefix());
    assert(url.skip(9) =~= path);
}

/// Strips `sqlite://` from a database address.
pub fn sqlite_path(url: &str) -> (path: Option<String>)
    ensures
        path is Some <==> sqlite_path_spec(url@) is Some,
        path matches Some(p) ==> p@ == sqlite_path_spec(url@).unwrap(),
{
    let prefix: Vec<char> = vec!['s', 'q', 'l', 'i', 't', 'e', ':', '/', '/'];
    assert(prefix@ == sqlite_prefix());
    let len = url.unicode_len();
    if len < 9 {
        return None;
    }
    let mut i: usize = 0;
    while i < 9
        invariant
            i <= 9,
            len == url@.len(),
            len >= 9,
            prefix@ == sqlite_prefix(),
            url@.take(i as int) == sqlite_prefix().take(i as int),
        decreases 9 - i,
    {
        if url.get_char(i) != prefix[i] {
            assert(url@.take(9)[i as int] != sqlite_prefix()[i as int]);
            return None;
        }
        assert(url@.take(i + 1) =~= sqlite_prefix().take(i + 1));
        i = i + 1;
    }
    assert(sqlite_prefix().take(9) =~= sqlite_prefix());
    let rest = url.substring_char(9, len);
    assert(rest@ =~= url@.skip(9));
    Some(rest.to_owned())
}

/// Whether a request may go on: it must carry an authorization token whose
/// bytes are exactly those of the key.
pub open spec fn authorized(token: Option<Seq<u8>>, key: Seq<u8>) -> bool {
    match token {
        Some(t) => t == key,
        None => false,
    }
}

/// A request without a token is never let in, and one with a token is let
/// in exactly when the token's bytes are the key's bytes.
pub proof fn law_authorized_exactly_with_key(token: Seq<u8>, key: Seq<u8>)
    ensures
        !authorized(None, key),
        authorized(Some(token), key) <==> (token.len() == key.len() && forall|i: int|
            0 <= i < key.len() ==> token[i] == key[i]),
{
    if token.len() == key.len() && forall|i: int| 0 <= i < key.len() ==> token[i] == key[i] {
        assert(token =~= key);
    }
}

/// An address that does not start with `sqlite://` has no path.
pub proof fn law_sqlite_path_needs_scheme(url: Seq<char>)
    ensures
        sqlite_path_spec(url) is Some <==> (url.len() >= 9 && url.take(9) == sqlite_prefix()),
        sqlite_path_spec(url) matches Some(p) ==> sqlite_prefix() + p == url,
{
    if url.len() >= 9 && url.take(9) == sqlite_prefix() {
        assert(sqlite_prefix() + url.skip(9) =~= url);
    }
}

/// Checks the authorization token of a request against the key.
pub fn is_authorized(token: Option<&[u8]>, api_key: &[u8]) -> (ok: bool)
    ensures
        ok == authorized(
            match token {
                Some(t) => Some(t@),
                None => None,
            },
            api_key@,
        ),
{
    let t = match token {
        Some(t) => t,
        None => return false,
    };
    let key = api_key;
    if t.len() != key.len() {
        return false;
    }
    let mut i: usize = 0;
    while i < t.len()
        invariant
            i <= t@.len(),
            t@.len() == key@.len(),
            key@ == api_key@,
            token matches Some(tt) && tt@ == t@,
            forall|j: int| 0 <= j < i ==> t@[j] == key@[j],
        decreases t@.len() - i,
    {
        if t[i] != key[i] {
            assert(t@[i as int] != key@[i as int]);
            return false;
        }
        i = i + 1;
    }
    assert(t@ =~= key@);
    true
}

} // verus!
