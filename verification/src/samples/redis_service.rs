//! The keys under which the products service keeps its values in the store.
use vstd::prelude::*;

use crate::text::push_str;

verus! {

/// The keys of a service in the store: each value's key is the service's
/// base key, a colon, and the value's own key.
pub struct RedisKeys {
    base_key: String,
}

impl RedisKeys {
    /// The service's base key.
    pub closed spec fn base(&self) -> Seq<char> {
        self.base_key@
    }

    /// The keys of a service whose base key is `key`.
    pub fn new(key: &str) -> (r: RedisKeys)
        ensures
            r.base() == key@,
    {
        RedisKeys { base_key: key.to_owned() }
    }

    /// The key of the value whose own key is `key`.
    pub fn key(&self, key: &str) -> (r: String)
        ensures
            r@ == self.base() + ":"@ + key@,
    {
        proof {
            reveal_strlit(":");
        }
        let mut s = self.base_key.clone();
        push_str(&mut s, ":");
        push_str(&mut s, key);
        s
    }

    /// The pattern that every key of the service matches.
    pub fn pattern(&self) -> (r: String)
        ensures
            r@ == self.base() + ":*"@,
    {
        proof {
            reveal_strlit(":*");
        }
        let mut s = self.base_key.clone();
        push_str(&mut s, ":*");
        s
    }
}

/// The key of every value starts as the pattern does, up to its `*`: the
/// base key and a colon.
pub proof fn law_keys_match_pattern(base: Seq<char>, key: Seq<char>)
    ensures
        (base + ":"@ + key).take(base.len() + 1int) == (base + ":*"@).take(base.len() + 1int),
{
    reveal_strlit(":");
    reveal_strlit(":*");
    assert((base + ":"@ + key).take(base.len() + 1int) =~= base.push(':'));
    assert((base + ":*"@).take(base.len() + 1int) =~= base.push(':'));
}

} // verus!
