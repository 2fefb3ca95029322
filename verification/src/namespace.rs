//! Namespaces of Redis keys.

use vstd::prelude::*;

verus! {

/// The Redis key that `key` becomes under `namespace`.
pub open spec fn namespaced(namespace: Option<Seq<char>>, key: Seq<char>) -> Seq<char> {
    match namespace {
        Some(prefix) => prefix + ":"@ + key,
        None => key,
    }
}

/// The namespace of a Redis connection, if it has one.
#[derive(Debug)]
pub struct Namespace {
    prefix: Option<String>,
}

impl View for Namespace {
    type V = Option<Seq<char>>;

    closed spec fn view(&self) -> Option<Seq<char>> {
        match self.prefix {
            Some(prefix) => Some(prefix@),
            None => None,
        }
    }
}

impl Namespace {
    /// Leaves keys as they are.
    pub fn none() -> (r: Self)
        ensures
            r@ is None,
    {
        Namespace { prefix: None }
    }

    /// Prefixes keys with `prefix` and a colon.
    pub fn custom(prefix: String) -> (r: Self)
        ensures
            r@ == Some(prefix@),
    {
        Namespace { prefix: Some(prefix) }
    }

    /// Returns the Redis key that `key` becomes.
    pub fn key(&self, key: &str) -> (r: String)
        ensures
            r@ == namespaced(self@, key@),
    {
        match &self.prefix {
            Some(prefix) => {
                let mut full: String = prefix.clone();
                full.append(":");
                full.append(key);
                full
            },
            None => key.to_owned(),
        }
    }
}

/// Under one namespace, different keys stay different.
pub proof fn law_namespace_keeps_keys_apart(
    namespace: Option<Seq<char>>,
    a: Seq<char>,
    b: Seq<char>,
)
    requires
        namespaced(namespace, a) == namespaced(namespace, b),
    ensures
        a == b,
{
    match namespace {
        Some(prefix) => {
            let start = (prefix + ":"@).len() as int;
            assert((prefix + ":"@ + a).skip(start) =~= a);
            assert((prefix + ":"@ + b).skip(start) =~= b);
        },
        None => {},
    }
}

/// A key under a namespace is the namespace, a colon and the key.
pub proof fn law_namespace_is_a_prefix(namespace: Namespace, key: &str, full: String)
    requires
        call_ensures(Namespace::key, (&namespace, key), full),
    ensures
        match namespace@ {
            Some(prefix) => {
                &&& full@.len() == prefix.len() + 1 + key@.len()
                &&& full@.take(prefix.len() as int) == prefix
                &&& full@[prefix.len() as int] == ':'
                &&& full@.skip(prefix.len() as int + 1) == key@
            },
            None => full@ == key@,
        },
{
    reveal_strlit(":");
    if let Some(prefix) = namespace@ {
        assert(full@.take(prefix.len() as int) =~= prefix);
        assert(full@.skip(prefix.len() as int + 1) =~= key@);
    }
}

/// A namespace keeps the name it was made with.
pub proof fn law_namespace_keeps_its_name(prefix: String, custom: Namespace, plain: Namespace)
    requires
        call_ensures(Namespace::custom, (prefix,), custom),
        call_ensures(Namespace::none, (), plain),
    ensures
        custom@ == Some(prefix@),
        plain@ is None,
{
}

} // verus!
