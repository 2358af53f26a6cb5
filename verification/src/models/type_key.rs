//! The two kinds of Redis key that the service reports on.
use vstd::prelude::*;

verus! {

/// A kind of Redis key.
#[derive(Debug, Clone, Copy, PartialEq, Eq, Structural)]
pub enum TypeKey {
    List,
    Hash,
}

/// The name that Redis gives the kind `t`.
pub open spec fn type_key_name(t: TypeKey) -> Seq<char> {
    match t {
        TypeKey::List => "list"@,
        TypeKey::Hash => "hash"@,
    }
}

/// The kind that a Redis type name stands for; a name other than `hash`
/// stands for a list.
pub open spec fn type_key_of_name(name: Seq<char>) -> TypeKey {
    if name == "hash"@ {
        TypeKey::Hash
    } else {
        TypeKey::List
    }
}

impl TypeKey {
    /// The name that Redis gives this kind.
    pub fn as_str(&self) -> (r: &'static str)
        ensures
            r@ == type_key_name(*self),
    {
        match self {
            TypeKey::List => "list",
            TypeKey::Hash => "hash",
        }
    }
}

impl Default for TypeKey {
    /// A list.
    fn default() -> (t: Self)
        ensures
            t == TypeKey::List,
    {
        TypeKey::List
    }
}

impl<'a> From<&'a str> for TypeKey {
    /// The kind that a Redis type name stands for (a list for any name but
    /// `list` and `hash`).
    fn from(s: &'a str) -> (t: Self) {
        let hash = "hash".to_owned();
        if s.to_owned() == hash {
            TypeKey::Hash
        } else {
            TypeKey::List
        }
    }
}

impl<'a> vstd::std_specs::convert::FromSpecImpl<&'a str> for TypeKey {
    open spec fn obeys_from_spec() -> bool {
        true
    }

    open spec fn from_spec(s: &'a str) -> TypeKey {
        type_key_of_name(s@)
    }
}

/// A list is called `list` and a hash `hash`, the names Redis uses; `hash`
/// stands for a hash and every other name for a list.
pub proof fn lemma_type_key_names(name: Seq<char>)
    ensures
        type_key_name(TypeKey::List) == "list"@,
        type_key_name(TypeKey::Hash) == "hash"@,
        type_key_of_name("hash"@) == TypeKey::Hash,
        name != "hash"@ ==> type_key_of_name(name) == TypeKey::List,
{
}

/// Reading back the name of a kind gives the kind.
pub proof fn lemma_type_key_name_round_trip(t: TypeKey)
    ensures
        type_key_of_name(type_key_name(t)) == t,
{
    reveal_strlit("list");
    reveal_strlit("hash");
    assert("list"@[0] != "hash"@[0]);
}

/// The names `list` and `hash` are the names of the kinds they stand for.
pub proof fn lemma_type_key_of_known_name(name: Seq<char>)
    requires
        name == "list"@ || name == "hash"@,
    ensures
        type_key_name(type_key_of_name(name)) == name,
{
    reveal_strlit("list");
    reveal_strlit("hash");
    assert("list"@[0] != "hash"@[0]);
}

} // verus!
