use vstd::prelude::*;

verus! {

/// An owned model of the host application's configuration tree, as a YAML or
/// JSON mapping would be handed over at startup. Numbers keep their decimal
/// rendering; none of the authentication settings reads one.
#[derive(Debug, PartialEq, Eq)]
pub enum ConfigValue {
    Null,
    Bool(bool),
    Number(String),
    Text(String),
    Array(Vec<ConfigValue>),
    Object(Vec<(String, ConfigValue)>),
}

/// The value under `key` among `fields`, earliest entry first. A tree built
/// from a parsed configuration mapping carries each key at most once.
pub open spec fn lookup_field(fields: Seq<(String, ConfigValue)>, key: Seq<char>) -> Option<
    ConfigValue,
>
    decreases fields.len(),
{
    if fields.len() == 0 {
        None
    } else if fields.first().0@ == key {
        Some(fields.first().1)
    } else {
        lookup_field(fields.drop_first(), key)
    }
}

proof fn lemma_lookup_skip(fields: Seq<(String, ConfigValue)>, key: Seq<char>, i: int)
    requires
        0 <= i <= fields.len(),
        forall|j: int| 0 <= j < i ==> fields[j].0@ != key,
    ensures
        lookup_field(fields, key) == lookup_field(fields.skip(i), key),
    decreases i,
{
    if i > 0 {
        lemma_lookup_skip(fields, key, i - 1);
        assert(fields.skip(i - 1).len() > 0);
        assert(fields.skip(i - 1).first() == fields[i - 1]);
        assert(fields.skip(i - 1).first().0@ != key);
        assert(lookup_field(fields.skip(i - 1), key) == lookup_field(
            fields.skip(i - 1).drop_first(),
            key,
        ));
        assert(fields.skip(i - 1).drop_first() =~= fields.skip(i));
    } else {
        assert(fields.skip(0) =~= fields);
    }
}

impl ConfigValue {
    /// The value under `key` when `self` is a mapping that carries it.
    pub open spec fn get_view(self, key: Seq<char>) -> Option<ConfigValue> {
        match self {
            ConfigValue::Object(fields) => lookup_field(fields@, key),
            _ => None,
        }
    }

    /// Looks `key` up in a mapping; `None` on any other kind of value and on
    /// an absent key.
    pub fn get<'a>(&'a self, key: &str) -> (r: Option<&'a ConfigValue>)
        ensures
            match r {
                Some(v) => self.get_view(key@) == Some(*v),
                None => self.get_view(key@) is None,
            },
    {
        match self {
            ConfigValue::Object(fields) => {
                let k: String = key.to_owned();
                let n = fields.len();
                for i in 0..n
                    invariant
                        *self is Object,
                        self->Object_0@ == fields@,
                        n == fields@.len(),
                        k@ == key@,
                        forall|j: int| 0 <= j < i ==> fields@[j].0@ != key@,
                {
                    if fields[i].0 == k {
                        proof {
                            lemma_lookup_skip(fields@, key@, i as int);
                            assert(fields@.skip(i as int).len() > 0);
                            assert(fields@.skip(i as int).first() == fields@[i as int]);
                            assert(lookup_field(fields@.skip(i as int), key@) == Some(
                                fields@[i as int].1,
                            ));
                            assert(self.get_view(key@) == Some(fields@[i as int].1));
                        }
                        return Some(&fields[i].1);
                    }
                }
                proof {
                    lemma_lookup_skip(fields@, key@, n as int);
                    assert(fields@.skip(n as int).len() == 0);
                }
                None
            },
            _ => None,
        }
    }
}

} // verus!
