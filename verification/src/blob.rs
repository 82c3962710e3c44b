//! The semi-structured argument blob carried by an envelope: an ordered set
//! of named fields, each a string, an integer, or a list of nested blobs.
//! Both `required_args` and `other_args` are blobs, and the dispatcher's
//! output parameter set is one as well.

use vstd::prelude::*;

verus! {

/// One field value inside a blob.
#[derive(Debug)]
pub enum FieldValue {
    Str(String),
    Int(i64),
    List(Vec<Blob>),
}

/// An ordered set of named field values.
#[derive(Debug)]
pub struct Blob {
    pub fields: Vec<(String, FieldValue)>,
}

/// The first field named `key`, if any.
pub open spec fn lookup(fields: Seq<(String, FieldValue)>, key: Seq<char>) -> Option<FieldValue>
    decreases fields.len(),
{
    if fields.len() == 0 {
        None
    } else if fields[0].0@ == key {
        Some(fields[0].1)
    } else {
        lookup(fields.drop_first(), key)
    }
}

/// Looking a key up in appended field lists searches the front list first.
pub proof fn lemma_lookup_append(
    a: Seq<(String, FieldValue)>,
    b: Seq<(String, FieldValue)>,
    key: Seq<char>,
)
    ensures
        lookup(a + b, key) == if lookup(a, key) is Some {
            lookup(a, key)
        } else {
            lookup(b, key)
        },
    decreases a.len(),
{
    if a.len() == 0 {
        assert(a + b =~= b);
    } else {
        assert((a + b).drop_first() =~= a.drop_first() + b);
        lemma_lookup_append(a.drop_first(), b, key);
    }
}

/// Appending one field leaves every earlier field's lookup in place and
/// resolves exactly the new name to the new value.
pub proof fn lemma_lookup_push(
    s: Seq<(String, FieldValue)>,
    k: String,
    v: FieldValue,
    key: Seq<char>,
)
    ensures
        lookup(s.push((k, v)), key) == if lookup(s, key) is Some {
            lookup(s, key)
        } else if k@ == key {
            Some(v)
        } else {
            None::<FieldValue>
        },
{
    reveal_with_fuel(lookup, 2);
    assert(s.push((k, v)) =~= s + seq![(k, v)]);
    lemma_lookup_append(s, seq![(k, v)], key);
    assert(seq![(k, v)].drop_first() =~= Seq::<(String, FieldValue)>::empty());
    assert(seq![(k, v)][0] == (k, v));
    assert(lookup(seq![(k, v)], key) == if k@ == key {
        Some(v)
    } else {
        None::<FieldValue>
    });
}

impl Blob {
    /// The value of the field named `key`, if present.
    pub open spec fn spec_get(self, key: Seq<char>) -> Option<FieldValue> {
        lookup(self.fields@, key)
    }

    /// The character content of the string field named `key`, if the blob has
    /// one of that name and kind.
    pub open spec fn get_str(self, key: Seq<char>) -> Option<Seq<char>> {
        match self.spec_get(key) {
            Some(FieldValue::Str(s)) => Some(s@),
            _ => None,
        }
    }

    /// The value of the integer field named `key`, if the blob has one of
    /// that name and kind.
    pub open spec fn get_int(self, key: Seq<char>) -> Option<i64> {
        match self.spec_get(key) {
            Some(FieldValue::Int(v)) => Some(v),
            _ => None,
        }
    }

    /// The elements of the list field named `key`, if the blob has one of
    /// that name and kind.
    pub open spec fn get_list(self, key: Seq<char>) -> Option<Seq<Blob>> {
        match self.spec_get(key) {
            Some(FieldValue::List(v)) => Some(v@),
            _ => None,
        }
    }

    /// An empty blob.
    pub fn new() -> (r: Blob)
        ensures
            r.fields@ =~= Seq::<(String, FieldValue)>::empty(),
    {
        Blob { fields: Vec::new() }
    }

    /// Appends a field; an existing field of the same name keeps priority,
    /// since lookup takes the first match.
    pub fn push(&mut self, key: String, value: FieldValue)
        ensures
            final(self).fields@ == old(self).fields@.push((key, value)),
            forall|k: Seq<char>|
                #[trigger] final(self).spec_get(k) == if old(self).spec_get(k) is Some {
                    old(self).spec_get(k)
                } else if key@ == k {
                    Some(value)
                } else {
                    None::<FieldValue>
                },
    {
        proof {
            assert forall|k: Seq<char>| true implies #[trigger] lookup(
                self.fields@.push((key, value)),
                k,
            ) == (if lookup(self.fields@, k) is Some {
                lookup(self.fields@, k)
            } else if key@ == k {
                Some(value)
            } else {
                None::<FieldValue>
            }) by {
                lemma_lookup_push(self.fields@, key, value, k);
            }
        }
        self.fields.push((key, value));
    }

    /// Looks a field up by name, returning a reference to its value.
    pub fn get(&self, key: &String) -> (r: Option<&FieldValue>)
        ensures
            match r {
                Some(v) => self.spec_get(key@) == Some(*v),
                None => self.spec_get(key@) is None,
            },
    {
        proof {
            assert(self.fields@.skip(0) =~= self.fields@);
        }
        let mut i: usize = 0;
        while i < self.fields.len()
            invariant
                i <= self.fields@.len(),
                lookup(self.fields@, key@) == lookup(self.fields@.skip(i as int), key@),
            decreases self.fields@.len() - i,
        {
            proof {
                assert(self.fields@.skip(i as int).drop_first() =~= self.fields@.skip(
                    i as int + 1,
                ));
            }
            if self.fields[i].0.eq(key) {
                return Some(&self.fields[i].1);
            }
            i = i + 1;
        }
        proof {
            assert(self.fields@.skip(i as int) =~= Seq::<(String, FieldValue)>::empty());
        }
        None
    }

    /// Copies the string field named `key` out, if the blob has one of that
    /// name and kind.
    pub fn get_str_field(&self, key: &str) -> (r: Option<String>)
        ensures
            match r {
                Some(s) => self.get_str(key@) == Some(s@),
                None => self.get_str(key@) is None,
            },
    {
        let k = key.to_owned();
        match self.get(&k) {
            Some(FieldValue::Str(s)) => Some(s.clone()),
            _ => None,
        }
    }

    /// Reads the integer field named `key`, if the blob has one of that name
    /// and kind.
    pub fn get_int_field(&self, key: &str) -> (r: Option<i64>)
        ensures
            match r {
                Some(v) => self.get_int(key@) == Some(v),
                None => self.get_int(key@) is None,
            },
    {
        let k = key.to_owned();
        match self.get(&k) {
            Some(FieldValue::Int(v)) => Some(*v),
            _ => None,
        }
    }

    /// Borrows the list field named `key`, if the blob has one of that name
    /// and kind.
    pub fn get_list_field(&self, key: &str) -> (r: Option<&Vec<Blob>>)
        ensures
            match r {
                Some(v) => self.get_list(key@) == Some(v@),
                None => self.get_list(key@) is None,
            },
    {
        let k = key.to_owned();
        match self.get(&k) {
            Some(FieldValue::List(v)) => Some(v),
            _ => None,
        }
    }
}

} // verus!
